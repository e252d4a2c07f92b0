//! Text primitives shared by the rest of the library.

use vstd::prelude::*;

verus! {

/// The decimal digits of `n`, most significant first, with no leading zeros
/// (`0` is written as a single digit).
pub open spec fn decimal(n: nat) -> Seq<char>
    decreases n,
{
    if n < 10 {
        seq![digit_char(n)]
    } else {
        decimal(n / 10).push(digit_char(n % 10))
    }
}

/// The character that stands for the decimal digit `d`.
pub open spec fn digit_char(d: nat) -> char {
    (('0' as u32) + d) as char
}

/// Calls `String::push`. Claimed: afterwards the string is what it was with
/// `c` appended.
#[verifier::external_body]
pub(crate) fn push_char(s: &mut String, c: char)
    ensures
        final(s)@ == old(s)@.push(c),
{
    s.push(c);
}

/// Writes `n` in decimal, as `u64::to_string` does.
pub fn decimal_string(n: u64) -> (out: String)
    ensures
        out@ == decimal(n as nat),
    decreases n,
{
    if n < 10 {
        let mut out = String::new();
        push_char(&mut out, char_for_digit(n));
        out
    } else {
        let mut out = decimal_string(n / 10);
        push_char(&mut out, char_for_digit(n % 10));
        out
    }
}

fn char_for_digit(d: u64) -> (c: char)
    requires
        d < 10,
    ensures
        c == digit_char(d as nat),
{
    if d == 0 { '0' } else if d == 1 { '1' } else if d == 2 { '2' } else if d == 3 { '3' }
    else if d == 4 { '4' } else if d == 5 { '5' } else if d == 6 { '6' } else if d == 7 { '7' }
    else if d == 8 { '8' } else { '9' }
}

/// The characters of `s`, in order.
pub fn chars_of(s: &str) -> (v: Vec<char>)
    ensures
        v@ == s@,
{
    let mut v: Vec<char> = Vec::new();
    for c in it: s.chars()
        invariant
            it.seq() == s@,
            v@ == it.seq().take(it.index() as int),
    {
        v.push(c);
    }
    v
}

/// The text made of the characters `v`.
pub fn string_of(v: &Vec<char>) -> (out: String)
    ensures
        out@ == v@,
{
    let mut out = String::new();
    let mut i: usize = 0;
    while i < v.len()
        invariant
            i <= v.len(),
            out@ == v@.take(i as int),
        decreases v.len() - i,
    {
        push_char(&mut out, v[i]);
        i = i + 1;
        assert(out@ == v@.take(i as int));
    }
    assert(v@.take(v.len() as int) == v@);
    out
}

/// Whether `c` has the Unicode `White_Space` property, as `char::is_whitespace`
/// decides.
pub open spec fn white_space(c: char) -> bool {
    ||| ('\u{9}' <= c <= '\u{d}')
    ||| c == ' '
    ||| c == '\u{85}'
    ||| c == '\u{a0}'
    ||| c == '\u{1680}'
    ||| ('\u{2000}' <= c <= '\u{200a}')
    ||| c == '\u{2028}'
    ||| c == '\u{2029}'
    ||| c == '\u{202f}'
    ||| c == '\u{205f}'
    ||| c == '\u{3000}'
}

/// Whether `c` is a control character (general category `Cc`), as
/// `char::is_control` decides.
pub open spec fn control(c: char) -> bool {
    ('\u{0}' <= c <= '\u{1f}') || ('\u{7f}' <= c <= '\u{9f}')
}

/// Decides [`white_space`].
pub fn is_white_space(c: char) -> (b: bool)
    ensures
        b == white_space(c),
{
    ('\u{9}' <= c && c <= '\u{d}') || c == ' ' || c == '\u{85}' || c == '\u{a0}' || c == '\u{1680}'
        || ('\u{2000}' <= c && c <= '\u{200a}') || c == '\u{2028}' || c == '\u{2029}' || c
        == '\u{202f}' || c == '\u{205f}' || c == '\u{3000}'
}

/// Decides [`control`].
pub fn is_control(c: char) -> (b: bool)
    ensures
        b == control(c),
{
    ('\u{0}' <= c && c <= '\u{1f}') || ('\u{7f}' <= c && c <= '\u{9f}')
}

/// `s` without its leading white space.
pub open spec fn trim_start(s: Seq<char>) -> Seq<char>
    decreases s.len(),
{
    if s.len() > 0 && white_space(s[0]) {
        trim_start(s.drop_first())
    } else {
        s
    }
}

/// `s` without its trailing white space.
pub open spec fn trim_end(s: Seq<char>) -> Seq<char>
    decreases s.len(),
{
    if s.len() > 0 && white_space(s.last()) {
        trim_end(s.drop_last())
    } else {
        s
    }
}

/// `s` without leading or trailing white space, as `str::trim` gives it.
pub open spec fn trimmed(s: Seq<char>) -> Seq<char> {
    trim_end(trim_start(s))
}

proof fn lemma_trim_start_skip(s: Seq<char>, i: int)
    requires
        0 <= i <= s.len(),
        forall|k: int| 0 <= k < i ==> white_space(#[trigger] s[k]),
    ensures
        trim_start(s) == trim_start(s.subrange(i, s.len() as int)),
    decreases i,
{
    if i > 0 {
        assert(s.drop_first() == s.subrange(1, s.len() as int));
        lemma_trim_start_skip(s.drop_first(), i - 1);
        assert(s.drop_first().subrange(i - 1, s.drop_first().len() as int) == s.subrange(i, s.len() as int));
    } else {
        assert(s.subrange(0, s.len() as int) == s);
    }
}

proof fn lemma_trim_end_skip(s: Seq<char>, j: int)
    requires
        0 <= j <= s.len(),
        forall|k: int| j <= k < s.len() ==> white_space(#[trigger] s[k]),
    ensures
        trim_end(s) == trim_end(s.subrange(0, j)),
    decreases s.len() - j,
{
    if j < s.len() {
        assert(s.drop_last() == s.subrange(0, s.len() - 1));
        lemma_trim_end_skip(s.drop_last(), j);
        assert(s.drop_last().subrange(0, j) == s.subrange(0, j));
    } else {
        assert(s.subrange(0, j) == s);
    }
}

/// The characters of `s` without leading or trailing white space.
pub fn trim_chars(s: &Vec<char>) -> (t: Vec<char>)
    ensures
        t@ == trimmed(s@),
{
    let n = s.len();
    let mut i: usize = 0;
    while i < n && is_white_space(s[i])
        invariant
            i <= n == s.len(),
            forall|k: int| 0 <= k < i ==> white_space(#[trigger] s@[k]),
        decreases n - i,
    {
        i = i + 1;
    }
    proof {
        lemma_trim_start_skip(s@, i as int);
    }
    let ghost rest = s@.subrange(i as int, n as int);
    assert(rest.len() == 0 || !white_space(rest[0]));
    assert(trim_start(rest) == rest);
    let mut j: usize = n;
    while j > i && is_white_space(s[j - 1])
        invariant
            i <= j <= n == s.len(),
            forall|k: int| j <= k < n ==> white_space(#[trigger] s@[k]),
        decreases j,
    {
        j = j - 1;
    }
    proof {
        lemma_trim_end_skip(rest, j - i);
        let front = rest.subrange(0, j - i);
        assert(front == s@.subrange(i as int, j as int));
        assert(front.len() == 0 || !white_space(front.last()));
        assert(trim_end(front) == front);
    }
    let mut t: Vec<char> = Vec::new();
    let mut k: usize = i;
    while k < j
        invariant
            i <= k <= j <= n == s.len(),
            t@ == s@.subrange(i as int, k as int),
        decreases j - k,
    {
        t.push(s[k]);
        k = k + 1;
    }
    t
}

/// `s` without leading or trailing white space.
pub fn trim(s: &str) -> (t: String)
    ensures
        t@ == trimmed(s@),
{
    let v = chars_of(s);
    let t = trim_chars(&v);
    string_of(&t)
}

/// Why text is not a number, as `u32::from_str` reports it.
#[derive(Debug, Clone, Copy, PartialEq, Eq, Structural)]
pub enum ParseIntError {
    /// The text is empty.
    Empty,
    /// The text holds something other than decimal digits after an optional `+`.
    InvalidDigit,
    /// The number is larger than `u32::MAX`.
    PosOverflow,
}

/// The text a parse error is reported with.
pub open spec fn parse_error_message(err: ParseIntError) -> Seq<char> {
    match err {
        ParseIntError::Empty => "cannot parse integer from empty string"@,
        ParseIntError::InvalidDigit => "invalid digit found in string"@,
        ParseIntError::PosOverflow => "number too large to fit in target type"@,
    }
}

impl ParseIntError {
    /// The text this error is reported with.
    pub fn message(&self) -> (m: String)
        ensures
            m@ == parse_error_message(*self),
    {
        match self {
            ParseIntError::Empty => String::from_str("cannot parse integer from empty string"),
            ParseIntError::InvalidDigit => String::from_str("invalid digit found in string"),
            ParseIntError::PosOverflow => String::from_str("number too large to fit in target type"),
        }
    }
}

/// Whether `c` is a decimal digit.
pub open spec fn digit(c: char) -> bool {
    '0' <= c <= '9'
}

/// The value of decimal digit `c`.
pub open spec fn digit_value(c: char) -> nat {
    (c as u32 - '0' as u32) as nat
}

/// Reads the decimal digits `d` onto the value `acc` read so far, scanning left
/// to right: the first non-digit is an invalid digit, and a value past
/// `u32::MAX` is an overflow.
pub open spec fn parse_digits(d: Seq<char>, acc: nat) -> Result<u32, ParseIntError>
    decreases d.len(),
{
    if d.len() == 0 {
        Ok(acc as u32)
    } else if !digit(d[0]) {
        Err(ParseIntError::InvalidDigit)
    } else if acc * 10 + digit_value(d[0]) > u32::MAX {
        Err(ParseIntError::PosOverflow)
    } else {
        parse_digits(d.drop_first(), acc * 10 + digit_value(d[0]))
    }
}

/// What `u32::from_str` gives for `s`: decimal digits after an optional `+`.
pub open spec fn parse_u32_spec(s: Seq<char>) -> Result<u32, ParseIntError> {
    if s.len() == 0 {
        Err(ParseIntError::Empty)
    } else if (s[0] == '+' || s[0] == '-') && s.len() == 1 {
        Err(ParseIntError::InvalidDigit)
    } else if s[0] == '+' {
        parse_digits(s.drop_first(), 0)
    } else {
        parse_digits(s, 0)
    }
}

proof fn lemma_decimal_digits(n: nat)
    ensures
        decimal(n).len() > 0,
        forall|k: int| 0 <= k < decimal(n).len() ==> digit(#[trigger] decimal(n)[k]),
    decreases n,
{
    if n >= 10 {
        lemma_decimal_digits(n / 10);
    }
}

proof fn lemma_parse_decimal(m: nat, rest: Seq<char>)
    requires
        m <= u32::MAX,
    ensures
        parse_digits(decimal(m) + rest, 0) == parse_digits(rest, m),
    decreases m,
{
    if m < 10 {
        let c = digit_char(m);
        assert((seq![c] + rest)[0] == c);
        assert((seq![c] + rest).drop_first() == rest);
    } else {
        let d = digit_char(m % 10);
        let tail = seq![d] + rest;
        lemma_parse_decimal(m / 10, tail);
        assert(decimal(m) + rest == decimal(m / 10) + tail);
        assert(tail[0] == d);
        assert(tail.drop_first() == rest);
        assert((m / 10) * 10 + m % 10 == m);
    }
}

/// The decimal digits of a number read back as that number, also with
/// white space around them.
pub proof fn decimal_reads_back(n: u32)
    ensures
        parse_u32_spec(decimal(n as nat)) == Ok::<u32, ParseIntError>(n),
        trimmed(decimal(n as nat)) == decimal(n as nat),
        trimmed(decimal(n as nat).push('\n')) == decimal(n as nat),
{
    let d = decimal(n as nat);
    lemma_decimal_digits(n as nat);
    lemma_parse_decimal(n as nat, Seq::empty());
    assert(d + Seq::<char>::empty() == d);
    assert(digit(d[0]));
    assert(!white_space(d[0]));
    assert(!white_space(d.last()));
    assert(trim_start(d) == d);
    assert(trim_end(d) == d);
    let e = d.push('\n');
    assert(e[0] == d[0]);
    assert(trim_start(e) == e);
    assert(e.drop_last() == d);
    assert(trim_end(e) == trim_end(d));
}

/// Reads `s` as a `u32`, as `u32::from_str` does.
pub fn parse_u32(s: &Vec<char>) -> (r: Result<u32, ParseIntError>)
    ensures
        r == parse_u32_spec(s@),
{
    let n = s.len();
    if n == 0 {
        return Err(ParseIntError::Empty);
    }
    if (s[0] == '+' || s[0] == '-') && n == 1 {
        return Err(ParseIntError::InvalidDigit);
    }
    let mut i: usize = if s[0] == '+' { 1 } else { 0 };
    let ghost digits = s@.subrange(i as int, n as int);
    assert(s[0] == '+' ==> digits == s@.drop_first());
    assert(s[0] != '+' ==> digits == s@);
    let mut acc: u32 = 0;
    while i < n
        invariant
            i <= n == s.len(),
            parse_u32_spec(s@) == parse_digits(digits, 0),
            parse_digits(digits, 0) == parse_digits(s@.subrange(i as int, n as int), acc as nat),
        decreases n - i,
    {
        let c = s[i];
        let ghost rest = s@.subrange(i as int, n as int);
        assert(rest[0] == c);
        assert(rest.drop_first() == s@.subrange(i + 1, n as int));
        if !('0' <= c && c <= '9') {
            return Err(ParseIntError::InvalidDigit);
        }
        let value = (c as u32) - ('0' as u32);
        if acc > 429_496_729 || (acc == 429_496_729 && value > 5) {
            return Err(ParseIntError::PosOverflow);
        }
        acc = acc * 10 + value;
        i = i + 1;
    }
    assert(s@.subrange(n as int, n as int).len() == 0);
    Ok(acc)
}

/// Whether `s` begins with `prefix`.
pub open spec fn has_prefix(s: Seq<char>, prefix: Seq<char>) -> bool {
    prefix.len() <= s.len() && s.subrange(0, prefix.len() as int) == prefix
}

/// Decides [`has_prefix`].
pub fn starts_with(s: &str, prefix: &str) -> (b: bool)
    ensures
        b == has_prefix(s@, prefix@),
{
    let sv = chars_of(s);
    let pv = chars_of(prefix);
    if pv.len() > sv.len() {
        return false;
    }
    let mut i: usize = 0;
    while i < pv.len()
        invariant
            i <= pv.len() <= sv.len(),
            sv@ == s@,
            pv@ == prefix@,
            forall|k: int| 0 <= k < i ==> sv@[k] == pv@[k],
        decreases pv.len() - i,
    {
        if sv[i] != pv[i] {
            assert(s@.subrange(0, prefix@.len() as int)[i as int] != prefix@[i as int]);
            return false;
        }
        i = i + 1;
    }
    assert(s@.subrange(0, prefix@.len() as int) == prefix@);
    true
}

/// Reads a number written alone in a file, surrounding white space allowed.
pub fn parse_attribute(contents: &str) -> (r: Result<u32, ParseIntError>)
    ensures
        r == parse_u32_spec(trimmed(contents@)),
{
    let v = chars_of(contents);
    let t = trim_chars(&v);
    parse_u32(&t)
}

} // verus!
