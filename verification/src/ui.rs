//! Terminal output: coloured spans of text laid out in a boxed panel.
//!
//! Layout is worked out on [`Line`]s, sequences of text spans each with a
//! [`Tone`]. Only when a line is rendered are tones turned into terminal colour
//! codes, by the `colored` crate, which leaves text uncoloured when the
//! terminal or the environment asks for that.

use vstd::prelude::*;

use crate::text::{chars_of, control, is_control, is_white_space, push_char, white_space};

verus! {

/// Columns between a label and its value.
pub const GAP: usize = 2;

/// Columns between the box's border and its contents.
pub const PAD: usize = 3;

/// Cells in a gauge.
pub const GAUGE_CELLS: usize = 20;

/// How a span of text is coloured.
#[derive(Debug, Clone, Copy, PartialEq, Eq, Structural)]
pub enum Tone {
    /// The terminal's default.
    Plain,
    /// Dimmed.
    Dim,
    /// Cyan.
    Accent,
    /// Green.
    Good,
    /// Yellow.
    Warn,
    /// Red.
    Danger,
}

/// The escape character that starts a terminal colour code.
pub open spec fn escape_char() -> char {
    '\u{1b}'
}

/// The SGR parameters `colored` writes for a tone.
pub open spec fn tone_code(tone: Tone) -> Seq<char> {
    match tone {
        Tone::Plain => Seq::empty(),
        Tone::Dim => "2"@,
        Tone::Accent => "36"@,
        Tone::Good => "32"@,
        Tone::Warn => "33"@,
        Tone::Danger => "31"@,
    }
}

/// `text` wrapped in the colour code with SGR parameters `code` and a reset.
pub open spec fn styled(code: Seq<char>, text: Seq<char>) -> Seq<char> {
    seq!['\u{1b}', '['] + code + seq!['m'] + text + seq!['\u{1b}', '[', '0', 'm']
}

/// Whether `painted` is `text` as `colored` may write it with SGR parameters
/// `code`: unchanged when colours are off, wrapped when they are on. (Text
/// holding an escape character could be altered further; no such text is
/// coloured here.)
pub open spec fn painted_as(painted: Seq<char>, code: Seq<char>, text: Seq<char>) -> bool {
    !text.contains(escape_char()) ==> (painted == text || painted == styled(code, text))
}

/// Calls `colored::Colorize::dimmed` on `text` and writes the result out.
/// Claimed: `text` unchanged or wrapped in SGR code `2` and a reset.
#[verifier::external_body]
fn paint_dimmed(text: &str) -> (painted: String)
    ensures
        painted_as(painted@, "2"@, text@),
{
    colored::Colorize::dimmed(text).to_string()
}

/// Calls `colored::Colorize::cyan` on `text` and writes the result out.
/// Claimed: `text` unchanged or wrapped in SGR code `36` and a reset.
#[verifier::external_body]
fn paint_cyan(text: &str) -> (painted: String)
    ensures
        painted_as(painted@, "36"@, text@),
{
    colored::Colorize::cyan(text).to_string()
}

/// Calls `colored::Colorize::green` on `text` and writes the result out.
/// Claimed: `text` unchanged or wrapped in SGR code `32` and a reset.
#[verifier::external_body]
fn paint_green(text: &str) -> (painted: String)
    ensures
        painted_as(painted@, "32"@, text@),
{
    colored::Colorize::green(text).to_string()
}

/// Calls `colored::Colorize::yellow` on `text` and writes the result out.
/// Claimed: `text` unchanged or wrapped in SGR code `33` and a reset.
#[verifier::external_body]
fn paint_yellow(text: &str) -> (painted: String)
    ensures
        painted_as(painted@, "33"@, text@),
{
    colored::Colorize::yellow(text).to_string()
}

/// Calls `colored::Colorize::red` on `text` and writes the result out.
/// Claimed: `text` unchanged or wrapped in SGR code `31` and a reset.
#[verifier::external_body]
fn paint_red(text: &str) -> (painted: String)
    ensures
        painted_as(painted@, "31"@, text@),
{
    colored::Colorize::red(text).to_string()
}

/// Calls `colored::Colorize::red` and then `bold` on `text` and writes the
/// result out. Claimed: `text` unchanged or wrapped in SGR code `1;31` and a
/// reset.
#[verifier::external_body]
fn paint_bold_red(text: &str) -> (painted: String)
    ensures
        painted_as(painted@, "1;31"@, text@),
{
    colored::Colorize::bold(colored::Colorize::red(text)).to_string()
}

/// Calls `colored::Colorize::yellow` and then `bold` on `text` and writes the
/// result out. Claimed: `text` unchanged or wrapped in SGR code `1;33` and a
/// reset.
#[verifier::external_body]
fn paint_bold_yellow(text: &str) -> (painted: String)
    ensures
        painted_as(painted@, "1;33"@, text@),
{
    colored::Colorize::bold(colored::Colorize::yellow(text)).to_string()
}

/// Whether `painted` is `text` as painted in `tone`: plain text is never
/// coloured.
pub open spec fn toned_as(painted: Seq<char>, tone: Tone, text: Seq<char>) -> bool {
    if tone == Tone::Plain {
        painted == text
    } else {
        painted_as(painted, tone_code(tone), text)
    }
}

impl Tone {
    /// `text` coloured in this tone.
    pub fn paint(self, text: &str) -> (painted: String)
        ensures
            toned_as(painted@, self, text@),
    {
        match self {
            Tone::Plain => String::from_str(text),
            Tone::Dim => paint_dimmed(text),
            Tone::Accent => paint_cyan(text),
            Tone::Good => paint_green(text),
            Tone::Warn => paint_yellow(text),
            Tone::Danger => paint_red(text),
        }
    }
}

/// The characters a panel and a gauge are drawn with.
#[derive(Debug, Clone, Copy, PartialEq, Eq, Structural)]
pub struct Glyphs {
    pub top_left: char,
    pub top_right: char,
    pub bottom_left: char,
    pub bottom_right: char,
    pub horizontal: char,
    pub vertical: char,
    pub tee_left: char,
    pub tee_right: char,
    pub gauge_full: char,
    pub gauge_empty: char,
}

/// Box-drawing characters, for UTF-8 terminals.
pub open spec fn unicode_glyph_set() -> Glyphs {
    Glyphs {
        top_left: '\u{256d}',
        top_right: '\u{256e}',
        bottom_left: '\u{2570}',
        bottom_right: '\u{256f}',
        horizontal: '\u{2500}',
        vertical: '\u{2502}',
        tee_left: '\u{251c}',
        tee_right: '\u{2524}',
        gauge_full: '\u{2588}',
        gauge_empty: '\u{2591}',
    }
}

/// Plain ASCII characters, for any other terminal.
pub open spec fn ascii_glyph_set() -> Glyphs {
    Glyphs {
        top_left: '+',
        top_right: '+',
        bottom_left: '+',
        bottom_right: '+',
        horizontal: '-',
        vertical: '|',
        tee_left: '+',
        tee_right: '+',
        gauge_full: '#',
        gauge_empty: '.',
    }
}

/// Box-drawing characters, for UTF-8 terminals.
pub fn unicode_glyphs() -> (g: Glyphs)
    ensures
        g == unicode_glyph_set(),
        glyphs_escape_free(g),
{
    Glyphs {
        top_left: '\u{256d}',
        top_right: '\u{256e}',
        bottom_left: '\u{2570}',
        bottom_right: '\u{256f}',
        horizontal: '\u{2500}',
        vertical: '\u{2502}',
        tee_left: '\u{251c}',
        tee_right: '\u{2524}',
        gauge_full: '\u{2588}',
        gauge_empty: '\u{2591}',
    }
}

/// Plain ASCII characters, for any other terminal.
pub fn ascii_glyphs() -> (g: Glyphs)
    ensures
        g == ascii_glyph_set(),
        glyphs_escape_free(g),
{
    Glyphs {
        top_left: '+',
        top_right: '+',
        bottom_left: '+',
        bottom_right: '+',
        horizontal: '-',
        vertical: '|',
        tee_left: '+',
        tee_right: '+',
        gauge_full: '#',
        gauge_empty: '.',
    }
}

/// `c` in lower case when it is an ASCII letter.
pub open spec fn ascii_lower(c: char) -> char {
    if 'A' <= c <= 'Z' {
        ((c as u32) + 32) as char
    } else {
        c
    }
}

/// Whether `s` holds `needle` somewhere.
pub open spec fn holds(s: Seq<char>, needle: Seq<char>) -> bool {
    exists|i: int| 0 <= i && i + needle.len() <= s.len() && #[trigger] s.subrange(i, i + needle.len()) == needle
}

/// The locale setting that decides the character set: the first of
/// `LC_ALL`, `LC_CTYPE` and `LANG` that is set and not empty.
pub open spec fn locale(lc_all: Option<Seq<char>>, lc_ctype: Option<Seq<char>>, lang: Option<Seq<char>>) -> Option<Seq<char>> {
    if lc_all matches Some(v) && v.len() > 0 {
        lc_all
    } else if lc_ctype matches Some(v) && v.len() > 0 {
        lc_ctype
    } else if lang matches Some(v) && v.len() > 0 {
        lang
    } else {
        None
    }
}

/// Whether a locale setting names UTF-8: it holds `utf`, in any case.
pub open spec fn names_utf8(value: Seq<char>) -> bool {
    holds(value.map_values(|c: char| ascii_lower(c)), "utf"@)
}

fn lower_chars(s: &str) -> (v: Vec<char>)
    ensures
        v@ == s@.map_values(|c: char| ascii_lower(c)),
{
    let cs = chars_of(s);
    let mut v: Vec<char> = Vec::new();
    let mut i: usize = 0;
    while i < cs.len()
        invariant
            i <= cs.len(),
            cs@ == s@,
            v@ == cs@.take(i as int).map_values(|c: char| ascii_lower(c)),
        decreases cs.len() - i,
    {
        let c = cs[i];
        let lower = if 'A' <= c && c <= 'Z' { ((c as u32) + 32) as u8 as char } else { c };
        v.push(lower);
        i = i + 1;
        assert(cs@.take(i as int) == cs@.take(i - 1).push(c));
    }
    assert(cs@.take(cs.len() as int) == cs@);
    v
}

fn mentions_utf(s: &str) -> (b: bool)
    ensures
        b == names_utf8(s@),
{
    let v = lower_chars(s);
    let ghost needle = seq!['u', 't', 'f'];
    proof {
        reveal_strlit("utf");
    }
    assert(needle == "utf"@);
    if v.len() < 3 {
        assert(!holds(v@, needle));
        return false;
    }
    let mut i: usize = 0;
    while i < v.len() - 2
        invariant
            3 <= v.len(),
            i <= v.len() - 2,
            v@ == s@.map_values(|c: char| ascii_lower(c)),
            needle == "utf"@,
            needle == seq!['u', 't', 'f'],
            forall|k: int| 0 <= k < i ==> #[trigger] v@.subrange(k, k + 3) != needle,
        decreases v.len() - i,
    {
        let ghost window = v@.subrange(i as int, i + 3);
        if v[i] == 'u' && v[i + 1] == 't' && v[i + 2] == 'f' {
            assert(window =~= needle);
            return true;
        }
        assert(window != needle) by {
            if window == needle {
                assert(window[0] == needle[0]);
                assert(window[1] == needle[1]);
                assert(window[2] == needle[2]);
            }
        }
        i = i + 1;
    }
    assert forall|k: int| 0 <= k && k + needle.len() <= v@.len() implies #[trigger] v@.subrange(k, k + needle.len())
        != needle by {
        assert(v@.subrange(k, k + 3) != needle);
    }
    false
}

/// The characters to draw with, given the locale variables (`None` when unset
/// or not valid Unicode): box-drawing characters when the locale names UTF-8,
/// ASCII otherwise.
pub fn glyphs(lc_all: Option<String>, lc_ctype: Option<String>, lang: Option<String>) -> (g: Glyphs)
    ensures
        ({
            let view = |o: Option<String>| match o {
                Some(s) => Some(s@),
                None => None::<Seq<char>>,
            };
            if locale(view(lc_all), view(lc_ctype), view(lang)) matches Some(v) && names_utf8(v) {
                g == unicode_glyph_set()
            } else {
                g == ascii_glyph_set()
            }
        }),
        glyphs_escape_free(g),
{
    let chosen = match &lc_all {
        Some(v) if v.unicode_len() > 0 => Some(v),
        _ => match &lc_ctype {
            Some(v) if v.unicode_len() > 0 => Some(v),
            _ => match &lang {
                Some(v) if v.unicode_len() > 0 => Some(v),
                _ => None,
            },
        },
    };
    let utf8 = match chosen {
        Some(v) => mentions_utf(v.as_str()),
        None => false,
    };
    if utf8 {
        unicode_glyphs()
    } else {
        ascii_glyphs()
    }
}

/// Walks `s` left to right, collecting its words separated by single spaces;
/// the flag marks white space seen since the last word character.
pub open spec fn squeeze(s: Seq<char>) -> (Seq<char>, bool)
    decreases s.len(),
{
    if s.len() == 0 {
        (Seq::empty(), false)
    } else {
        let (out, gap) = squeeze(s.drop_last());
        let c = s.last();
        if white_space(c) {
            (out, true)
        } else {
            ((if out.len() > 0 && gap { out.push(' ') } else { out }).push(c), false)
        }
    }
}

/// `text` made safe for one terminal line: control characters become spaces,
/// and the words are joined by single spaces, with no white space around them.
pub open spec fn sanitized(text: Seq<char>) -> Seq<char> {
    squeeze(text.map_values(|c: char| if control(c) { ' ' } else { c })).0
}

/// Makes `text` safe to print on one line: see [`sanitized`].
pub fn sanitize(text: &str) -> (out: String)
    ensures
        out@ == sanitized(text@),
        single_spaced(out@),
{
    proof {
        sanitized_is_single_spaced(text@);
    }
    let cs = chars_of(text);
    let ghost mapped = text@.map_values(|c: char| if control(c) { ' ' } else { c });
    let mut out = String::new();
    let mut gap = false;
    let mut i: usize = 0;
    while i < cs.len()
        invariant
            i <= cs.len(),
            cs@ == text@,
            mapped == text@.map_values(|c: char| if control(c) { ' ' } else { c }),
            squeeze(mapped.take(i as int)) == (out@, gap),
        decreases cs.len() - i,
    {
        let c = if is_control(cs[i]) { ' ' } else { cs[i] };
        assert(mapped.take(i + 1).drop_last() == mapped.take(i as int));
        assert(mapped.take(i + 1).last() == c);
        if is_white_space(c) {
            gap = true;
        } else {
            if out.unicode_len() > 0 && gap {
                push_char(&mut out, ' ');
            }
            push_char(&mut out, c);
            gap = false;
        }
        i = i + 1;
    }
    assert(mapped.take(cs.len() as int) == mapped);
    out
}

/// Whether `t` is text as [`sanitize`] leaves it: no control characters, no
/// white space but single spaces, and no space at either end.
pub open spec fn single_spaced(t: Seq<char>) -> bool {
    &&& forall|k: int| 0 <= k < t.len() ==> !control(#[trigger] t[k]) && (white_space(t[k]) ==> t[k] == ' ')
    &&& t.len() > 0 ==> t[0] != ' ' && t.last() != ' '
    &&& forall|k: int| 0 <= k < t.len() - 1 ==> !(#[trigger] t[k] == ' ' && t[k + 1] == ' ')
}

proof fn lemma_squeeze_shape(s: Seq<char>)
    requires
        forall|k: int| 0 <= k < s.len() ==> !control(#[trigger] s[k]),
    ensures
        single_spaced(squeeze(s).0),
    decreases s.len(),
{
    if s.len() > 0 {
        let rest = s.drop_last();
        assert forall|k: int| 0 <= k < rest.len() implies !control(#[trigger] rest[k]) by {
            assert(rest[k] == s[k]);
        }
        lemma_squeeze_shape(rest);
        let (out0, gap0) = squeeze(rest);
        let c = s.last();
        assert(!control(c));
        if !white_space(c) {
            let mid = if out0.len() > 0 && gap0 { out0.push(' ') } else { out0 };
            let out = mid.push(c);
            assert(out == squeeze(s).0);
            assert forall|k: int| 0 <= k < out.len() implies !control(#[trigger] out[k]) && (white_space(out[k])
                ==> out[k] == ' ') by {
                if k < out0.len() {
                    assert(out[k] == out0[k]);
                } else if k == out.len() - 1 {
                    assert(out[k] == c);
                } else {
                    assert(out[k] == ' ');
                }
            }
            if out0.len() > 0 {
                assert(out[0] == out0[0]);
            } else {
                assert(out[0] == c);
            }
            assert forall|k: int| 0 <= k < out.len() - 1 implies !(#[trigger] out[k] == ' ' && out[k + 1] == ' ') by {
                if k + 1 < out0.len() {
                    assert(out[k] == out0[k]);
                    assert(out[k + 1] == out0[k + 1]);
                } else if k + 1 == out0.len() {
                    assert(out[k] == out0.last());
                } else {
                    assert(out[k + 1] == c);
                }
            }
        }
    }
}

proof fn lemma_squeeze_keeps(t: Seq<char>, k: int)
    requires
        single_spaced(t),
        0 <= k <= t.len(),
    ensures
        squeeze(t.take(k)) == (if k > 0 && t[k - 1] == ' ' { (t.take(k - 1), true) } else { (t.take(k), false) }),
    decreases k,
{
    if k > 0 {
        lemma_squeeze_keeps(t, k - 1);
        let p = t.take(k);
        assert(p.drop_last() == t.take(k - 1));
        assert(p.last() == t[k - 1]);
        let c = t[k - 1];
        if c == ' ' {
            if k >= 2 {
                assert(!(t[k - 2] == ' ' && t[k - 1] == ' '));
            }
        } else {
            assert(!white_space(c));
            if k >= 2 && t[k - 2] == ' ' {
                assert(t.take(k - 2).len() > 0) by {
                    assert(t[0] != ' ');
                }
                assert(t.take(k - 2).push(' ').push(c) == p);
            } else {
                assert(t.take(k - 1).push(c) == p);
            }
        }
    }
}

/// What [`sanitize`] gives is single-spaced, free of control characters and
/// of space at either end; sanitizing it again changes nothing.
pub proof fn sanitized_is_single_spaced(text: Seq<char>)
    ensures
        single_spaced(sanitized(text)),
        sanitized(sanitized(text)) == sanitized(text),
{
    let mapped = text.map_values(|c: char| if control(c) { ' ' } else { c });
    assert forall|k: int| 0 <= k < mapped.len() implies !control(#[trigger] mapped[k]) by {}
    lemma_squeeze_shape(mapped);
    single_spaced_is_kept(sanitized(text));
}

/// Text that is already single-spaced, free of control characters and of
/// space at either end comes out of [`sanitize`] unchanged.
pub proof fn single_spaced_is_kept(t: Seq<char>)
    requires
        single_spaced(t),
    ensures
        sanitized(t) == t,
{
    let mapped = t.map_values(|c: char| if control(c) { ' ' } else { c });
    assert(mapped == t);
    lemma_squeeze_keeps(t, t.len() as int);
    assert(t.take(t.len() as int) == t);
}

/// A run of text in one tone.
#[derive(Debug, Clone)]
pub struct Span {
    text: String,
    tone: Tone,
}

/// A line of text, as spans of differently coloured text.
#[derive(Debug, Clone)]
pub struct Line {
    spans: Vec<Span>,
}

/// A line as its spans: each span's text and tone.
pub type LineView = Seq<(Seq<char>, Tone)>;

/// The number of characters in the spans of `v`.
pub open spec fn line_width(v: LineView) -> nat
    decreases v.len(),
{
    if v.len() == 0 {
        0
    } else {
        line_width(v.drop_last()) + v.last().0.len()
    }
}

/// The width of two lines put together is the sum of their widths.
pub proof fn line_width_concat(a: LineView, b: LineView)
    ensures
        line_width(a + b) == line_width(a) + line_width(b),
    decreases b.len(),
{
    if b.len() > 0 {
        line_width_concat(a, b.drop_last());
        assert((a + b).drop_last() == a + b.drop_last());
    } else {
        assert(a + b == a);
    }
}

/// `text` as painted in `tone`, with colours on or off.
pub open spec fn painted_text(text: Seq<char>, tone: Tone, colored: bool) -> Seq<char> {
    if colored && tone != Tone::Plain {
        styled(tone_code(tone), text)
    } else {
        text
    }
}

/// The line `v` written out, with colours on or off span by span as `colors`
/// says.
pub open spec fn rendered(v: LineView, colors: Seq<bool>) -> Seq<char>
    decreases v.len(),
{
    if v.len() == 0 {
        Seq::empty()
    } else {
        rendered(v.drop_last(), colors.take(v.len() - 1)) + painted_text(v.last().0, v.last().1, colors[v.len() - 1])
    }
}

/// Whether no span of `v` holds an escape character.
pub open spec fn free_of_escapes(v: LineView) -> bool {
    forall|i: int| 0 <= i < v.len() ==> !(#[trigger] v[i]).0.contains(escape_char())
}

/// Whether no span of `v` that is to be coloured holds an escape character:
/// plain spans are written as they are, whatever they hold.
pub open spec fn coloured_spans_escape_free(v: LineView) -> bool {
    forall|i: int| 0 <= i < v.len() && (#[trigger] v[i]).1 != Tone::Plain ==> !v[i].0.contains(escape_char())
}

/// Whether `out` is the line `v` written out, each span coloured or not.
pub open spec fn renders_line(out: Seq<char>, v: LineView) -> bool {
    exists|colors: Seq<bool>| colors.len() == v.len() && out == #[trigger] rendered(v, colors)
}

/// The texts of the spans of `v`, one after the other.
pub open spec fn span_texts(v: LineView) -> Seq<char>
    decreases v.len(),
{
    if v.len() == 0 {
        Seq::empty()
    } else {
        span_texts(v.drop_last()) + v.last().0
    }
}

/// Whether every span of `v` is plain.
pub open spec fn all_plain(v: LineView) -> bool {
    forall|i: int| 0 <= i < v.len() ==> (#[trigger] v[i]).1 == Tone::Plain
}

/// Writing out two lines put together gives the two written out one after the
/// other, span by span as each was coloured.
pub proof fn rendered_concat(a: LineView, b: LineView, ca: Seq<bool>, cb: Seq<bool>)
    requires
        ca.len() == a.len(),
        cb.len() == b.len(),
    ensures
        rendered(a + b, ca + cb) == rendered(a, ca) + rendered(b, cb),
    decreases b.len(),
{
    if b.len() == 0 {
        assert(a + b == a);
        assert(ca + cb == ca);
        assert(rendered(b, cb) == Seq::<char>::empty());
    } else {
        rendered_concat(a, b.drop_last(), ca, cb.take(b.len() - 1));
        assert((a + b).drop_last() == a + b.drop_last());
        assert((ca + cb).take((a + b).len() - 1) == ca + cb.take(b.len() - 1));
        assert((a + b).last() == b.last());
        assert((ca + cb)[(a + b).len() - 1] == cb[b.len() - 1]);
    }
}

/// Two joined lines can be written out as the two lines written out one after
/// the other; an empty line is written as nothing.
pub proof fn joined_lines_render_joined(a: LineView, b: LineView, x: Seq<char>, y: Seq<char>)
    requires
        renders_line(x, a),
        renders_line(y, b),
    ensures
        renders_line(x + y, a + b),
        renders_line(Seq::empty(), Seq::<(Seq<char>, Tone)>::empty()),
{
    let ca = choose|c: Seq<bool>| c.len() == a.len() && x == #[trigger] rendered(a, c);
    let cb = choose|c: Seq<bool>| c.len() == b.len() && y == #[trigger] rendered(b, c);
    rendered_concat(a, b, ca, cb);
    assert(rendered(Seq::<(Seq<char>, Tone)>::empty(), Seq::<bool>::empty()) == Seq::<char>::empty());
}

/// A line of plain spans is written out as its texts, whatever the colours.
pub proof fn plain_line_renders_verbatim(v: LineView, colors: Seq<bool>)
    requires
        all_plain(v),
        colors.len() == v.len(),
    ensures
        rendered(v, colors) == span_texts(v),
    decreases v.len(),
{
    if v.len() > 0 {
        let rest = v.drop_last();
        assert forall|i: int| 0 <= i < rest.len() implies (#[trigger] rest[i]).1 == Tone::Plain by {
            assert(rest[i] == v[i]);
        }
        plain_line_renders_verbatim(rest, colors.take(v.len() - 1));
        assert(v.last() == v[v.len() - 1]);
    }
}

/// `s` with its last character saturated at `usize::MAX`.
pub open spec fn saturated(n: nat) -> usize {
    if n > usize::MAX {
        usize::MAX
    } else {
        n as usize
    }
}

impl View for Line {
    type V = LineView;

    closed spec fn view(&self) -> LineView {
        self.spans@.map_values(|s: Span| (s.text@, s.tone))
    }
}

impl Line {
    /// An empty line.
    pub fn new() -> (l: Line)
        ensures
            l@ == Seq::<(Seq<char>, Tone)>::empty(),
    {
        let l = Line { spans: Vec::new() };
        assert(l@ =~= Seq::<(Seq<char>, Tone)>::empty());
        l
    }

    /// The line with `text` in `tone` added at its end.
    pub fn push(self, text: String, tone: Tone) -> (l: Line)
        ensures
            l@ == self@.push((text@, tone)),
    {
        let mut l = self;
        let ghost before = l@;
        l.spans.push(Span { text, tone });
        assert(l@ =~= before.push((text@, tone)));
        l
    }

    /// The line with plain `text` added at its end.
    pub fn plain(self, text: String) -> (l: Line)
        ensures
            l@ == self@.push((text@, Tone::Plain)),
    {
        self.push(text, Tone::Plain)
    }

    /// The line with the spans of `other` added at its end.
    pub fn concat(self, other: Line) -> (l: Line)
        ensures
            l@ == self@ + other@,
    {
        let mut l = self;
        let mut i: usize = 0;
        let ghost before = l@;
        while i < other.spans.len()
            invariant
                i <= other.spans.len(),
                l@ == before + other@.take(i as int),
            decreases other.spans.len() - i,
        {
            let span = Span { text: other.spans[i].text.clone(), tone: other.spans[i].tone };
            let ghost prev = l@;
            assert(other@[i as int] == (span.text@, span.tone));
            l.spans.push(span);
            assert(l@ =~= prev.push((span.text@, span.tone)));
            assert(other@.take(i + 1) =~= other@.take(i as int).push(other@[i as int]));
            i = i + 1;
        }
        assert(other@.take(other.spans.len() as int) == other@);
        l
    }

    /// The number of characters on the line (saturated at `usize::MAX`).
    pub fn width(&self) -> (w: usize)
        ensures
            w == saturated(line_width(self@)),
    {
        let mut total: usize = 0;
        let mut i: usize = 0;
        while i < self.spans.len()
            invariant
                i <= self.spans.len(),
                total == saturated(line_width(self@.take(i as int))),
            decreases self.spans.len() - i,
        {
            let n = self.spans[i].text.unicode_len();
            assert(self@.take(i + 1).drop_last() == self@.take(i as int));
            total = total.saturating_add(n);
            i = i + 1;
        }
        assert(self@.take(self.spans.len() as int) == self@);
        total
    }

    /// The line written out, each span in its tone.
    pub fn render(&self) -> (out: String)
        ensures
            coloured_spans_escape_free(self@) ==> renders_line(out@, self@),
            all_plain(self@) ==> out@ == span_texts(self@),
    {
        let mut out = String::new();
        let mut i: usize = 0;
        let ghost mut colors: Seq<bool> = Seq::empty();
        while i < self.spans.len()
            invariant
                i <= self.spans.len(),
                colors.len() == i,
                coloured_spans_escape_free(self@) ==> out@ == rendered(self@.take(i as int), colors),
            decreases self.spans.len() - i,
        {
            let span = &self.spans[i];
            let painted = span.tone.paint(span.text.as_str());
            let ghost colored = painted@ != span.text@;
            proof {
                if coloured_spans_escape_free(self@) {
                    assert(self@[i as int].1 != Tone::Plain ==> !self@[i as int].0.contains(escape_char()));
                    let t = self@.take(i + 1);
                    assert(t.drop_last() == self@.take(i as int));
                    assert(colors.push(colored).take(i as int) == colors);
                    if colored && span.tone != Tone::Plain {
                        assert(painted@ == styled(tone_code(span.tone), span.text@));
                    }
                }
                colors = colors.push(colored);
            }
            out.append(painted.as_str());
            i = i + 1;
        }
        assert(self@.take(self.spans.len() as int) == self@);
        proof {
            if all_plain(self@) {
                plain_line_renders_verbatim(self@, colors);
            }
        }
        out
    }
}

/// A label and its value.
pub struct Row {
    label: String,
    value: Line,
}

/// A row as its label and the spans of its value.
pub type RowView = (Seq<char>, LineView);

impl View for Row {
    type V = RowView;

    closed spec fn view(&self) -> RowView {
        (self.label@, self.value@)
    }
}

/// The row showing `value` under `label`.
pub fn field(label: String, value: Line) -> (row: Row)
    ensures
        row@ == (label@, value@),
{
    Row { label, value }
}

/// `n` spaces.
pub open spec fn spaces(n: nat) -> Seq<char> {
    Seq::new(n, |i: int| ' ')
}

/// `c` repeated `n` times.
pub open spec fn repeated(c: char, n: nat) -> Seq<char> {
    Seq::new(n, |i: int| c)
}

/// `c` repeated `n` times.
pub fn repeat_char(c: char, n: usize) -> (s: String)
    ensures
        s@ == repeated(c, n as nat),
{
    let mut s = String::new();
    let mut i: usize = 0;
    while i < n
        invariant
            i <= n,
            s@ == repeated(c, i as nat),
        decreases n - i,
    {
        push_char(&mut s, c);
        i = i + 1;
        assert(s@ =~= repeated(c, i as nat));
    }
    s
}

/// `c` as a one-character string.
pub fn char_string(c: char) -> (s: String)
    ensures
        s@ == seq![c],
{
    let mut s = String::new();
    push_char(&mut s, c);
    s
}

/// A row's line: the label padded to `label_width`, the gap, then the value.
pub open spec fn body_view(row: RowView, label_width: nat) -> LineView {
    seq![(row.0 + spaces((label_width - row.0.len()) as nat), Tone::Plain), (spaces(GAP as nat), Tone::Plain)] + row.1
}

/// A horizontal rule between corner or tee characters `left` and `right`.
pub open spec fn rule_view(left: char, right: char, inner: nat, g: Glyphs) -> LineView {
    seq![(seq![left], Tone::Dim), (repeated(g.horizontal, inner), Tone::Dim), (seq![right], Tone::Dim)]
}

/// An empty line of the box.
pub open spec fn blank_view(inner: nat, g: Glyphs) -> LineView {
    seq![(seq![g.vertical], Tone::Dim), (spaces(inner), Tone::Plain), (seq![g.vertical], Tone::Dim)]
}

/// The top of the box, with the title set into it.
pub open spec fn heading_view(title: Seq<char>, inner: nat, g: Glyphs) -> LineView {
    seq![
        (seq![g.top_left], Tone::Dim),
        (seq![g.horizontal], Tone::Dim),
        (seq![' '] + title + seq![' '], Tone::Accent),
        (repeated(g.horizontal, (inner - (title.len() + 3)) as nat), Tone::Dim),
        (seq![g.top_right], Tone::Dim),
    ]
}

/// A row inside the box: border, padding, the row's line, the padding that
/// fills the box, border.
pub open spec fn boxed_row_view(row: RowView, label_width: nat, inner: nat, g: Glyphs) -> LineView {
    let body = body_view(row, label_width);
    seq![(seq![g.vertical], Tone::Dim), (spaces(PAD as nat), Tone::Plain)] + body + seq![
        (spaces((inner - PAD - line_width(body)) as nat), Tone::Plain),
        (seq![g.vertical], Tone::Dim),
    ]
}

/// A section's rows with its labels padded to `label_width`.
pub type SectionView = (Seq<RowView>, nat);

/// A panel as its title and sections.
pub type PanelView = (Seq<char>, Seq<SectionView>);

/// The lines of a section inside the box: a rule when it is not the first
/// section, a blank line, its rows, a blank line.
pub open spec fn boxed_section_view(section: SectionView, first: bool, inner: nat, g: Glyphs) -> Seq<LineView> {
    (if first { Seq::empty() } else { seq![rule_view(g.tee_left, g.tee_right, inner, g)] }) + seq![blank_view(inner, g)]
        + section.0.map_values(|r: RowView| boxed_row_view(r, section.1, inner, g)) + seq![blank_view(inner, g)]
}

/// The lines of `sections` inside the box.
pub open spec fn boxed_sections_view(sections: Seq<SectionView>, inner: nat, g: Glyphs) -> Seq<LineView>
    decreases sections.len(),
{
    if sections.len() == 0 {
        Seq::empty()
    } else {
        boxed_sections_view(sections.drop_last(), inner, g) + boxed_section_view(
            sections.last(),
            sections.len() == 1,
            inner,
            g,
        )
    }
}

/// The boxed panel, `content` columns wide inside its padding.
pub open spec fn boxed_view(p: PanelView, content: nat, g: Glyphs) -> Seq<LineView> {
    let inner = (content + 2 * PAD) as nat;
    seq![heading_view(p.0, inner, g)] + boxed_sections_view(p.1, inner, g) + seq![
        rule_view(g.bottom_left, g.bottom_right, inner, g),
    ]
}

/// The panel without its box: each section's rows, sections apart by an empty
/// line.
pub open spec fn bare_view(sections: Seq<SectionView>) -> Seq<LineView>
    decreases sections.len(),
{
    if sections.len() == 0 {
        Seq::empty()
    } else {
        bare_view(sections.drop_last()) + (if sections.len() == 1 {
            Seq::empty()
        } else {
            seq![Seq::<(Seq<char>, Tone)>::empty()]
        }) + sections.last().0.map_values(|r: RowView| body_view(r, sections.last().1))
    }
}

/// The widest row line among `rows`.
pub open spec fn rows_width(rows: Seq<RowView>, label_width: nat) -> nat
    decreases rows.len(),
{
    if rows.len() == 0 {
        0
    } else {
        let w = (label_width + GAP + line_width(rows.last().1)) as nat;
        let rest = rows_width(rows.drop_last(), label_width);
        if w > rest {
            w
        } else {
            rest
        }
    }
}

/// The widest row line among all sections.
pub open spec fn natural_width(sections: Seq<SectionView>) -> nat
    decreases sections.len(),
{
    if sections.len() == 0 {
        0
    } else {
        let w = rows_width(sections.last().0, sections.last().1);
        let rest = natural_width(sections.drop_last());
        if w > rest {
            w
        } else {
            rest
        }
    }
}

/// The widest label among `rows`.
pub open spec fn max_label(rows: Seq<RowView>) -> nat
    decreases rows.len(),
{
    if rows.len() == 0 {
        0
    } else if rows.last().0.len() > max_label(rows.drop_last()) {
        rows.last().0.len()
    } else {
        max_label(rows.drop_last())
    }
}

/// The columns the panel's contents need: its widest row, or its title with
/// room for the corner.
pub open spec fn content_width(p: PanelView) -> nat {
    if natural_width(p.1) > p.0.len() + 3 {
        natural_width(p.1)
    } else {
        p.0.len() + 3
    }
}

/// The panel laid out for a terminal `width` columns wide: nothing without
/// sections; boxed when the box fits, bare otherwise.
pub open spec fn layout_view(p: PanelView, width: nat, g: Glyphs) -> Seq<LineView> {
    if p.1.len() == 0 {
        Seq::empty()
    } else if content_width(p) + 2 * PAD + 2 > width {
        bare_view(p.1)
    } else {
        boxed_view(p, content_width(p), g)
    }
}

/// The lines `v` written out, each followed by a newline, with colours on or
/// off span by span as `colors` says.
pub open spec fn rendered_lines(v: Seq<LineView>, colors: Seq<Seq<bool>>) -> Seq<char>
    decreases v.len(),
{
    if v.len() == 0 {
        Seq::empty()
    } else {
        rendered_lines(v.drop_last(), colors.take(v.len() - 1)) + rendered(v.last(), colors[v.len() - 1]) + seq!['\n']
    }
}

/// Whether `out` is the lines `v` written out, each span coloured or not.
pub open spec fn renders_lines(out: Seq<char>, v: Seq<LineView>) -> bool {
    exists|colors: Seq<Seq<bool>>|
        colors.len() == v.len() && (forall|i: int| 0 <= i < v.len() ==> (#[trigger] colors[i]).len() == v[i].len())
            && out == #[trigger] rendered_lines(v, colors)
}

/// Writes out `lines`, each followed by a newline.
pub fn render_lines(lines: &Vec<Line>) -> (out: String)
    ensures
        (forall|i: int| 0 <= i < lines.len() ==> coloured_spans_escape_free(#[trigger] lines@[i]@)) ==> renders_lines(
            out@,
            lines@.map_values(|l: Line| l@),
        ),
{
    let ghost views = lines@.map_values(|l: Line| l@);
    let ghost all_free = forall|i: int| 0 <= i < lines.len() ==> coloured_spans_escape_free(#[trigger] lines@[i]@);
    let mut out = String::new();
    let ghost mut colors: Seq<Seq<bool>> = Seq::empty();
    let mut i: usize = 0;
    while i < lines.len()
        invariant
            i <= lines.len(),
            views == lines@.map_values(|l: Line| l@),
            all_free == (forall|i: int| 0 <= i < lines.len() ==> coloured_spans_escape_free(#[trigger] lines@[i]@)),
            colors.len() == i,
            forall|k: int| 0 <= k < i ==> (#[trigger] colors[k]).len() == views[k].len(),
            all_free ==> out@ == rendered_lines(views.take(i as int), colors),
        decreases lines.len() - i,
    {
        let line = lines[i].render();
        let ghost line_colors: Seq<bool> = if all_free {
            choose|c: Seq<bool>| c.len() == views[i as int].len() && line@ == #[trigger] rendered(views[i as int], c)
        } else {
            Seq::new(views[i as int].len(), |k: int| false)
        };
        proof {
            if all_free {
                assert(coloured_spans_escape_free(lines@[i as int]@));
                assert(views.take(i + 1).drop_last() == views.take(i as int));
                assert(colors.push(line_colors).take(i as int) == colors);
            }
            colors = colors.push(line_colors);
        }
        out.append(line.as_str());
        push_char(&mut out, '\n');
        i = i + 1;
    }
    assert(views.take(lines.len() as int) == views);
    out
}

struct Section {
    rows: Vec<Row>,
    label_width: usize,
}

/// A titled panel of sections of rows.
pub struct Panel {
    title: String,
    sections: Vec<Section>,
}

/// A section as its rows and label width.
pub open spec fn section_view_of(rows: Seq<Row>, label_width: usize) -> SectionView {
    (rows.map_values(|r: Row| r@), label_width as nat)
}

impl View for Panel {
    type V = PanelView;

    closed spec fn view(&self) -> PanelView {
        (self.title@, self.sections@.map_values(|s: Section| section_view_of(s.rows@, s.label_width)))
    }
}

/// Whether every section has rows and pads its labels to its widest label.
pub open spec fn well_formed_sections(sections: Seq<SectionView>) -> bool {
    forall|i: int| 0 <= i < sections.len() ==> (#[trigger] sections[i]).0.len() > 0 && sections[i].1 == max_label(sections[i].0)
}

proof fn lemma_max_label_bounds(rows: Seq<RowView>)
    ensures
        forall|i: int| 0 <= i < rows.len() ==> (#[trigger] rows[i]).0.len() <= max_label(rows),
    decreases rows.len(),
{
    if rows.len() > 0 {
        lemma_max_label_bounds(rows.drop_last());
        assert forall|i: int| 0 <= i < rows.len() implies (#[trigger] rows[i]).0.len() <= max_label(rows) by {
            if i < rows.len() - 1 {
                assert(rows.drop_last()[i] == rows[i]);
            }
        }
    }
}

proof fn lemma_rows_width_bounds(rows: Seq<RowView>, label_width: nat)
    ensures
        forall|i: int| 0 <= i < rows.len() ==> label_width + GAP + line_width((#[trigger] rows[i]).1) <= rows_width(
            rows,
            label_width,
        ),
    decreases rows.len(),
{
    if rows.len() > 0 {
        lemma_rows_width_bounds(rows.drop_last(), label_width);
        assert forall|i: int| 0 <= i < rows.len() implies label_width + GAP + line_width((#[trigger] rows[i]).1)
            <= rows_width(rows, label_width) by {
            if i < rows.len() - 1 {
                assert(rows.drop_last()[i] == rows[i]);
            }
        }
    }
}

proof fn lemma_natural_width_bounds(sections: Seq<SectionView>)
    ensures
        forall|i: int| 0 <= i < sections.len() ==> rows_width((#[trigger] sections[i]).0, sections[i].1) <= natural_width(
            sections,
        ),
    decreases sections.len(),
{
    if sections.len() > 0 {
        lemma_natural_width_bounds(sections.drop_last());
        assert forall|i: int| 0 <= i < sections.len() implies rows_width((#[trigger] sections[i]).0, sections[i].1)
            <= natural_width(sections) by {
            if i < sections.len() - 1 {
                assert(sections.drop_last()[i] == sections[i]);
            }
        }
    }
}

fn label_width_of(rows: &Vec<Row>) -> (w: usize)
    ensures
        w == max_label(rows@.map_values(|r: Row| r@)),
{
    let ghost views = rows@.map_values(|r: Row| r@);
    let mut w: usize = 0;
    let mut i: usize = 0;
    while i < rows.len()
        invariant
            i <= rows.len(),
            views == rows@.map_values(|r: Row| r@),
            w == max_label(views.take(i as int)),
        decreases rows.len() - i,
    {
        let n = rows[i].label.unicode_len();
        assert(views.take(i + 1).drop_last() == views.take(i as int));
        assert(views[i as int].0 == rows@[i as int].label@);
        if n > w {
            w = n;
        }
        i = i + 1;
    }
    assert(views.take(rows.len() as int) == views);
    w
}

fn rows_width_of(rows: &Vec<Row>, label_width: usize) -> (w: usize)
    ensures
        w == saturated(rows_width(rows@.map_values(|r: Row| r@), label_width as nat)),
{
    let ghost views = rows@.map_values(|r: Row| r@);
    let mut w: usize = 0;
    let mut i: usize = 0;
    while i < rows.len()
        invariant
            i <= rows.len(),
            views == rows@.map_values(|r: Row| r@),
            w == saturated(rows_width(views.take(i as int), label_width as nat)),
        decreases rows.len() - i,
    {
        let n = label_width.saturating_add(GAP).saturating_add(rows[i].value.width());
        assert(views.take(i + 1).drop_last() == views.take(i as int));
        assert(views[i as int].1 == rows@[i as int].value@);
        if n > w {
            w = n;
        }
        i = i + 1;
    }
    assert(views.take(rows.len() as int) == views);
    w
}

/// A row's line: the label padded to `label_width`, the gap, then the value.
fn body(row: &Row, label_width: usize) -> (l: Line)
    requires
        row.label@.len() <= label_width,
    ensures
        l@ == body_view(row@, label_width as nat),
{
    let padding = repeat_char(' ', label_width - row.label.unicode_len());
    let mut label = row.label.clone();
    label.append(padding.as_str());
    let l = Line::new().plain(label).plain(repeat_char(' ', GAP));
    let value = Line { spans: Vec::new() }.concat(row.value.clone_line());
    let l = l.concat(value);
    assert(l@ =~= body_view(row@, label_width as nat));
    l
}

impl Line {
    /// A copy of the line.
    pub fn clone_line(&self) -> (l: Line)
        ensures
            l@ == self@,
    {
        Line::new().concat_ref(self)
    }

    fn concat_ref(self, other: &Line) -> (l: Line)
        ensures
            l@ == self@ + other@,
    {
        let mut l = self;
        let mut i: usize = 0;
        let ghost before = l@;
        while i < other.spans.len()
            invariant
                i <= other.spans.len(),
                l@ == before + other@.take(i as int),
            decreases other.spans.len() - i,
        {
            let span = Span { text: other.spans[i].text.clone(), tone: other.spans[i].tone };
            let ghost prev = l@;
            assert(other@[i as int] == (span.text@, span.tone));
            l.spans.push(span);
            assert(l@ =~= prev.push((span.text@, span.tone)));
            assert(other@.take(i + 1) =~= other@.take(i as int).push(other@[i as int]));
            i = i + 1;
        }
        assert(other@.take(other.spans.len() as int) == other@);
        l
    }
}

/// A horizontal rule between `left` and `right`.
fn rule(left: char, right: char, inner: usize, g: &Glyphs) -> (l: Line)
    ensures
        l@ == rule_view(left, right, inner as nat, *g),
{
    let l = Line::new().push(char_string(left), Tone::Dim).push(repeat_char(g.horizontal, inner), Tone::Dim).push(
        char_string(right),
        Tone::Dim,
    );
    assert(l@ =~= rule_view(left, right, inner as nat, *g));
    l
}

/// An empty line of the box.
fn blank(inner: usize, g: &Glyphs) -> (l: Line)
    ensures
        l@ == blank_view(inner as nat, *g),
{
    let l = Line::new().push(char_string(g.vertical), Tone::Dim).plain(repeat_char(' ', inner)).push(
        char_string(g.vertical),
        Tone::Dim,
    );
    assert(l@ =~= blank_view(inner as nat, *g));
    l
}

impl Panel {
    /// Whether every section has rows and pads its labels to its widest label.
    pub open spec fn wf(&self) -> bool {
        well_formed_sections(self@.1)
    }

    /// An empty panel under `title`.
    pub fn new(title: String) -> (p: Panel)
        ensures
            p@ == (title@, Seq::<SectionView>::empty()),
            p.wf(),
    {
        let p = Panel { title, sections: Vec::new() };
        assert(p@.1 =~= Seq::<SectionView>::empty());
        p
    }

    /// The panel with a section of `rows` added at its end; no rows, no
    /// section.
    pub fn section(self, rows: Vec<Row>) -> (p: Panel)
        requires
            self.wf(),
        ensures
            p.wf(),
            rows.len() == 0 ==> p@ == self@,
            rows.len() > 0 ==> p@ == (self@.0, self@.1.push(
                (rows@.map_values(|r: Row| r@), max_label(rows@.map_values(|r: Row| r@))),
            )),
    {
        if rows.len() == 0 {
            return self;
        }
        let label_width = label_width_of(&rows);
        let mut p = self;
        let ghost before = p@;
        p.sections.push(Section { rows, label_width });
        assert(p@.1 =~= before.1.push(section_view_of(rows@, label_width)));
        p
    }

    /// The columns of the widest row line (saturated at `usize::MAX`).
    fn natural_width(&self) -> (w: usize)
        ensures
            w == saturated(natural_width(self@.1)),
    {
        let ghost views = self@.1;
        let mut w: usize = 0;
        let mut i: usize = 0;
        while i < self.sections.len()
            invariant
                i <= self.sections.len(),
                views == self@.1,
                w == saturated(natural_width(views.take(i as int))),
            decreases self.sections.len() - i,
        {
            let section = &self.sections[i];
            let n = rows_width_of(&section.rows, section.label_width);
            assert(views.take(i + 1).drop_last() == views.take(i as int));
            assert(views[i as int] == section_view_of(section.rows@, section.label_width));
            if n > w {
                w = n;
            }
            i = i + 1;
        }
        assert(views.take(self.sections.len() as int) == views);
        w
    }

    /// The top of the box, with the title set into it.
    fn heading(&self, inner: usize, g: &Glyphs) -> (l: Line)
        requires
            self.title@.len() + 3 <= inner,
        ensures
            l@ == heading_view(self.title@, inner as nat, *g),
    {
        let used = self.title.unicode_len() + 3;
        let mut title = String::new();
        push_char(&mut title, ' ');
        title.append(self.title.as_str());
        push_char(&mut title, ' ');
        let l = Line::new().push(char_string(g.top_left), Tone::Dim).push(char_string(g.horizontal), Tone::Dim).push(
            title,
            Tone::Accent,
        ).push(repeat_char(g.horizontal, inner - used), Tone::Dim).push(char_string(g.top_right), Tone::Dim);
        assert(l@ =~~= heading_view(self.title@, inner as nat, *g));
        l
    }
}

proof fn lemma_body_width(row: RowView, label_width: nat)
    requires
        row.0.len() <= label_width,
    ensures
        line_width(body_view(row, label_width)) == label_width + GAP + line_width(row.1),
{
    let head: LineView = seq![
        (row.0 + spaces((label_width - row.0.len()) as nat), Tone::Plain),
        (spaces(GAP as nat), Tone::Plain),
    ];
    line_width_concat(head, row.1);
    lemma_line_width_2(head[0], head[1]);
    assert(head == seq![head[0], head[1]]);
}

proof fn lemma_boxed_row_width(row: RowView, label_width: nat, inner: nat, g: Glyphs)
    requires
        row.0.len() <= label_width,
        label_width + GAP + line_width(row.1) + PAD <= inner,
    ensures
        line_width(boxed_row_view(row, label_width, inner, g)) == inner + 2,
{
    let body = body_view(row, label_width);
    lemma_body_width(row, label_width);
    let head: LineView = seq![(seq![g.vertical], Tone::Dim), (spaces(PAD as nat), Tone::Plain)];
    let tail: LineView = seq![
        (spaces((inner - PAD - line_width(body)) as nat), Tone::Plain),
        (seq![g.vertical], Tone::Dim),
    ];
    line_width_concat(head, body);
    line_width_concat(head + body, tail);
    lemma_line_width_2(head[0], head[1]);
    assert(head == seq![head[0], head[1]]);
    lemma_line_width_2(tail[0], tail[1]);
    assert(tail == seq![tail[0], tail[1]]);
}

/// A row inside the box.
fn boxed_row(row: &Row, label_width: usize, inner: usize, g: &Glyphs) -> (l: Line)
    requires
        row.label@.len() <= label_width,
        label_width + GAP + line_width(row.value@) + PAD <= inner,
    ensures
        l@ == boxed_row_view(row@, label_width as nat, inner as nat, *g),
{
    let content = body(row, label_width);
    proof {
        lemma_body_width(row@, label_width as nat);
    }
    let trailing = inner - PAD - content.width();
    let l = Line::new().push(char_string(g.vertical), Tone::Dim).plain(repeat_char(' ', PAD)).concat(content).plain(
        repeat_char(' ', trailing),
    ).push(char_string(g.vertical), Tone::Dim);
    assert(l@ =~~= boxed_row_view(row@, label_width as nat, inner as nat, *g));
    l
}

/// The spans of each line.
pub open spec fn line_views(lines: Seq<Line>) -> Seq<LineView> {
    lines.map_values(|l: Line| l@)
}

fn push_line(lines: &mut Vec<Line>, line: Line)
    ensures
        line_views(final(lines)@) == line_views(old(lines)@).push(line@),
{
    let ghost before = lines@;
    lines.push(line);
    assert(line_views(lines@) =~= line_views(before).push(line@));
}

impl Panel {
    /// The boxed panel, `content` columns wide inside its padding.
    fn layout_boxed(&self, content: usize, g: &Glyphs) -> (lines: Vec<Line>)
        requires
            self.wf(),
            natural_width(self@.1) <= content,
            self.title@.len() + 3 <= content,
            content + 2 * PAD + 2 <= usize::MAX,
        ensures
            line_views(lines@) == boxed_view(self@, content as nat, *g),
    {
        let inner = content + 2 * PAD;
        let ghost views = self@.1;
        proof {
            lemma_natural_width_bounds(views);
        }
        let mut lines: Vec<Line> = Vec::new();
        push_line(&mut lines, self.heading(inner, g));
        let mut i: usize = 0;
        while i < self.sections.len()
            invariant
                i <= self.sections.len(),
                inner == content + 2 * PAD,
                views == self@.1,
                self.wf(),
                natural_width(views) <= content,
                forall|k: int| 0 <= k < views.len() ==> rows_width((#[trigger] views[k]).0, views[k].1) <= natural_width(views),
                line_views(lines@) == seq![heading_view(self.title@, inner as nat, *g)] + boxed_sections_view(
                    views.take(i as int),
                    inner as nat,
                    *g,
                ),
            decreases self.sections.len() - i,
        {
            let section = &self.sections[i];
            let ghost sv = views[i as int];
            assert(sv == section_view_of(section.rows@, section.label_width));
            let ghost before = line_views(lines@);
            if i > 0 {
                push_line(&mut lines, rule(g.tee_left, g.tee_right, inner, g));
            }
            push_line(&mut lines, blank(inner, g));
            proof {
                lemma_max_label_bounds(sv.0);
                lemma_rows_width_bounds(sv.0, sv.1);
            }
            let ghost mid = line_views(lines@);
            let mut j: usize = 0;
            while j < section.rows.len()
                invariant
                    j <= section.rows.len(),
                    inner == content + 2 * PAD,
                    sv == section_view_of(section.rows@, section.label_width),
                    rows_width(sv.0, sv.1) <= content,
                    sv.1 == max_label(sv.0),
                    forall|k: int| 0 <= k < sv.0.len() ==> (#[trigger] sv.0[k]).0.len() <= max_label(sv.0),
                    forall|k: int| 0 <= k < sv.0.len() ==> sv.1 + GAP + line_width((#[trigger] sv.0[k]).1) <= rows_width(sv.0, sv.1),
                    line_views(lines@) == mid + sv.0.take(j as int).map_values(
                        |r: RowView| boxed_row_view(r, sv.1, inner as nat, *g),
                    ),
                decreases section.rows.len() - j,
            {
                let row = &section.rows[j];
                assert(sv.0[j as int] == row@);
                push_line(&mut lines, boxed_row(row, section.label_width, inner, g));
                assert(sv.0.take(j + 1).map_values(|r: RowView| boxed_row_view(r, sv.1, inner as nat, *g))
                    =~= sv.0.take(j as int).map_values(|r: RowView| boxed_row_view(r, sv.1, inner as nat, *g)).push(
                    boxed_row_view(row@, sv.1, inner as nat, *g),
                ));
                j = j + 1;
            }
            assert(sv.0.take(section.rows.len() as int) == sv.0);
            push_line(&mut lines, blank(inner, g));
            proof {
                assert(views.take(i + 1).drop_last() == views.take(i as int));
                assert(views.take(i + 1).last() == sv);
                assert(line_views(lines@) =~= seq![heading_view(self.title@, inner as nat, *g)] + boxed_sections_view(
                    views.take(i + 1),
                    inner as nat,
                    *g,
                ));
            }
            i = i + 1;
        }
        assert(views.take(self.sections.len() as int) == views);
        push_line(&mut lines, rule(g.bottom_left, g.bottom_right, inner, g));
        lines
    }

    /// The panel without its box.
    fn layout_bare(&self) -> (lines: Vec<Line>)
        requires
            self.wf(),
        ensures
            line_views(lines@) == bare_view(self@.1),
    {
        let ghost views = self@.1;
        let mut lines: Vec<Line> = Vec::new();
        let mut i: usize = 0;
        while i < self.sections.len()
            invariant
                i <= self.sections.len(),
                views == self@.1,
                self.wf(),
                line_views(lines@) == bare_view(views.take(i as int)),
            decreases self.sections.len() - i,
        {
            let section = &self.sections[i];
            let ghost sv = views[i as int];
            assert(sv == section_view_of(section.rows@, section.label_width));
            if i > 0 {
                push_line(&mut lines, Line::new());
            }
            proof {
                lemma_max_label_bounds(sv.0);
            }
            let ghost mid = line_views(lines@);
            let mut j: usize = 0;
            while j < section.rows.len()
                invariant
                    j <= section.rows.len(),
                    sv == section_view_of(section.rows@, section.label_width),
                    forall|k: int| 0 <= k < sv.0.len() ==> (#[trigger] sv.0[k]).0.len() <= sv.1,
                    line_views(lines@) == mid + sv.0.take(j as int).map_values(|r: RowView| body_view(r, sv.1)),
                decreases section.rows.len() - j,
            {
                let row = &section.rows[j];
                assert(sv.0[j as int] == row@);
                push_line(&mut lines, body(row, section.label_width));
                assert(sv.0.take(j + 1).map_values(|r: RowView| body_view(r, sv.1)) =~= sv.0.take(j as int).map_values(
                    |r: RowView| body_view(r, sv.1),
                ).push(body_view(row@, sv.1)));
                j = j + 1;
            }
            assert(sv.0.take(section.rows.len() as int) == sv.0);
            proof {
                assert(views.take(i + 1).drop_last() == views.take(i as int));
                assert(views.take(i + 1).last() == sv);
                assert(line_views(lines@) =~= bare_view(views.take(i + 1)));
            }
            i = i + 1;
        }
        assert(views.take(self.sections.len() as int) == views);
        lines
    }

    /// The panel laid out for a terminal `width` columns wide: boxed when the
    /// box fits, bare otherwise, nothing without sections.
    pub fn layout(&self, width: usize, g: &Glyphs) -> (lines: Vec<Line>)
        requires
            self.wf(),
        ensures
            line_views(lines@) == layout_view(self@, width as nat, *g),
    {
        if self.sections.len() == 0 {
            let lines: Vec<Line> = Vec::new();
            assert(line_views(lines@) =~= Seq::<LineView>::empty());
            return lines;
        }
        let natural = self.natural_width();
        let title = self.title.unicode_len().saturating_add(3);
        let content = if natural > title { natural } else { title };
        match content.checked_add(2 * PAD + 2) {
            Some(needed) if needed <= width => self.layout_boxed(content, g),
            _ => self.layout_bare(),
        }
    }

    /// The panel written out for a terminal `width` columns wide, drawn with
    /// `g`: the lines of [`Panel::layout`], each followed by a newline.
    pub fn render(&self, width: usize, g: &Glyphs) -> (out: String)
        requires
            self.wf(),
        ensures
            (forall|i: int| 0 <= i < layout_view(self@, width as nat, *g).len() ==> coloured_spans_escape_free(
                #[trigger] layout_view(self@, width as nat, *g)[i],
            )) ==> renders_lines(out@, layout_view(self@, width as nat, *g)),
            panel_escape_free(self@) && glyphs_escape_free(*g) ==> renders_lines(
                out@,
                layout_view(self@, width as nat, *g),
            ),
    {
        let lines = self.layout(width, g);
        let out = render_lines(&lines);
        proof {
            if panel_escape_free(self@) && glyphs_escape_free(*g) {
                layout_escape_free(self@, width as nat, *g);
                assert forall|i: int| 0 <= i < layout_view(self@, width as nat, *g).len() implies coloured_spans_escape_free(
                    #[trigger] layout_view(self@, width as nat, *g)[i],
                ) by {
                    assert(free_of_escapes(layout_view(self@, width as nat, *g)[i]));
                }
            }
            assert forall|i: int| 0 <= i < lines.len() && coloured_spans_escape_free(
                layout_view(self@, width as nat, *g)[i],
            ) implies coloured_spans_escape_free(#[trigger] lines@[i]@) by {
                assert(line_views(lines@)[i] == lines@[i]@);
            }
        }
        out
    }
}

/// How many of `cells` cells a gauge fills for `percent` (capped at 100):
/// none for zero, else the nearest whole number of cells, at least one.
pub open spec fn gauge_filled(percent: u32, cells: nat) -> nat {
    let p = if percent > 100 { 100 } else { percent };
    if p == 0 {
        0
    } else {
        let n = (p * cells + 50) / 100;
        if n < 1 {
            1
        } else if n > cells {
            cells
        } else {
            n as nat
        }
    }
}

/// A gauge: `percent` of `cells` cells filled in `tone`, the rest dimmed.
pub open spec fn gauge_view(percent: u32, cells: nat, tone: Tone, g: Glyphs) -> LineView {
    seq![
        (repeated(g.gauge_full, gauge_filled(percent, cells)), tone),
        (repeated(g.gauge_empty, (cells - gauge_filled(percent, cells)) as nat), Tone::Dim),
    ]
}

/// A gauge of `cells` cells showing `percent`.
pub fn gauge(percent: u32, cells: usize, tone: Tone, g: &Glyphs) -> (l: Line)
    requires
        percent == 0 || cells >= 1,
        (if percent > 100 { 100 } else { percent }) * cells + 50 <= usize::MAX,
    ensures
        l@ == gauge_view(percent, cells as nat, tone, *g),
{
    let percent = if percent > 100 { 100usize } else { percent as usize };
    let filled = if percent == 0 {
        0
    } else {
        let n = (percent * cells + 50) / 100;
        if n < 1 {
            1
        } else if n > cells {
            cells
        } else {
            n
        }
    };
    let l = Line::new().push(repeat_char(g.gauge_full, filled), tone).push(
        repeat_char(g.gauge_empty, cells - filled),
        Tone::Dim,
    );
    assert(l@ =~~= gauge_view(percent as u32, cells as nat, tone, *g));
    l
}

/// Whether `out` is a message to the user: the glyph in `tone`, the headline
/// in bold in `tone` (`bold_code` its colour code), then the sanitized cause
/// when there is one and the dimmed hint when there is one, each on a line of
/// its own indented by two spaces.
pub open spec fn message_as(
    out: Seq<char>,
    tone: Tone,
    bold_code: Seq<char>,
    glyph: Seq<char>,
    headline: Seq<char>,
    cause: Seq<char>,
    hint: Option<Seq<char>>,
) -> bool {
    exists|g: Seq<char>, h: Seq<char>, d: Seq<char>|
        toned_as(g, tone, glyph) && painted_as(h, bold_code, headline) && (hint matches Some(t) ==> painted_as(
            d,
            "2"@,
            t,
        )) && out == #[trigger] message_text(g, h, cause, hint, d)
}

/// The text of a message from its painted glyph `g`, headline `h` and hint `d`.
pub open spec fn message_text(g: Seq<char>, h: Seq<char>, cause: Seq<char>, hint: Option<Seq<char>>, d: Seq<char>) -> Seq<char> {
    g + seq![' '] + h + seq!['\n'] + (if cause.len() > 0 {
        seq![' ', ' '] + sanitized(cause) + seq!['\n']
    } else {
        Seq::empty()
    }) + (if hint is Some {
        seq![' ', ' '] + d + seq!['\n']
    } else {
        Seq::empty()
    })
}

fn report(danger: bool, headline: &str, cause: &str, hint: Option<&str>) -> (out: String)
    ensures
        danger ==> message_as(out@, Tone::Danger, "1;31"@, "\u{2718}"@, headline@, cause@, match hint {
            Some(h) => Some(h@),
            None => None,
        }),
        !danger ==> message_as(out@, Tone::Warn, "1;33"@, "!"@, headline@, cause@, match hint {
            Some(h) => Some(h@),
            None => None,
        }),
{
    let tone = if danger { Tone::Danger } else { Tone::Warn };
    let glyph = if danger { tone.paint("\u{2718}") } else { tone.paint("!") };
    let head = if danger { paint_bold_red(headline) } else { paint_bold_yellow(headline) };
    let mut out = String::new();
    out.append(glyph.as_str());
    push_char(&mut out, ' ');
    out.append(head.as_str());
    push_char(&mut out, '\n');
    if cause.unicode_len() > 0 {
        push_char(&mut out, ' ');
        push_char(&mut out, ' ');
        let clean = sanitize(cause);
        out.append(clean.as_str());
        push_char(&mut out, '\n');
    }
    let ghost mut d: Seq<char> = Seq::empty();
    match hint {
        Some(h) => {
            let dim = Tone::Dim.paint(h);
            proof {
                d = dim@;
            }
            push_char(&mut out, ' ');
            push_char(&mut out, ' ');
            out.append(dim.as_str());
            push_char(&mut out, '\n');
        },
        None => {},
    }
    let ghost hv = match hint {
        Some(h) => Some(h@),
        None => None::<Seq<char>>,
    };
    assert(out@ =~= message_text(glyph@, head@, cause@, hv, d));
    out
}

/// The report of a failure, for standard error: a red cross and headline,
/// the cause, and the hint.
pub fn failure(headline: &str, cause: &str, hint: Option<&str>) -> (out: String)
    ensures
        message_as(out@, Tone::Danger, "1;31"@, "\u{2718}"@, headline@, cause@, match hint {
            Some(h) => Some(h@),
            None => None,
        }),
{
    report(true, headline, cause, hint)
}

/// A warning, for standard error: a yellow `!` and headline, the cause, and the
/// hint.
pub fn notice(headline: &str, cause: &str, hint: Option<&str>) -> (out: String)
    ensures
        message_as(out@, Tone::Warn, "1;33"@, "!"@, headline@, cause@, match hint {
            Some(h) => Some(h@),
            None => None,
        }),
{
    report(false, headline, cause, hint)
}

/// The confirmation of a success, for standard output: a green check mark and
/// the message.
pub fn success(message: &str) -> (out: String)
    ensures
        exists|g: Seq<char>| toned_as(g, Tone::Good, "\u{2714}"@) && out@ == g + seq![' '] + message@ + seq!['\n'],
{
    let mark = Tone::Good.paint("\u{2714}");
    let mut out = String::new();
    out.append(mark.as_str());
    push_char(&mut out, ' ');
    out.append(message);
    push_char(&mut out, '\n');
    assert(out@ =~= mark@ + seq![' '] + message@ + seq!['\n']);
    out
}

/// Every line of a boxed panel is equally wide, two columns wider than the
/// inside of the box: the box is a rectangle.
pub proof fn boxed_panel_is_rectangular(p: PanelView, content: nat, g: Glyphs)
    requires
        well_formed_sections(p.1),
        natural_width(p.1) <= content,
        p.0.len() + 3 <= content,
    ensures
        forall|i: int| 0 <= i < boxed_view(p, content, g).len() ==> line_width(
            #[trigger] boxed_view(p, content, g)[i],
        ) == content + 2 * PAD + 2,
{
    let inner = (content + 2 * PAD) as nat;
    let lines = boxed_view(p, content, g);
    lemma_natural_width_bounds(p.1);
    lemma_heading_width(p.0, inner, g);
    lemma_rule_width(g.bottom_left, g.bottom_right, inner, g);
    lemma_sections_width(p.1, inner, g);
    let sections = boxed_sections_view(p.1, inner, g);
    assert forall|i: int| 0 <= i < lines.len() implies line_width(#[trigger] lines[i]) == content + 2 * PAD + 2 by {
        if i == 0 {
            assert(lines[i] == heading_view(p.0, inner, g));
        } else if i < lines.len() - 1 {
            assert(lines[i] == sections[i - 1]);
        } else {
            assert(lines[i] == rule_view(g.bottom_left, g.bottom_right, inner, g));
        }
    }
}

/// Whether `s` holds no escape character.
pub open spec fn escape_free(s: Seq<char>) -> bool {
    !s.contains(escape_char())
}

/// Whether no glyph is the escape character.
pub open spec fn glyphs_escape_free(g: Glyphs) -> bool {
    &&& g.top_left != escape_char()
    &&& g.top_right != escape_char()
    &&& g.bottom_left != escape_char()
    &&& g.bottom_right != escape_char()
    &&& g.horizontal != escape_char()
    &&& g.vertical != escape_char()
    &&& g.tee_left != escape_char()
    &&& g.tee_right != escape_char()
    &&& g.gauge_full != escape_char()
    &&& g.gauge_empty != escape_char()
}

/// Whether a row's label and the spans of its value hold no escape character.
pub open spec fn row_escape_free(row: RowView) -> bool {
    escape_free(row.0) && free_of_escapes(row.1)
}

/// Whether no text of the panel, its title, labels and values, holds an
/// escape character.
pub open spec fn panel_escape_free(p: PanelView) -> bool {
    &&& escape_free(p.0)
    &&& forall|i: int, j: int| 0 <= i < p.1.len() && 0 <= j < p.1[i].0.len() ==> row_escape_free(#[trigger] p.1[i].0[j])
}

/// A panel whose texts and glyphs hold no escape character is laid out in
/// lines that hold none either, for any terminal width.
pub proof fn layout_escape_free(p: PanelView, width: nat, g: Glyphs)
    requires
        panel_escape_free(p),
        glyphs_escape_free(g),
    ensures
        forall|i: int| 0 <= i < layout_view(p, width, g).len() ==> free_of_escapes(#[trigger] layout_view(p, width, g)[i]),
{
    let lines = layout_view(p, width, g);
    if p.1.len() == 0 {
    } else if content_width(p) + 2 * PAD + 2 > width {
        lemma_bare_free(p.1);
    } else {
        let inner = (content_width(p) + 2 * PAD) as nat;
        lemma_heading_free(p.0, inner, g);
        lemma_rule_free(g.bottom_left, g.bottom_right, inner, g);
        lemma_sections_free(p.1, inner, g);
        let sections = boxed_sections_view(p.1, inner, g);
        assert forall|i: int| 0 <= i < lines.len() implies free_of_escapes(#[trigger] lines[i]) by {
            if i == 0 {
                assert(lines[i] == heading_view(p.0, inner, g));
            } else if i < lines.len() - 1 {
                assert(lines[i] == sections[i - 1]);
            } else {
                assert(lines[i] == rule_view(g.bottom_left, g.bottom_right, inner, g));
            }
        }
    }
}

pub(crate) proof fn lemma_concat_free(a: Seq<char>, b: Seq<char>)
    requires
        escape_free(a),
        escape_free(b),
    ensures
        escape_free(a + b),
{
    assert forall|k: int| 0 <= k < (a + b).len() implies (a + b)[k] != escape_char() by {
        if k < a.len() {
            assert((a + b)[k] == a[k]);
        } else {
            assert((a + b)[k] == b[k - a.len()]);
        }
    }
}

pub(crate) proof fn lemma_repeated_free(c: char, n: nat)
    requires
        c != escape_char(),
    ensures
        escape_free(repeated(c, n)),
        escape_free(seq![c]),
{
    assert forall|k: int| 0 <= k < repeated(c, n).len() implies repeated(c, n)[k] != escape_char() by {}
    assert forall|k: int| 0 <= k < seq![c].len() implies seq![c][k] != escape_char() by {}
}

pub(crate) proof fn lemma_line_concat_free(a: LineView, b: LineView)
    requires
        free_of_escapes(a),
        free_of_escapes(b),
    ensures
        free_of_escapes(a + b),
{
    assert forall|k: int| 0 <= k < (a + b).len() implies !(#[trigger] (a + b)[k]).0.contains(escape_char()) by {
        if k < a.len() {
            assert((a + b)[k] == a[k]);
        } else {
            assert((a + b)[k] == b[k - a.len()]);
        }
    }
}

proof fn lemma_body_free(row: RowView, label_width: nat)
    requires
        row_escape_free(row),
    ensures
        free_of_escapes(body_view(row, label_width)),
{
    lemma_repeated_free(' ', (label_width - row.0.len()) as nat);
    lemma_repeated_free(' ', GAP as nat);
    assert(spaces((label_width - row.0.len()) as nat) == repeated(' ', (label_width - row.0.len()) as nat));
    assert(spaces(GAP as nat) == repeated(' ', GAP as nat));
    lemma_concat_free(row.0, spaces((label_width - row.0.len()) as nat));
    let head: LineView = seq![(row.0 + spaces((label_width - row.0.len()) as nat), Tone::Plain), (spaces(GAP as nat), Tone::Plain)];
    assert(free_of_escapes(head));
    lemma_line_concat_free(head, row.1);
}

proof fn lemma_boxed_row_free(row: RowView, label_width: nat, inner: nat, g: Glyphs)
    requires
        row_escape_free(row),
        glyphs_escape_free(g),
    ensures
        free_of_escapes(boxed_row_view(row, label_width, inner, g)),
{
    let body = body_view(row, label_width);
    lemma_body_free(row, label_width);
    lemma_repeated_free(g.vertical, 0);
    lemma_repeated_free(' ', PAD as nat);
    lemma_repeated_free(' ', (inner - PAD - line_width(body)) as nat);
    assert(spaces(PAD as nat) == repeated(' ', PAD as nat));
    assert(spaces((inner - PAD - line_width(body)) as nat) == repeated(' ', (inner - PAD - line_width(body)) as nat));
    let left: LineView = seq![(seq![g.vertical], Tone::Dim), (spaces(PAD as nat), Tone::Plain)];
    let right: LineView = seq![(spaces((inner - PAD - line_width(body)) as nat), Tone::Plain), (seq![g.vertical], Tone::Dim)];
    assert(free_of_escapes(left));
    assert(free_of_escapes(right));
    lemma_line_concat_free(left, body);
    lemma_line_concat_free(left + body, right);
}

proof fn lemma_rule_free(left: char, right: char, inner: nat, g: Glyphs)
    requires
        left != escape_char(),
        right != escape_char(),
        glyphs_escape_free(g),
    ensures
        free_of_escapes(rule_view(left, right, inner, g)),
{
    lemma_repeated_free(left, 0);
    lemma_repeated_free(right, 0);
    lemma_repeated_free(g.horizontal, inner);
}

proof fn lemma_blank_free(inner: nat, g: Glyphs)
    requires
        glyphs_escape_free(g),
    ensures
        free_of_escapes(blank_view(inner, g)),
{
    lemma_repeated_free(g.vertical, 0);
    lemma_repeated_free(' ', inner);
    assert(spaces(inner) == repeated(' ', inner));
}

proof fn lemma_heading_free(title: Seq<char>, inner: nat, g: Glyphs)
    requires
        escape_free(title),
        glyphs_escape_free(g),
    ensures
        free_of_escapes(heading_view(title, inner, g)),
{
    lemma_repeated_free(g.top_left, 0);
    lemma_repeated_free(g.top_right, 0);
    lemma_repeated_free(' ', 0);
    lemma_repeated_free(g.horizontal, (inner - (title.len() + 3)) as nat);
    lemma_concat_free(seq![' '], title);
    lemma_concat_free(seq![' '] + title, seq![' ']);
}

proof fn lemma_sections_free(sections: Seq<SectionView>, inner: nat, g: Glyphs)
    requires
        forall|i: int, j: int| 0 <= i < sections.len() && 0 <= j < sections[i].0.len() ==> row_escape_free(
            #[trigger] sections[i].0[j],
        ),
        glyphs_escape_free(g),
    ensures
        forall|i: int| 0 <= i < boxed_sections_view(sections, inner, g).len() ==> free_of_escapes(
            #[trigger] boxed_sections_view(sections, inner, g)[i],
        ),
    decreases sections.len(),
{
    if sections.len() > 0 {
        let rest = sections.drop_last();
        assert forall|i: int, j: int| 0 <= i < rest.len() && 0 <= j < rest[i].0.len() implies row_escape_free(
            #[trigger] rest[i].0[j],
        ) by {
            assert(rest[i] == sections[i]);
        }
        lemma_sections_free(rest, inner, g);
        let last = sections.last();
        assert(last == sections[sections.len() - 1]);
        lemma_rule_free(g.tee_left, g.tee_right, inner, g);
        lemma_blank_free(inner, g);
        let first = sections.len() == 1;
        let front: Seq<LineView> = if first {
            Seq::empty()
        } else {
            seq![rule_view(g.tee_left, g.tee_right, inner, g)]
        };
        let rows = last.0.map_values(|r: RowView| boxed_row_view(r, last.1, inner, g));
        assert forall|j: int| 0 <= j < rows.len() implies free_of_escapes(#[trigger] rows[j]) by {
            assert(row_escape_free(sections[sections.len() - 1].0[j]));
            lemma_boxed_row_free(last.0[j], last.1, inner, g);
        }
        let part = front + seq![blank_view(inner, g)] + rows + seq![blank_view(inner, g)];
        assert(part == boxed_section_view(last, first, inner, g));
        let before = boxed_sections_view(rest, inner, g);
        let all = boxed_sections_view(sections, inner, g);
        assert(all == before + part);
        assert forall|i: int| 0 <= i < all.len() implies free_of_escapes(#[trigger] all[i]) by {
            if i < before.len() {
                assert(all[i] == before[i]);
            } else {
                let k = i - before.len();
                assert(all[i] == part[k]);
                let f = front.len() as int;
                if k < f {
                    assert(part[k] == front[k]);
                } else if k == f {
                    assert(part[k] == blank_view(inner, g));
                } else if k < f + 1 + rows.len() {
                    assert(part[k] == rows[k - f - 1]);
                } else {
                    assert(part[k] == blank_view(inner, g));
                }
            }
        }
    }
}

proof fn lemma_bare_free(sections: Seq<SectionView>)
    requires
        forall|i: int, j: int| 0 <= i < sections.len() && 0 <= j < sections[i].0.len() ==> row_escape_free(
            #[trigger] sections[i].0[j],
        ),
    ensures
        forall|i: int| 0 <= i < bare_view(sections).len() ==> free_of_escapes(#[trigger] bare_view(sections)[i]),
    decreases sections.len(),
{
    if sections.len() > 0 {
        let rest = sections.drop_last();
        assert forall|i: int, j: int| 0 <= i < rest.len() && 0 <= j < rest[i].0.len() implies row_escape_free(
            #[trigger] rest[i].0[j],
        ) by {
            assert(rest[i] == sections[i]);
        }
        lemma_bare_free(rest);
        let last = sections.last();
        let gap: Seq<LineView> = if sections.len() == 1 {
            Seq::empty()
        } else {
            seq![Seq::<(Seq<char>, Tone)>::empty()]
        };
        let rows = last.0.map_values(|r: RowView| body_view(r, last.1));
        assert forall|j: int| 0 <= j < rows.len() implies free_of_escapes(#[trigger] rows[j]) by {
            assert(row_escape_free(sections[sections.len() - 1].0[j]));
            lemma_body_free(last.0[j], last.1);
        }
        let before = bare_view(rest);
        let all = bare_view(sections);
        assert(all == before + gap + rows);
        assert forall|i: int| 0 <= i < all.len() implies free_of_escapes(#[trigger] all[i]) by {
            if i < before.len() {
                assert(all[i] == before[i]);
            } else if i < before.len() + gap.len() {
                assert(all[i] == gap[i - before.len()]);
            } else {
                assert(all[i] == rows[i - before.len() - gap.len()]);
            }
        }
    }
}

proof fn lemma_line_width_3(a: (Seq<char>, Tone), b: (Seq<char>, Tone), c: (Seq<char>, Tone))
    ensures
        line_width(seq![a, b, c]) == a.0.len() + b.0.len() + c.0.len(),
{
    lemma_line_width_2(a, b);
    assert(seq![a, b, c].drop_last() == seq![a, b]);
    assert(seq![a, b, c].last() == c);
}

proof fn lemma_line_width_2(a: (Seq<char>, Tone), b: (Seq<char>, Tone))
    ensures
        line_width(seq![a, b]) == a.0.len() + b.0.len(),
{
    assert(seq![a].drop_last() == Seq::<(Seq<char>, Tone)>::empty());
    assert(seq![a].last() == a);
    assert(line_width(Seq::<(Seq<char>, Tone)>::empty()) == 0);
    assert(line_width(seq![a]) == a.0.len());
    assert(seq![a, b].last() == b);
    assert(seq![a, b].drop_last() == seq![a]);
}

proof fn lemma_rule_width(left: char, right: char, inner: nat, g: Glyphs)
    ensures
        line_width(rule_view(left, right, inner, g)) == inner + 2,
{
    lemma_line_width_3(
        (seq![left], Tone::Dim),
        (repeated(g.horizontal, inner), Tone::Dim),
        (seq![right], Tone::Dim),
    );
}

proof fn lemma_blank_width(inner: nat, g: Glyphs)
    ensures
        line_width(blank_view(inner, g)) == inner + 2,
{
    lemma_line_width_3((seq![g.vertical], Tone::Dim), (spaces(inner), Tone::Plain), (seq![g.vertical], Tone::Dim));
}

proof fn lemma_heading_width(title: Seq<char>, inner: nat, g: Glyphs)
    requires
        title.len() + 3 <= inner,
    ensures
        line_width(heading_view(title, inner, g)) == inner + 2,
{
    let v = heading_view(title, inner, g);
    lemma_line_width_3(v[0], v[1], v[2]);
    assert(v.drop_last().drop_last() == seq![v[0], v[1], v[2]]);
    assert(line_width(v.drop_last()) == line_width(seq![v[0], v[1], v[2]]) + v[3].0.len());
}

proof fn lemma_sections_width(sections: Seq<SectionView>, inner: nat, g: Glyphs)
    requires
        well_formed_sections(sections),
        forall|k: int| 0 <= k < sections.len() ==> rows_width((#[trigger] sections[k]).0, sections[k].1) + 2 * PAD
            <= inner,
    ensures
        forall|i: int| 0 <= i < boxed_sections_view(sections, inner, g).len() ==> line_width(
            #[trigger] boxed_sections_view(sections, inner, g)[i],
        ) == inner + 2,
    decreases sections.len(),
{
    if sections.len() > 0 {
        let rest = sections.drop_last();
        assert forall|k: int| 0 <= k < rest.len() implies rows_width((#[trigger] rest[k]).0, rest[k].1) + 2 * PAD
            <= inner by {
            assert(rest[k] == sections[k]);
        }
        lemma_sections_width(rest, inner, g);
        let last = sections.last();
        assert(last == sections[sections.len() - 1]);
        lemma_max_label_bounds(last.0);
        lemma_rows_width_bounds(last.0, last.1);
        lemma_rule_width(g.tee_left, g.tee_right, inner, g);
        lemma_blank_width(inner, g);
        let first = sections.len() == 1;
        let front: Seq<LineView> = if first {
            Seq::empty()
        } else {
            seq![rule_view(g.tee_left, g.tee_right, inner, g)]
        };
        let rows = last.0.map_values(|r: RowView| boxed_row_view(r, last.1, inner, g));
        assert forall|j: int| 0 <= j < rows.len() implies line_width(#[trigger] rows[j]) == inner + 2 by {
            lemma_boxed_row_width(last.0[j], last.1, inner, g);
        }
        let part = front + seq![blank_view(inner, g)] + rows + seq![blank_view(inner, g)];
        assert(part == boxed_section_view(last, first, inner, g));
        let before = boxed_sections_view(rest, inner, g);
        let all = boxed_sections_view(sections, inner, g);
        assert(all == before + part);
        assert forall|i: int| 0 <= i < all.len() implies line_width(#[trigger] all[i]) == inner + 2 by {
            if i < before.len() {
                assert(all[i] == before[i]);
            } else {
                let k = i - before.len();
                assert(all[i] == part[k]);
                let f = front.len() as int;
                if k < f {
                    assert(part[k] == front[k]);
                } else if k == f {
                    assert(part[k] == blank_view(inner, g));
                } else if k < f + 1 + rows.len() {
                    assert(part[k] == rows[k - f - 1]);
                } else {
                    assert(part[k] == blank_view(inner, g));
                }
            }
        }
    }
}

/// The character set follows the first locale variable that is set and not
/// empty, in the order `LC_ALL`, `LC_CTYPE`, `LANG`: a later one counts only
/// when every earlier one is unset or empty, and with none of them set the
/// terminal is taken not to be UTF-8.
pub proof fn locale_law(lc_all: Option<Seq<char>>, lc_ctype: Option<Seq<char>>, lang: Option<Seq<char>>)
    ensures
        lc_all matches Some(v) && v.len() > 0 ==> locale(lc_all, lc_ctype, lang) == lc_all,
        (lc_all is None || lc_all == Some(Seq::<char>::empty())) && (lc_ctype matches Some(v) && v.len() > 0)
            ==> locale(lc_all, lc_ctype, lang) == lc_ctype,
        (lc_all is None || lc_all == Some(Seq::<char>::empty())) && (lc_ctype is None || lc_ctype == Some(
            Seq::<char>::empty(),
        )) && (lang matches Some(v) && v.len() > 0) ==> locale(lc_all, lc_ctype, lang) == lang,
        (lc_all is None || lc_all == Some(Seq::<char>::empty())) && (lc_ctype is None || lc_ctype == Some(
            Seq::<char>::empty(),
        )) && (lang is None || lang == Some(Seq::<char>::empty())) ==> locale(lc_all, lc_ctype, lang) is None,
        locale(lc_all, lc_ctype, lang) matches Some(v) ==> v.len() > 0 && (lc_all == Some(v) || lc_ctype == Some(v)
            || lang == Some(v)),
{
}

} // verus!
