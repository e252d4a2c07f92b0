//! Directory listings and the order in which the daemon walks them.

use vstd::prelude::*;

use crate::text::push_char;

verus! {

/// Whether `a` sorts before or equal to `b`: the order of file names in a
/// sorted directory listing, character by character (for UTF-8 names the same
/// order as byte by byte).
pub open spec fn name_le(a: Seq<char>, b: Seq<char>) -> bool
    decreases a.len(),
{
    if a.len() == 0 {
        true
    } else if b.len() == 0 {
        false
    } else if a[0] != b[0] {
        a[0] < b[0]
    } else {
        name_le(a.drop_first(), b.drop_first())
    }
}

/// Any two names are ordered one way or the other.
pub proof fn name_le_total(a: Seq<char>, b: Seq<char>)
    ensures
        name_le(a, b) || name_le(b, a),
    decreases a.len(),
{
    if a.len() > 0 && b.len() > 0 && a[0] == b[0] {
        name_le_total(a.drop_first(), b.drop_first());
    }
}

/// Every name sorts before or equal to itself.
pub proof fn name_le_reflexive(a: Seq<char>)
    ensures
        name_le(a, a),
    decreases a.len(),
{
    if a.len() > 0 {
        name_le_reflexive(a.drop_first());
    }
}

/// Names ordered both ways are the same name.
pub proof fn name_le_antisymmetric(a: Seq<char>, b: Seq<char>)
    requires
        name_le(a, b),
        name_le(b, a),
    ensures
        a == b,
    decreases a.len(),
{
    if a.len() > 0 && b.len() > 0 {
        name_le_antisymmetric(a.drop_first(), b.drop_first());
        assert(a == seq![a[0]] + a.drop_first());
        assert(b == seq![b[0]] + b.drop_first());
    }
}

/// The order is transitive.
pub proof fn name_le_transitive(a: Seq<char>, b: Seq<char>, c: Seq<char>)
    requires
        name_le(a, b),
        name_le(b, c),
    ensures
        name_le(a, c),
    decreases a.len(),
{
    if a.len() > 0 && b.len() > 0 && c.len() > 0 && a[0] == b[0] && b[0] == c[0] {
        name_le_transitive(a.drop_first(), b.drop_first(), c.drop_first());
    }
}

/// Decides [`name_le`].
pub fn name_precedes(a: &Vec<char>, b: &Vec<char>) -> (le: bool)
    ensures
        le == name_le(a@, b@),
{
    let mut i: usize = 0;
    assert(a@.subrange(0, a.len() as int) == a@);
    assert(b@.subrange(0, b.len() as int) == b@);
    while i < a.len() && i < b.len() && a[i] == b[i]
        invariant
            i <= a.len(),
            i <= b.len(),
            name_le(a@, b@) == name_le(a@.subrange(i as int, a.len() as int), b@.subrange(i as int, b.len() as int)),
        decreases a.len() - i,
    {
        let ghost sa = a@.subrange(i as int, a.len() as int);
        let ghost sb = b@.subrange(i as int, b.len() as int);
        assert(sa.drop_first() == a@.subrange(i + 1, a.len() as int));
        assert(sb.drop_first() == b@.subrange(i + 1, b.len() as int));
        i = i + 1;
    }
    if i == a.len() {
        true
    } else if i == b.len() {
        false
    } else {
        a[i] < b[i]
    }
}

/// Whether index `i` picks the entry a sorted walk reaches first among the
/// entries marked `ok`: it is marked, its name sorts before or equal to every
/// marked name, and no marked entry listed before it has the same name.
pub open spec fn first_in_order(names: Seq<Seq<char>>, ok: Seq<bool>, i: int) -> bool {
    &&& 0 <= i < names.len()
    &&& ok[i]
    &&& forall|j: int| 0 <= j < names.len() && ok[j] ==> name_le(names[i], #[trigger] names[j])
    &&& forall|j: int| 0 <= j < i && ok[j] ==> #[trigger] names[j] != names[i]
}

/// The entry a sorted walk over the entries marked `ok` reaches first, if any.
pub fn first_in_sorted_order(names: &Vec<Vec<char>>, ok: &Vec<bool>) -> (r: Option<usize>)
    requires
        names.len() == ok.len(),
    ensures
        match r {
            Some(i) => first_in_order(names@.map_values(|n: Vec<char>| n@), ok@, i as int),
            None => forall|j: int| 0 <= j < ok.len() ==> !ok@[j],
        },
{
    let ghost views = names@.map_values(|n: Vec<char>| n@);
    let mut best: Option<usize> = None;
    let mut k: usize = 0;
    while k < names.len()
        invariant
            k <= names.len() == ok.len(),
            views == names@.map_values(|n: Vec<char>| n@),
            match best {
                Some(i) => {
                    &&& i < k
                    &&& ok@[i as int]
                    &&& forall|j: int| 0 <= j < k && ok@[j] ==> name_le(views[i as int], #[trigger] views[j])
                    &&& forall|j: int| 0 <= j < i && ok@[j] ==> #[trigger] views[j] != views[i as int]
                },
                None => forall|j: int| 0 <= j < k ==> !ok@[j],
            },
        decreases names.len() - k,
    {
        if ok[k] {
            match best {
                None => {
                    proof {
                        name_le_reflexive(views[k as int]);
                    }
                    best = Some(k);
                },
                Some(i) => {
                    if !name_precedes(&names[i], &names[k]) {
                        proof {
                            name_le_reflexive(views[k as int]);
                            name_le_total(views[i as int], views[k as int]);
                            assert forall|j: int| 0 <= j < k + 1 && ok@[j] implies name_le(
                                views[k as int],
                                #[trigger] views[j],
                            ) by {
                                if j < k {
                                    name_le_transitive(views[k as int], views[i as int], views[j]);
                                }
                            }
                            assert forall|j: int| 0 <= j < k && ok@[j] implies #[trigger] views[j]
                                != views[k as int] by {
                                if views[j] == views[k as int] {
                                    assert(name_le(views[i as int], views[j]));
                                }
                            }
                        }
                        best = Some(k);
                    }
                },
            }
        }
        k = k + 1;
    }
    best
}

/// `name` inside directory `dir`, as `Path::join` puts them together for a
/// relative name.
pub open spec fn joined(dir: Seq<char>, name: Seq<char>) -> Seq<char> {
    if dir.len() == 0 {
        name
    } else if dir.last() == '/' {
        dir + name
    } else {
        dir.push('/') + name
    }
}

/// The path of `name` inside directory `dir`.
pub fn join(dir: &str, name: &str) -> (p: String)
    ensures
        p@ == joined(dir@, name@),
{
    let mut p = String::from_str(dir);
    let n = dir.unicode_len();
    if n > 0 && dir.get_char(n - 1) != '/' {
        push_char(&mut p, '/');
    }
    p.append(name);
    p
}

/// `name` inside directory `dir`, both as bytes, as `Path::join` puts them
/// together for a relative name (`/` is byte 47).
pub open spec fn joined_bytes(dir: Seq<u8>, name: Seq<u8>) -> Seq<u8> {
    if dir.len() == 0 {
        name
    } else if dir.last() == 47u8 {
        dir + name
    } else {
        dir.push(47u8) + name
    }
}

/// The path, as bytes, of `name` inside directory `dir`.
pub fn join_bytes(dir: &[u8], name: &[u8]) -> (p: Vec<u8>)
    ensures
        p@ == joined_bytes(dir@, name@),
{
    let mut p: Vec<u8> = Vec::new();
    let mut i: usize = 0;
    while i < dir.len()
        invariant
            i <= dir.len(),
            p@ == dir@.take(i as int),
        decreases dir.len() - i,
    {
        p.push(dir[i]);
        assert(dir@.take(i + 1) == dir@.take(i as int).push(dir@[i as int]));
        i = i + 1;
    }
    assert(dir@.take(dir.len() as int) == dir@);
    if dir.len() > 0 && dir[dir.len() - 1] != 47u8 {
        p.push(47u8);
    }
    let ghost start = p@;
    let mut j: usize = 0;
    while j < name.len()
        invariant
            j <= name.len(),
            p@ == start + name@.take(j as int),
        decreases name.len() - j,
    {
        p.push(name[j]);
        assert(name@.take(j + 1) == name@.take(j as int).push(name@[j as int]));
        j = j + 1;
    }
    assert(name@.take(name.len() as int) == name@);
    p
}

} // verus!
