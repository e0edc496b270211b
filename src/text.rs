//! Character-level helpers over `str`, and the few std string calls the
//! classifier relies on.
use vstd::prelude::*;

verus! {

/// What `str::to_lowercase` makes of a character sequence.
pub uninterp spec fn lower_of(s: Seq<char>) -> Seq<char>;

/// What `str::trim` makes of a character sequence.
pub uninterp spec fn trim_of(s: Seq<char>) -> Seq<char>;

/// True iff some character of `set` occurs in `s`.
pub open spec fn has_any_of(s: Seq<char>, set: Seq<char>) -> bool {
    exists|i: int| 0 <= i < set.len() && s.contains(#[trigger] set[i])
}

/// True iff `suffix` is a tail of `s`.
pub open spec fn is_suffix(suffix: Seq<char>, s: Seq<char>) -> bool {
    suffix.len() <= s.len() && s.skip(s.len() - suffix.len()) == suffix
}

/// The character sequences of a list of strings.
pub open spec fn views(xs: Seq<&str>) -> Seq<Seq<char>> {
    xs.map_values(|x: &str| x@)
}

/// True iff `e` is one of the entries of `table`.
pub open spec fn listed_in(e: Seq<char>, table: Seq<Seq<char>>) -> bool {
    table.contains(e)
}

/// Relies on `str::to_lowercase`: its result depends on the characters alone.
#[verifier::external_body]
pub(crate) fn lowercase(s: &str) -> (r: String)
    ensures
        r@ == lower_of(s@),
{
    s.to_lowercase()
}

/// Relies on `str::trim`: its result depends on the characters alone.
#[verifier::external_body]
pub(crate) fn trim(s: &str) -> (r: &str)
    ensures
        r@ == trim_of(s@),
{
    s.trim()
}

/// Relies on `str::rsplit_once` with the delimiter `'.'`: `None` when there is
/// no dot, else the text before and the text after the last dot.
#[verifier::external_body]
pub(crate) fn split_last_dot(s: &str) -> (r: Option<(&str, &str)>)
    ensures
        r is None <==> !s@.contains('.'),
        r matches Some((a, b)) ==> s@ == a@ + seq!['.'] + b@ && !b@.contains('.'),
{
    s.rsplit_once('.')
}

/// The characters of `s`, in order.
pub(crate) fn chars_of(s: &str) -> (v: Vec<char>)
    ensures
        v@ == s@,
{
    let mut v: Vec<char> = Vec::new();
    for c in it: s.chars()
        invariant
            v@ == it.seq().take(it.index() as int),
    {
        v.push(c);
    }
    v
}

/// Whether `c` occurs in `v`.
pub(crate) fn contains_char(v: &Vec<char>, c: char) -> (r: bool)
    ensures
        r == v@.contains(c),
{
    let mut i: usize = 0;
    while i < v.len()
        invariant
            i <= v.len(),
            forall|k: int| 0 <= k < i ==> v@[k] != c,
        decreases v.len() - i,
    {
        if v[i] == c {
            return true;
        }
        i += 1;
    }
    false
}

/// Whether any character of `set` occurs in `v`.
pub(crate) fn has_any(v: &Vec<char>, set: &[char]) -> (r: bool)
    ensures
        r == has_any_of(v@, set@),
{
    let mut i: usize = 0;
    while i < set.len()
        invariant
            i <= set.len(),
            forall|k: int| 0 <= k < i ==> !v@.contains(#[trigger] set@[k]),
        decreases set.len() - i,
    {
        if contains_char(v, set[i]) {
            return true;
        }
        i += 1;
    }
    false
}

/// Whether `suffix` is a tail of `v`.
pub(crate) fn ends_with_chars(v: &Vec<char>, suffix: &Vec<char>) -> (r: bool)
    ensures
        r == is_suffix(suffix@, v@),
{
    if suffix.len() > v.len() {
        return false;
    }
    let start: usize = v.len() - suffix.len();
    let mut i: usize = 0;
    while i < suffix.len()
        invariant
            start + suffix.len() == v.len(),
            i <= suffix.len(),
            forall|k: int| 0 <= k < i ==> v@[start + k] == suffix@[k],
        decreases suffix.len() - i,
    {
        if v[start + i] != suffix[i] {
            assert(v@.skip(start as int)[i as int] != suffix@[i as int]);
            return false;
        }
        i += 1;
    }
    assert(v@.skip(start as int) =~= suffix@);
    true
}

/// Whether `a` and `b` hold the same characters.
pub(crate) fn same_text(a: &str, b: &str) -> (r: bool)
    ensures
        r == (a@ == b@),
{
    let x = chars_of(a);
    let y = chars_of(b);
    if x.len() != y.len() {
        return false;
    }
    let mut i: usize = 0;
    while i < x.len()
        invariant
            x@ == a@,
            y@ == b@,
            x.len() == y.len(),
            i <= x.len(),
            forall|k: int| 0 <= k < i ==> x@[k] == y@[k],
        decreases x.len() - i,
    {
        if x[i] != y[i] {
            assert(x@[i as int] != y@[i as int]);
            return false;
        }
        i += 1;
    }
    assert(x@ =~= y@);
    true
}

/// Whether `e` is one of the strings of `table`.
pub fn listed(e: &str, table: &[&str]) -> (r: bool)
    ensures
        r == listed_in(e@, views(table@)),
{
    let mut i: usize = 0;
    while i < table.len()
        invariant
            i <= table.len(),
            forall|k: int| 0 <= k < i ==> table@[k]@ != e@,
        decreases table.len() - i,
    {
        if same_text(table[i], e) {
            assert(views(table@)[i as int] == e@);
            return true;
        }
        i += 1;
    }
    assert(!views(table@).contains(e@)) by {
        if views(table@).contains(e@) {
            let k = choose|k: int| 0 <= k < views(table@).len() && views(table@)[k] == e@;
            assert(table@[k]@ == e@);
        }
    }
    false
}

} // verus!
