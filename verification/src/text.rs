//! Character-level text operations: substring search, counting distinct
//! characters, and lower-casing.

use vstd::prelude::*;

verus! {

/// Whether `needle` stands in `hay` starting at position `at`.
pub open spec fn occurs_at(hay: Seq<char>, needle: Seq<char>, at: int) -> bool {
    &&& 0 <= at
    &&& at + needle.len() <= hay.len()
    &&& hay.subrange(at, at + needle.len()) == needle
}

/// Whether `needle` stands somewhere in `hay` as a contiguous run.
pub open spec fn occurs_in(hay: Seq<char>, needle: Seq<char>) -> bool {
    exists|at: int| occurs_at(hay, needle, at)
}

/// The texts of a list of strings, in order.
pub open spec fn views(pool: Seq<String>) -> Seq<Seq<char>> {
    pool.map_values(|s: String| s@)
}

/// The characters of a string, in order.
pub fn chars_of(s: &str) -> (v: Vec<char>)
    ensures
        v@ == s@,
{
    let mut v: Vec<char> = Vec::new();
    for c in it: s.chars()
        invariant
            it.seq() == s@,
            v@ == it.seq().take(it.index()),
    {
        v.push(c);
    }
    v
}

/// Whether two strings hold the same characters.
pub fn same_text(a: &str, b: &str) -> (same: bool)
    ensures
        same == (a@ == b@),
{
    let left = chars_of(a);
    let right = chars_of(b);
    if left.len() != right.len() {
        return false;
    }
    let mut i: usize = 0;
    while i < left.len()
        invariant
            i <= left.len(),
            left.len() == right.len(),
            left@ == a@,
            right@ == b@,
            forall|j: int| 0 <= j < i ==> left@[j] == right@[j],
        decreases left.len() - i,
    {
        if left[i] != right[i] {
            return false;
        }
        i += 1;
    }
    assert(left@ =~= right@);
    true
}

/// Whether `needle` stands in `hay` at position `at`.
pub fn matches_at(hay: &Vec<char>, needle: &Vec<char>, at: usize) -> (found: bool)
    requires
        at + needle.len() <= hay.len(),
    ensures
        found == occurs_at(hay@, needle@, at as int),
{
    let mut k: usize = 0;
    while k < needle.len()
        invariant
            k <= needle.len(),
            at + needle.len() <= hay.len(),
            forall|j: int| 0 <= j < k ==> hay@[at + j] == needle@[j],
        decreases needle.len() - k,
    {
        if hay[at + k] != needle[k] {
            return false;
        }
        k += 1;
    }
    assert(hay@.subrange(at as int, at + needle@.len()) =~= needle@);
    true
}

/// Whether `needle` stands somewhere in `hay`. The empty needle stands in
/// every text.
pub fn contains(hay: &Vec<char>, needle: &str) -> (found: bool)
    ensures
        found == occurs_in(hay@, needle@),
{
    let pattern = chars_of(needle);
    if pattern.len() > hay.len() {
        return false;
    }
    let last: usize = hay.len() - pattern.len();
    let mut at: usize = 0;
    loop
        invariant
            at <= last,
            last == hay.len() - pattern.len(),
            pattern.len() <= hay.len(),
            pattern@ == needle@,
            forall|j: int| 0 <= j < at ==> !occurs_at(hay@, needle@, j),
        decreases last - at,
    {
        if matches_at(hay, &pattern, at) {
            return true;
        }
        if at == last {
            return false;
        }
        at += 1;
    }
}

/// The number of different characters in `text`.
pub fn distinct_chars(text: &Vec<char>) -> (count: usize)
    ensures
        count == text@.to_set().len(),
{
    let mut seen: Vec<char> = Vec::new();
    let mut i: usize = 0;
    while i < text.len()
        invariant
            i <= text.len(),
            seen@.no_duplicates(),
            seen@.to_set() == text@.take(i as int).to_set(),
            seen.len() <= i,
        decreases text.len() - i,
    {
        let c = text[i];
        let known = holds(&seen, c);
        proof {
            let before = text@.take(i as int);
            assert(text@.take(i + 1) =~= before.push(c));
            before.lemma_push_to_set_commute(c);
            seen@.lemma_push_to_set_commute(c);
        }
        if !known {
            seen.push(c);
        }
        i += 1;
    }
    proof {
        assert(text@.take(text@.len() as int) =~= text@);
        seen@.unique_seq_to_set();
    }
    seen.len()
}

/// Whether `c` is one of `items`.
fn holds(items: &Vec<char>, c: char) -> (found: bool)
    ensures
        found == items@.contains(c),
{
    let mut i: usize = 0;
    while i < items.len()
        invariant
            i <= items.len(),
            forall|j: int| 0 <= j < i ==> items@[j] != c,
        decreases items.len() - i,
    {
        if items[i] == c {
            return true;
        }
        i += 1;
    }
    false
}

/// The lower-case form of a text, as the standard library's Unicode tables
/// define it.
pub uninterp spec fn lowercase_of(text: Seq<char>) -> Seq<char>;

/// Calls `str::to_lowercase`. The contract only gives the result its name:
/// the standard library defines the result by Unicode's lower-case mapping,
/// so it depends on the text alone, and nothing more is claimed of it.
#[verifier::external_body]
pub(crate) fn to_lowercase(text: &str) -> (lowered: String)
    ensures
        lowered@ == lowercase_of(text@),
{
    text.to_lowercase()
}

} // verus!
