//! Character-level helpers shared by the parsers and renderers.

use vstd::prelude::*;

verus! {

/// The views of a sequence of strings.
pub open spec fn str_views(v: Seq<String>) -> Seq<Seq<char>> {
    v.map_values(|s: String| s@)
}

/// `sep` occurs in `s` starting at position `i`.
pub open spec fn occurs_at(s: Seq<char>, sep: Seq<char>, i: int) -> bool {
    0 <= i && i + sep.len() <= s.len() && s.subrange(i, i + sep.len()) == sep
}

/// The first position at or after `from` where `sep` occurs in `s`.
pub open spec fn find_from(s: Seq<char>, sep: Seq<char>, from: int) -> Option<int>
    decreases s.len() + 1 - from,
{
    if from < 0 || from + sep.len() > s.len() {
        None
    } else if occurs_at(s, sep, from) {
        Some(from)
    } else {
        find_from(s, sep, from + 1)
    }
}

/// A position that `find_from` gives is an occurrence, and none lies
/// between `from` and it.
pub proof fn lemma_find_from(s: Seq<char>, sep: Seq<char>, from: int)
    requires
        0 <= from,
    ensures
        match find_from(s, sep, from) {
            Some(i) => from <= i && occurs_at(s, sep, i)
                && forall|j: int| from <= j < i ==> !occurs_at(s, sep, j),
            None => forall|j: int| from <= j ==> !occurs_at(s, sep, j),
        },
    decreases s.len() + 1 - from,
{
    if from + sep.len() > s.len() {
    } else if !occurs_at(s, sep, from) {
        lemma_find_from(s, sep, from + 1);
    }
}

/// The first position where `sep` occurs in `s`.
pub open spec fn find(s: Seq<char>, sep: Seq<char>) -> Option<int> {
    find_from(s, sep, 0)
}

/// Whether two strings hold the same characters.
pub fn same_text(a: &str, b: &str) -> (r: bool)
    ensures
        r == (a@ == b@),
{
    let n = a.unicode_len();
    if n != b.unicode_len() {
        return false;
    }
    let mut i: usize = 0;
    while i < n
        invariant
            n == a@.len(),
            n == b@.len(),
            i <= n,
            forall|j: int| 0 <= j < i ==> a@[j] == b@[j],
        decreases n - i,
    {
        if a.get_char(i) != b.get_char(i) {
            return false;
        }
        i = i + 1;
    }
    assert(a@ =~= b@);
    true
}

/// Whether `sep` occurs in `s` at character position `i`.
fn occurs_here(s: &str, n: usize, sep: &str, m: usize, i: usize) -> (r: bool)
    requires
        n == s@.len(),
        m == sep@.len(),
        i + m <= n,
    ensures
        r == occurs_at(s@, sep@, i as int),
{
    let mut k: usize = 0;
    while k < m
        invariant
            n == s@.len(),
            m == sep@.len(),
            i + m <= n,
            k <= m,
            forall|j: int| 0 <= j < k ==> s@[i + j] == sep@[j],
        decreases m - k,
    {
        if s.get_char(i + k) != sep.get_char(k) {
            assert(s@.subrange(i as int, i + m)[k as int] != sep@[k as int]);
            return false;
        }
        k = k + 1;
    }
    assert(s@.subrange(i as int, i + m) =~= sep@);
    true
}

/// The first character position where `sep` occurs in `s`.
pub fn find_text(s: &str, sep: &str) -> (r: Option<usize>)
    ensures
        match r {
            Some(i) => find(s@, sep@) == Some(i as int) && i + sep@.len() <= s@.len(),
            None => find(s@, sep@) is None,
        },
{
    let n = s.unicode_len();
    let m = sep.unicode_len();
    proof {
        lemma_find_from(s@, sep@, 0);
    }
    if m > n {
        return None;
    }
    let last = n - m;
    let mut i: usize = 0;
    while i < last
        invariant
            n == s@.len(),
            m == sep@.len(),
            last == n - m,
            i <= last,
            find(s@, sep@) == find_from(s@, sep@, i as int),
        decreases last - i,
    {
        if occurs_here(s, n, sep, m, i) {
            return Some(i);
        }
        i = i + 1;
    }
    if occurs_here(s, n, sep, m, last) {
        Some(last)
    } else {
        assert(find_from(s@, sep@, last + 1) is None);
        None
    }
}

} // verus!
