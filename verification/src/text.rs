//! Verified helpers on character sequences: case-insensitive comparison
//! and substring search, the ground the classifier and the page readers
//! stand on.

use vstd::prelude::*;
use vstd::string::StrSliceExecFns;

verus! {

/// The code point a character lowers to under ASCII case folding.
pub open spec fn lower_cp(c: char) -> int {
    if 'A' <= c && c <= 'Z' {
        c as int + 32
    } else {
        c as int
    }
}

/// Two character sequences are equal up to ASCII case.
pub open spec fn eq_ci(a: Seq<char>, b: Seq<char>) -> bool {
    a.len() == b.len() && forall|i: int| 0 <= i < a.len() ==> lower_cp(a[i]) == lower_cp(b[i])
}

/// `pat` occurs in `s` starting at position `i`.
pub open spec fn occurs_at(s: Seq<char>, pat: Seq<char>, i: int) -> bool {
    0 <= i && i + pat.len() <= s.len() && (forall|j: int|
        0 <= j < pat.len() ==> s[i + j] == pat[j])
}

/// The first position at or after `from` where `pat` occurs in `s`.
pub open spec fn find_spec(s: Seq<char>, pat: Seq<char>, from: int) -> Option<int>
    decreases s.len() - from,
{
    if from < 0 || from + pat.len() > s.len() {
        None
    } else if occurs_at(s, pat, from) {
        Some(from)
    } else {
        find_spec(s, pat, from + 1)
    }
}

/// Whatever `find_spec` returns is a first occurrence: it is one, and no
/// position between `from` and it is one.
pub proof fn lemma_find_spec_correct(s: Seq<char>, pat: Seq<char>, from: int)
    requires
        0 <= from,
    ensures
        find_spec(s, pat, from) matches Some(i) ==> from <= i && occurs_at(s, pat, i)
            && (forall|j: int| from <= j < i ==> !occurs_at(s, pat, j)),
        find_spec(s, pat, from) is None ==> forall|j: int| from <= j ==> !occurs_at(s, pat, j),
    decreases s.len() - from,
{
    if from + pat.len() > s.len() {
        assert forall|j: int| from <= j implies !occurs_at(s, pat, j) by {}
    } else if occurs_at(s, pat, from) {
    } else {
        lemma_find_spec_correct(s, pat, from + 1);
    }
}

/// Compare one character of a string against one of a pattern, up to case.
fn char_eq_ci(a: char, b: char) -> (r: bool)
    ensures
        r == (lower_cp(a) == lower_cp(b)),
{
    let x: u32 = if 'A' <= a && a <= 'Z' {
        a as u32 + 32
    } else {
        a as u32
    };
    let y: u32 = if 'A' <= b && b <= 'Z' {
        b as u32 + 32
    } else {
        b as u32
    };
    x == y
}

/// Case-insensitive equality of `b` against the tail of `a` that starts at
/// character `off`.
pub fn eq_ci_at(a: &str, off: usize, b: &str) -> (r: bool)
    requires
        off + b@.len() == a@.len(),
    ensures
        r == eq_ci(a@.skip(off as int), b@),
{
    let n = a.unicode_len();
    let m = b.unicode_len();
    let mut j: usize = 0;
    while j < m
        invariant
            n == a@.len(),
            off + m == n,
            m == b@.len(),
            0 <= j <= m,
            forall|k: int| 0 <= k < j ==> lower_cp(a@[off + k]) == lower_cp(b@[k]),
        decreases m - j,
    {
        if !char_eq_ci(a.get_char(off + j), b.get_char(j)) {
            assert(a@.skip(off as int)[j as int] == a@[off + j]);
            return false;
        }
        j += 1;
    }
    assert forall|k: int| 0 <= k < b@.len() implies lower_cp(a@.skip(off as int)[k]) == lower_cp(
        b@[k],
    ) by {
        assert(a@.skip(off as int)[k] == a@[off + k]);
    }
    true
}

/// Exact equality of `b` against the tail of `a` that starts at character
/// `off`.
pub fn eq_at(a: &str, off: usize, b: &str) -> (r: bool)
    requires
        off + b@.len() == a@.len(),
    ensures
        r == (a@.skip(off as int) == b@),
{
    let n = a.unicode_len();
    let m = b.unicode_len();
    let mut j: usize = 0;
    while j < m
        invariant
            n == a@.len(),
            off + m == n,
            m == b@.len(),
            0 <= j <= m,
            forall|k: int| 0 <= k < j ==> a@[off + k] == b@[k],
        decreases m - j,
    {
        if a.get_char(off + j) != b.get_char(j) {
            assert(a@.skip(off as int)[j as int] == a@[off + j]);
            return false;
        }
        j += 1;
    }
    assert(a@.skip(off as int) =~= b@);
    true
}

/// Whether `pat` occurs in `s` at character position `i`.
fn matches_at(s: &str, pat: &str, i: usize) -> (r: bool)
    requires
        i + pat@.len() <= s@.len(),
    ensures
        r == occurs_at(s@, pat@, i as int),
{
    let n = s.unicode_len();
    let m = pat.unicode_len();
    let mut j: usize = 0;
    while j < m
        invariant
            n == s@.len(),
            i + m <= n,
            m == pat@.len(),
            0 <= j <= m,
            forall|k: int| 0 <= k < j ==> s@[i + k] == pat@[k],
        decreases m - j,
    {
        if s.get_char(i + j) != pat.get_char(j) {
            return false;
        }
        j += 1;
    }
    true
}

/// The first occurrence of `pat` in `s` at or after character `from`.
pub fn find_from(s: &str, from: usize, pat: &str) -> (r: Option<usize>)
    ensures
        r matches Some(i) ==> find_spec(s@, pat@, from as int) == Some(i as int) && from <= i && i
            + pat@.len() <= s@.len() <= usize::MAX,
        r is None ==> find_spec(s@, pat@, from as int) is None,
{
    let n = s.unicode_len();
    let m = pat.unicode_len();
    if m > n || from > n - m {
        return None;
    }
    let mut i: usize = from;
    while i <= n - m
        invariant
            n == s@.len(),
            m == pat@.len(),
            m <= n,
            from <= i,
            i <= n,
            find_spec(s@, pat@, from as int) == find_spec(s@, pat@, i as int),
        decreases n - i,
    {
        if matches_at(s, pat, i) {
            return Some(i);
        }
        i += 1;
    }
    None
}

/// The view of an optional owned string.
pub open spec fn view_opt(o: Option<String>) -> Option<Seq<char>> {
    match o {
        Some(s) => Some(s@),
        None => None,
    }
}

} // verus!
