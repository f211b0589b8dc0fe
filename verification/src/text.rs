//! Character-level helpers over string views.
use vstd::prelude::*;

verus! {

/// `needle` occurs in `hay` at character position `at`.
pub open spec fn occurs_at(hay: Seq<char>, needle: Seq<char>, at: int) -> bool {
    &&& 0 <= at
    &&& at + needle.len() <= hay.len()
    &&& hay.subrange(at, at + needle.len()) == needle
}

/// `needle` occurs somewhere in `hay`.
pub open spec fn contains_seq(hay: Seq<char>, needle: Seq<char>) -> bool {
    exists|at: int| occurs_at(hay, needle, at)
}

/// Whether `needle` occurs in `hay` at character position `at`.
pub fn matches_at(hay: &str, at: usize, needle: &str) -> (b: bool)
    ensures
        b == occurs_at(hay@, needle@, at as int),
{
    let n = hay.unicode_len();
    let m = needle.unicode_len();
    if at > n || m > n - at {
        return false;
    }
    let mut k: usize = 0;
    while k < m
        invariant
            k <= m,
            m == needle@.len(),
            n == hay@.len(),
            at + m <= n,
            forall|j: int| 0 <= j < k ==> hay@[at + j] == needle@[j],
        decreases m - k,
    {
        if hay.get_char(at + k) != needle.get_char(k) {
            assert(hay@.subrange(at as int, at + m)[k as int] != needle@[k as int]);
            return false;
        }
        k += 1;
    }
    assert(hay@.subrange(at as int, at + m) =~= needle@);
    true
}

/// Whether `needle` occurs anywhere in `hay`.
pub fn contains_str(hay: &str, needle: &str) -> (b: bool)
    ensures
        b == contains_seq(hay@, needle@),
{
    let n = hay.unicode_len();
    let m = needle.unicode_len();
    if m > n {
        assert forall|a: int| !occurs_at(hay@, needle@, a) by {}
        return false;
    }
    let last = n - m;
    let mut at: usize = 0;
    loop
        invariant
            m <= n,
            last == n - m,
            m == needle@.len(),
            n == hay@.len(),
            at <= last,
            forall|a: int| 0 <= a < at ==> !occurs_at(hay@, needle@, a),
        decreases last - at,
    {
        if matches_at(hay, at, needle) {
            return true;
        }
        if at == last {
            assert forall|a: int| !occurs_at(hay@, needle@, a) by {
                if 0 <= a < at {
                }
            }
            return false;
        }
        at += 1;
    }
}

/// Whether the characters of `s` in `start..end` are exactly `lit`.
pub fn segment_is(s: &str, start: usize, end: usize, lit: &str) -> (b: bool)
    requires
        start <= end <= s@.len(),
    ensures
        b == (s@.subrange(start as int, end as int) == lit@),
{
    let m = lit.unicode_len();
    if end - start != m {
        return false;
    }
    let r = matches_at(s, start, lit);
    assert(s@.subrange(start as int, end as int) == s@.subrange(start as int, start + m));
    r
}

/// Whether the characters of `s` in `start..end` begin with `lit`.
pub fn segment_starts_with(s: &str, start: usize, end: usize, lit: &str) -> (b: bool)
    requires
        start <= end <= s@.len(),
    ensures
        b == occurs_at(s@.subrange(start as int, end as int), lit@, 0),
{
    let m = lit.unicode_len();
    if m > end - start {
        return false;
    }
    let r = matches_at(s, start, lit);
    assert(s@.subrange(start as int, end as int).subrange(0, m as int) =~= s@.subrange(
        start as int,
        start + m,
    ));
    r
}

} // verus!
