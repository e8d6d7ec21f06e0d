//! Character-level string comparison and substring search.

use vstd::prelude::*;
use vstd::string::StrSliceExecFns;

verus! {

/// Whether `needle` occurs in `haystack` starting at character index `at`.
pub open spec fn occurs_at(haystack: Seq<char>, needle: Seq<char>, at: int) -> bool {
    &&& 0 <= at
    &&& at + needle.len() <= haystack.len()
    &&& haystack.subrange(at, at + needle.len()) == needle
}

/// Whether `needle` occurs anywhere in `haystack`.
pub open spec fn contains_seq(haystack: Seq<char>, needle: Seq<char>) -> bool {
    exists|at: int| occurs_at(haystack, needle, at)
}

/// Character-wise string equality.
pub fn str_eq(a: &str, b: &str) -> (r: bool)
    ensures
        r == (a@ == b@),
{
    let a_len: usize = a.unicode_len();
    let b_len: usize = b.unicode_len();
    if a_len != b_len {
        return false;
    }
    let mut i: usize = 0;
    while i < a_len
        invariant
            a_len == a@.len(),
            a@.len() == b@.len(),
            i <= a_len,
            forall|j: int| 0 <= j < i ==> a@[j] == b@[j],
        decreases a_len - i,
    {
        if a.get_char(i) != b.get_char(i) {
            return false;
        }
        i = i + 1;
    }
    proof {
        assert(a@ =~= b@);
    }
    true
}

/// Whether the characters of `haystack` starting at `at` spell `needle`.
fn matches_at(haystack: &str, needle: &str, at: usize) -> (r: bool)
    requires
        at + needle@.len() <= haystack@.len(),
    ensures
        r == occurs_at(haystack@, needle@, at as int),
{
    let h_len: usize = haystack.unicode_len();
    let n_len: usize = needle.unicode_len();
    let mut j: usize = 0;
    while j < n_len
        invariant
            h_len == haystack@.len(),
            n_len == needle@.len(),
            at + n_len <= h_len,
            j <= n_len,
            forall|k: int| 0 <= k < j ==> haystack@[at + k] == needle@[k],
        decreases n_len - j,
    {
        if haystack.get_char(at + j) != needle.get_char(j) {
            proof {
                assert(haystack@.subrange(at as int, at + needle@.len())[j as int]
                    != needle@[j as int]);
            }
            return false;
        }
        j = j + 1;
    }
    proof {
        assert(haystack@.subrange(at as int, at + needle@.len()) =~= needle@);
    }
    true
}

/// Character-wise substring search.
pub fn str_contains(haystack: &str, needle: &str) -> (r: bool)
    ensures
        r == contains_seq(haystack@, needle@),
{
    let h_len: usize = haystack.unicode_len();
    let n_len: usize = needle.unicode_len();
    if n_len > h_len {
        return false;
    }
    if n_len == 0 {
        proof {
            assert(haystack@.subrange(0, 0) =~= needle@);
            assert(occurs_at(haystack@, needle@, 0));
        }
        return true;
    }
    let mut at: usize = 0;
    while at <= h_len - n_len
        invariant
            h_len == haystack@.len(),
            n_len == needle@.len(),
            0 < n_len <= h_len,
            at <= h_len - n_len + 1,
            forall|p: int| 0 <= p < at ==> !occurs_at(haystack@, needle@, p),
        decreases h_len - at,
    {
        if matches_at(haystack, needle, at) {
            return true;
        }
        at = at + 1;
    }
    proof {
        assert(forall|p: int| occurs_at(haystack@, needle@, p) ==> 0 <= p <= h_len - n_len);
    }
    false
}

} // verus!
