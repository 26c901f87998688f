//! Character-level string operations that the pipeline's decisions rest on:
//! equality, substring containment, and prefix and suffix tests.

use vstd::prelude::*;
use vstd::string::StrSliceExecFns;

verus! {

/// The pattern `pat` occurs in `s` starting at position `i`.
pub open spec fn match_at(s: Seq<char>, pat: Seq<char>, i: int) -> bool {
    0 <= i && i + pat.len() <= s.len() && s.subrange(i, i + pat.len() as int) == pat
}

/// The pattern `pat` occurs somewhere in `s` (substring containment).
pub open spec fn contains_seq(s: Seq<char>, pat: Seq<char>) -> bool {
    exists|i: int| match_at(s, pat, i)
}

/// `s` begins with the prefix `p`.
pub open spec fn starts_with_seq(s: Seq<char>, p: Seq<char>) -> bool {
    p.len() <= s.len() && s.subrange(0, p.len() as int) == p
}

/// `s` ends with the suffix `p`.
pub open spec fn ends_with_seq(s: Seq<char>, p: Seq<char>) -> bool {
    p.len() <= s.len() && s.subrange(s.len() - p.len(), s.len() as int) == p
}

/// Character-by-character string equality.
pub fn str_eq(a: &str, b: &str) -> (r: bool)
    ensures
        r == (a@ == b@),
{
    let alen = a.unicode_len();
    let blen = b.unicode_len();
    if alen != blen {
        return false;
    }
    let mut i: usize = 0;
    while i < alen
        invariant
            alen == a@.len(),
            blen == b@.len(),
            alen == blen,
            i <= alen,
            forall|j: int| 0 <= j < i ==> a@[j] == b@[j],
        decreases alen - i,
    {
        if a.get_char(i) != b.get_char(i) {
            return false;
        }
        i += 1;
    }
    proof {
        assert(a@ =~= b@);
    }
    true
}

/// The pattern occurs in `s` at position `i`.
fn is_match_at(s: &str, pat: &str, i: usize) -> (r: bool)
    requires
        i + pat@.len() <= s@.len(),
    ensures
        r == match_at(s@, pat@, i as int),
{
    let slen = s.unicode_len();
    let plen = pat.unicode_len();
    let mut j: usize = 0;
    while j < plen
        invariant
            slen == s@.len(),
            plen == pat@.len(),
            i + plen <= slen,
            j <= plen,
            forall|k: int| 0 <= k < j ==> s@[i + k] == pat@[k],
        decreases plen - j,
    {
        if s.get_char(i + j) != pat.get_char(j) {
            proof {
                assert(s@.subrange(i as int, i + plen as int)[j as int] != pat@[j as int]);
            }
            return false;
        }
        j += 1;
    }
    proof {
        assert(s@.subrange(i as int, i + plen as int) =~= pat@);
    }
    true
}

/// Substring search: does `s` contain `pat` anywhere?
pub fn contains_sub(s: &str, pat: &str) -> (r: bool)
    ensures
        r == contains_seq(s@, pat@),
{
    let slen = s.unicode_len();
    let plen = pat.unicode_len();
    if plen > slen {
        proof {
            assert(forall|i: int| !match_at(s@, pat@, i));
        }
        return false;
    }
    if plen == 0 {
        proof {
            assert(s@.subrange(0, 0) =~= pat@);
            assert(match_at(s@, pat@, 0));
        }
        return true;
    }
    let mut i: usize = 0;
    while i <= slen - plen
        invariant
            slen == s@.len(),
            plen == pat@.len(),
            0 < plen <= slen,
            i <= slen - plen + 1,
            forall|j: int| 0 <= j < i ==> !match_at(s@, pat@, j),
        decreases slen - plen - i + 1,
    {
        if is_match_at(s, pat, i) {
            return true;
        }
        i += 1;
    }
    proof {
        assert(forall|j: int| j > slen - plen ==> !match_at(s@, pat@, j));
    }
    false
}

/// Prefix test: does `s` start with `p`?
pub fn starts_with_sub(s: &str, p: &str) -> (r: bool)
    ensures
        r == starts_with_seq(s@, p@),
{
    let slen = s.unicode_len();
    let plen = p.unicode_len();
    if plen > slen {
        return false;
    }
    is_match_at(s, p, 0)
}

/// Suffix test: does `s` end with `p`?
pub fn ends_with_sub(s: &str, p: &str) -> (r: bool)
    ensures
        r == ends_with_seq(s@, p@),
{
    let slen = s.unicode_len();
    let plen = p.unicode_len();
    if plen > slen {
        return false;
    }
    is_match_at(s, p, slen - plen)
}

} // verus!
