//! Substring search over strings, character by character.
//!
//! Native device identifiers may carry suffixes, so microphone selection
//! matches by substring, not by exact equality.

use vstd::prelude::*;

verus! {

/// `needle` occurs in `hay` starting at character position `i`.
pub open spec fn match_at(hay: Seq<char>, needle: Seq<char>, i: int) -> bool {
    &&& 0 <= i
    &&& i + needle.len() <= hay.len()
    &&& hay.subrange(i, i + needle.len() as int) == needle
}

/// `needle` occurs somewhere in `hay`.
pub open spec fn contains_seq(hay: Seq<char>, needle: Seq<char>) -> bool {
    exists|i: int| match_at(hay, needle, i)
}

/// `needle` occurs in `hay` exactly at position `start`.
fn matches_at(hay: &str, needle: &str, start: usize) -> (r: bool)
    requires
        start + needle@.len() <= hay@.len(),
    ensures
        r == match_at(hay@, needle@, start as int),
{
    let hlen: usize = hay.unicode_len();
    let nlen: usize = needle.unicode_len();
    let mut j: usize = 0;
    while j < nlen
        invariant
            j <= nlen,
            hlen == hay@.len(),
            nlen == needle@.len(),
            start + nlen <= hlen,
            forall|k: int| 0 <= k < j ==> hay@[start + k] == needle@[k],
        decreases nlen - j,
    {
        if hay.get_char(start + j) != needle.get_char(j) {
            proof {
                if match_at(hay@, needle@, start as int) {
                    assert(hay@.subrange(start as int, start + needle@.len() as int)[j as int]
                        == needle@[j as int]);
                }
            }
            return false;
        }
        j = j + 1;
    }
    proof {
        assert(hay@.subrange(start as int, start + needle@.len() as int) =~= needle@);
    }
    true
}

/// `needle` is a substring of `hay` (the empty needle is a substring of
/// every string).
pub fn str_contains(hay: &str, needle: &str) -> (r: bool)
    ensures
        r == contains_seq(hay@, needle@),
{
    let hlen: usize = hay.unicode_len();
    let nlen: usize = needle.unicode_len();
    if nlen > hlen {
        proof {
            assert(forall|i: int| !match_at(hay@, needle@, i));
        }
        return false;
    }
    if nlen == 0 {
        proof {
            assert(hay@.subrange(0, 0) =~= needle@);
            assert(match_at(hay@, needle@, 0));
        }
        return true;
    }
    let mut start: usize = 0;
    while start <= hlen - nlen
        invariant
            1 <= nlen <= hlen,
            hlen == hay@.len(),
            nlen == needle@.len(),
            start <= hlen - nlen + 1,
            forall|i: int| i < start ==> !match_at(hay@, needle@, i),
        decreases hlen - nlen + 1 - start,
    {
        if matches_at(hay, needle, start) {
            proof {
                assert(contains_seq(hay@, needle@));
            }
            return true;
        }
        start = start + 1;
    }
    proof {
        assert forall|i: int| !match_at(hay@, needle@, i) by {
            if start <= i {
                assert(i + needle@.len() > hay@.len());
            }
        }
    }
    false
}

} // verus!
