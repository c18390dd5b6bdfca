//! Byte-level substring search, used for the host's advertised-name filter.
//!
//! Matching is done on UTF-8 bytes. For valid UTF-8 (which Rust strings
//! always are), a byte-level occurrence of one string inside another
//! coincides exactly with character-level containment, since UTF-8 is
//! self-synchronizing.

use vstd::prelude::*;
use vstd::string::StringSliceAdditionalSpecFns;

verus! {

/// `needle` occurs in `hay` starting at position `i`.
pub open spec fn is_match_at(hay: Seq<u8>, needle: Seq<u8>, i: int) -> bool {
    0 <= i && i + needle.len() <= hay.len() && hay.subrange(i, i + needle.len()) == needle
}

/// `needle` occurs somewhere in `hay` (anywhere, including the empty
/// needle, which occurs in every sequence).
pub open spec fn contains_seq(hay: Seq<u8>, needle: Seq<u8>) -> bool {
    exists|i: int| is_match_at(hay, needle, i)
}

/// Does `needle` occur in `hay` starting exactly at `i`?
fn match_at(hay: &[u8], needle: &[u8], i: usize) -> (r: bool)
    requires
        i + needle@.len() <= hay@.len(),
    ensures
        r == is_match_at(hay@, needle@, i as int),
{
    let n = needle.len();
    let h = hay.len();
    let mut j: usize = 0;
    while j < n
        invariant
            n == needle@.len(),
            h == hay@.len(),
            i + n <= h,
            0 <= j <= n,
            forall|k: int| 0 <= k < j ==> hay@[i + k] == needle@[k],
        decreases n - j,
    {
        if hay[i + j] != needle[j] {
            assert(hay@.subrange(i as int, i + n) != needle@) by {
                assert(hay@.subrange(i as int, i + n)[j as int] == hay@[i + j]);
            }
            return false;
        }
        j += 1;
    }
    assert(hay@.subrange(i as int, i + n) =~= needle@);
    true
}

/// Whether `needle` occurs anywhere in `hay`, by scanning every
/// candidate position from the left.
pub fn contains_bytes(hay: &[u8], needle: &[u8]) -> (r: bool)
    ensures
        r == contains_seq(hay@, needle@),
{
    let n = needle.len();
    let h = hay.len();
    if n > h {
        assert(forall|i: int| !is_match_at(hay@, needle@, i));
        return false;
    }
    if n == 0 {
        assert(hay@.subrange(0, 0) =~= needle@);
        assert(is_match_at(hay@, needle@, 0));
        return true;
    }
    let mut i: usize = 0;
    while i <= h - n
        invariant
            n == needle@.len(),
            h == hay@.len(),
            1 <= n <= h,
            0 <= i <= h - n + 1,
            forall|k: int| 0 <= k < i ==> !is_match_at(hay@, needle@, k),
        decreases h - n + 1 - i,
    {
        if match_at(hay, needle, i) {
            return true;
        }
        i += 1;
    }
    assert(forall|k: int| !is_match_at(hay@, needle@, k));
    false
}

/// Whether `filter` occurs in `name`, compared on their UTF-8 bytes.
pub fn str_contains(name: &str, filter: &str) -> (r: bool)
    ensures
        r == contains_seq(name.spec_bytes(), filter.spec_bytes()),
{
    contains_bytes(name.as_bytes(), filter.as_bytes())
}

} // verus!
