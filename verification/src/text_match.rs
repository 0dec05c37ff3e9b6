//! Substring matching on byte sequences.
//!
//! Protected names and process image paths are held as UTF-8 byte vectors;
//! the policy question "does this path mention that name" is byte-level
//! substring containment, the match being case-sensitive.

use vstd::prelude::*;

verus! {

/// The needle `nee` occurs in `hay` starting at offset `i`.
pub open spec fn matches_at(hay: Seq<u8>, nee: Seq<u8>, i: int) -> bool {
    0 <= i && i + nee.len() <= hay.len() && hay.subrange(i, i + nee.len() as int) == nee
}

/// `hay` contains `nee` as a contiguous run of bytes.  The empty needle
/// occurs in every haystack, at offset zero.
pub open spec fn contains_seq(hay: Seq<u8>, nee: Seq<u8>) -> bool {
    exists|i: int| matches_at(hay, nee, i)
}

/// Whether the needle occurs at one given offset, by direct comparison.
fn matches_here(hay: &Vec<u8>, nee: &Vec<u8>, i: usize) -> (r: bool)
    requires
        i + nee@.len() <= hay@.len(),
    ensures
        r == matches_at(hay@, nee@, i as int),
{
    let hay_len: usize = hay.len();
    let mut j: usize = 0;
    while j < nee.len()
        invariant
            0 <= j <= nee@.len(),
            i + nee@.len() <= hay@.len(),
            hay@.len() == hay_len,
            forall|k: int| 0 <= k < j ==> hay@[i + k] == nee@[k],
        decreases nee@.len() - j,
    {
        if hay[i + j] != nee[j] {
            assert(hay@.subrange(i as int, i + nee@.len() as int)[j as int] != nee@[j as int]);
            return false;
        }
        j = j + 1;
    }
    assert(hay@.subrange(i as int, i + nee@.len() as int) =~= nee@);
    true
}

/// Linear scan for `nee` anywhere in `hay`.
pub fn contains_bytes(hay: &Vec<u8>, nee: &Vec<u8>) -> (r: bool)
    ensures
        r == contains_seq(hay@, nee@),
{
    let hay_len: usize = hay.len();
    let nee_len: usize = nee.len();
    if nee_len == 0 {
        assert(hay@.subrange(0, 0) =~= nee@);
        assert(matches_at(hay@, nee@, 0));
        return true;
    }
    if nee_len > hay_len {
        assert(forall|i: int| !matches_at(hay@, nee@, i));
        return false;
    }
    let last: usize = hay_len - nee_len;
    let mut i: usize = 0;
    while i <= last
        invariant
            1 <= nee@.len() <= hay@.len(),
            hay@.len() == hay_len,
            last == hay_len - nee_len,
            nee@.len() == nee_len,
            0 <= i <= last + 1,
            forall|k: int| 0 <= k < i ==> !matches_at(hay@, nee@, k),
        decreases last + 1 - i,
    {
        if matches_here(hay, nee, i) {
            return true;
        }
        i = i + 1;
    }
    assert(forall|k: int| matches_at(hay@, nee@, k) ==> 0 <= k <= last);
    false
}

} // verus!
