//! Key and hash value types shared by the whole library.

use vstd::prelude::*;

verus! {

broadcast use vstd::array::group_array_axioms;

/// A 32-byte account address, as the host ledger identifies accounts,
/// collections, assets, proposals and voters.
pub type Pubkey = [u8; 32];

/// A 32-byte hash value: a Merkle tree node or a content digest.
pub type Node = [u8; 32];

/// Byte-wise equality of two 32-byte keys.
pub fn pubkey_eq(a: &Pubkey, b: &Pubkey) -> (r: bool)
    ensures
        r == (*a == *b),
{
    let mut i: usize = 0;
    while i < 32
        invariant
            i <= 32,
            forall|j: int| 0 <= j < i ==> a@[j] == b@[j],
        decreases 32 - i,
    {
        if a[i] != b[i] {
            return false;
        }
        i += 1;
    }
    assert(*a =~= *b);
    true
}

} // verus!
