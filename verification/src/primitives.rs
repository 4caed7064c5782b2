//! The plain values that every component shares.

use vstd::prelude::*;

verus! {

/// The content hash of a block.
pub type BlockHash = [u8; 32];

/// The identity of an account: its public key.
#[derive(Clone, Copy, Debug, PartialEq, Eq)]
pub struct AccountId(pub [u8; 32]);

impl View for AccountId {
    type V = Seq<u8>;

    open spec fn view(&self) -> Seq<u8> {
        self.0@
    }
}

impl AccountId {
    /// Whether both values name the same account.
    pub fn same_as(&self, other: &AccountId) -> (same: bool)
        ensures
            same == (self@ == other@),
            same == (*self == *other),
    {
        let mut i: usize = 0;
        while i < 32
            invariant
                i <= 32,
                forall|k: int| 0 <= k < i ==> self.0[k] == other.0[k],
            decreases 32 - i,
        {
            if self.0[i] != other.0[i] {
                return false;
            }
            i += 1;
        }
        assert(self.0@ =~= other.0@);
        assert(self.0 =~= other.0);
        true
    }
}

/// A block as the anchor of a set of reads: its height and its hash.
#[derive(Clone, Copy, Debug, PartialEq, Eq)]
pub struct HeadReference {
    pub number: u32,
    pub hash: BlockHash,
}

} // verus!
