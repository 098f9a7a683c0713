//! Fixed-width record addresses and actor identities.
use vstd::prelude::*;

verus! {

/// A 32-byte identifier. It names a record's storage location, and it also
/// names an actor (the identity that signs an operation).
#[derive(Clone, Copy, Debug, PartialEq, Eq)]
pub struct Address {
    pub bytes: [u8; 32],
}

impl Address {
    /// The address with the given bytes.
    pub fn new(bytes: [u8; 32]) -> (r: Address)
        ensures
            r.bytes == bytes,
    {
        Address { bytes }
    }

    /// The all-zero address, held by records whose identity fields were never set.
    pub fn zero() -> (r: Address)
        ensures
            forall|i: int| 0 <= i < 32 ==> r.bytes[i] == 0u8,
    {
        Address { bytes: [0u8; 32] }
    }

    /// Byte-wise comparison of two addresses.
    pub fn same_as(&self, other: &Address) -> (r: bool)
        ensures
            r == (*self == *other),
    {
        let mut i: usize = 0;
        while i < 32
            invariant
                0 <= i <= 32,
                forall|k: int| 0 <= k < i ==> self.bytes[k] == other.bytes[k],
            decreases 32 - i,
        {
            if self.bytes[i] != other.bytes[i] {
                return false;
            }
            i = i + 1;
        }
        proof {
            assert(self.bytes =~= other.bytes);
        }
        true
    }
}

} // verus!
