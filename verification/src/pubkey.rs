//! Ledger identities.

use vstd::prelude::*;

verus! {

/// The identity of a ledger participant: 32 opaque bytes.
///
/// An identity is both the subject of an authorization and a stored field
/// (owner, sender, recipient). Its view is the sequence of its bytes.
#[derive(Debug, Clone, Copy, Eq)]
pub struct Pubkey {
    pub bytes: [u8; 32],
}

impl View for Pubkey {
    type V = Seq<u8>;

    open spec fn view(&self) -> Seq<u8> {
        self.bytes@
    }
}

impl Pubkey {
    /// The identity made of the given bytes.
    pub fn new_from_array(bytes: [u8; 32]) -> (key: Pubkey)
        ensures
            key.bytes == bytes,
            key@ == bytes@,
    {
        Pubkey { bytes }
    }

    /// The bytes of this identity.
    pub fn to_bytes(&self) -> (bytes: [u8; 32])
        ensures
            bytes == self.bytes,
            bytes@ == self@,
    {
        self.bytes
    }
}

impl PartialEq for Pubkey {
    /// Byte-wise comparison.
    fn eq(&self, other: &Pubkey) -> (r: bool) {
        let mut i: usize = 0;
        while i < 32
            invariant
                i <= 32,
                forall|j: int| 0 <= j < i ==> self.bytes[j] == other.bytes[j],
            decreases 32 - i,
        {
            if self.bytes[i] != other.bytes[i] {
                return false;
            }
            i += 1;
        }
        assert(self@ =~= other@);
        true
    }
}

impl vstd::std_specs::cmp::PartialEqSpecImpl for Pubkey {
    open spec fn obeys_eq_spec() -> bool {
        true
    }

    open spec fn eq_spec(&self, other: &Pubkey) -> bool {
        self@ == other@
    }
}

} // verus!
