//! Thirty-two byte identities: account addresses and authenticated callers.

use vstd::prelude::*;
use vstd::std_specs::cmp::PartialEqSpecImpl;

verus! {

/// An account address, or the identity of a caller that the host has
/// authenticated. Two identities are the same exactly when their bytes are.
#[derive(Clone, Copy, Debug, Eq)]
pub struct Identity {
    pub bytes: [u8; 32],
}

impl View for Identity {
    type V = Seq<u8>;

    open spec fn view(&self) -> Seq<u8> {
        self.bytes@
    }
}

impl Identity {
    /// Wraps the raw bytes of an address.
    pub fn new(bytes: [u8; 32]) -> (id: Identity)
        ensures
            id.bytes == bytes,
            id@ == bytes@,
    {
        Identity { bytes }
    }

    /// The raw bytes of the address.
    pub fn to_bytes(&self) -> (bytes: [u8; 32])
        ensures
            bytes == self.bytes,
    {
        self.bytes
    }

    /// An identity is determined by the sequence of its bytes.
    pub proof fn lemma_view_determines(a: Identity, b: Identity)
        ensures
            (a@ == b@) <==> (a == b),
    {
        if a@ == b@ {
            assert forall|i: int| 0 <= i < 32 implies a.bytes[i] == b.bytes[i] by {
                assert(a.bytes[i] == a@[i]);
                assert(b.bytes[i] == b@[i]);
            }
            assert(a.bytes =~= b.bytes);
        }
    }
}

impl PartialEq for Identity {
    fn eq(&self, other: &Identity) -> (same: bool) {
        let mut i: usize = 0;
        while i < 32
            invariant
                i <= 32,
                forall|j: int| 0 <= j < i ==> self.bytes[j] == other.bytes[j],
            decreases 32 - i,
        {
            if self.bytes[i] != other.bytes[i] {
                return false;
            }
            i += 1;
        }
        proof {
            assert(self.bytes =~= other.bytes);
        }
        true
    }
}

impl PartialEqSpecImpl for Identity {
    open spec fn obeys_eq_spec() -> bool {
        true
    }

    open spec fn eq_spec(&self, other: &Identity) -> bool {
        *self == *other
    }
}

} // verus!
