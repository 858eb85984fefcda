//! The identity of a party that approves or vetoes.

use vstd::prelude::*;

verus! {

/// Number of bytes in an identity.
pub const IDENTITY_LEN: usize = 32;

/// An authenticated principal, as 32 opaque bytes.
///
/// The lock never interprets the bytes: it only tells identities apart.
#[derive(Clone, Copy, Debug, Eq)]
pub struct Identity(pub [u8; 32]);

impl View for Identity {
    type V = Seq<u8>;

    open spec fn view(&self) -> Seq<u8> {
        self.0@
    }
}

impl Identity {
    /// Wraps 32 bytes as an identity.
    pub fn new(bytes: [u8; 32]) -> (id: Identity)
        ensures
            id == Identity(bytes),
            id@ == bytes@,
    {
        Identity(bytes)
    }

    /// The 32 bytes of the identity.
    pub fn to_bytes(&self) -> (bytes: [u8; 32])
        ensures
            bytes == self.0,
            bytes@ == self@,
    {
        self.0
    }
}

/// Two identities are the same value exactly when their bytes agree.
pub proof fn lemma_identity_by_bytes(a: Identity, b: Identity)
    ensures
        (a == b) <==> (a@ == b@),
{
    broadcast use vstd::array::group_array_axioms;

    if a@ == b@ {
        assert forall|i: int| 0 <= i < IDENTITY_LEN implies a.0[i] == b.0[i] by {
            assert(a.0[i] == a@[i]);
            assert(b.0[i] == b@[i]);
        }
        assert(a.0 =~= b.0);
    }
}

impl PartialEq for Identity {
    /// Compares byte by byte.
    fn eq(&self, other: &Identity) -> (same: bool) {
        let mut i: usize = 0;
        while i < IDENTITY_LEN
            invariant
                i <= IDENTITY_LEN,
                forall|k: int| 0 <= k < i ==> self.0[k] == other.0[k],
            decreases IDENTITY_LEN - i,
        {
            if self.0[i] != other.0[i] {
                proof {
                    lemma_identity_by_bytes(*self, *other);
                }
                return false;
            }
            i += 1;
        }
        proof {
            lemma_identity_by_bytes(*self, *other);
            assert(self@ =~= other@);
        }
        true
    }
}

impl vstd::std_specs::cmp::PartialEqSpecImpl for Identity {
    open spec fn obeys_eq_spec() -> bool {
        true
    }

    open spec fn eq_spec(&self, other: &Identity) -> bool {
        *self == *other
    }
}

} // verus!
