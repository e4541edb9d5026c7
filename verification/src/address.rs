//! Identities of the parties to a stream.
//!
//! The ledger never looks inside an identity: it only asks whether two of
//! them are the same party. An identity is either an account or a contract,
//! each named by a 32-byte key.

use vstd::prelude::*;

verus! {

/// The two kinds of party that can hold an [`Address`].
#[derive(Clone, Copy, Debug, PartialEq, Eq, Structural, Hash)]
pub enum AddressKind {
    /// An account, named by its public key.
    Account,
    /// A contract, named by its hash.
    Contract,
}

/// An opaque identity: a sender, a recipient, an asset or the ledger's own
/// custody account. Two addresses are the same party exactly when they have
/// the same kind and the same key.
#[derive(Clone, Copy, Debug, Eq, Hash)]
pub struct Address {
    pub kind: AddressKind,
    pub key: [u8; 32],
}

impl PartialEq for Address {
    fn eq(&self, other: &Address) -> (same: bool) {
        if self.kind != other.kind {
            return false;
        }
        let mut i: usize = 0;
        while i < 32
            invariant
                i <= 32,
                forall|j: int| 0 <= j < i ==> self.key[j] == other.key[j],
            decreases 32 - i,
        {
            if self.key[i] != other.key[i] {
                return false;
            }
            i += 1;
        }
        assert(self.key@ =~= other.key@);
        assert(self.key == other.key);
        true
    }
}

impl vstd::std_specs::cmp::PartialEqSpecImpl for Address {
    open spec fn obeys_eq_spec() -> bool {
        true
    }

    open spec fn eq_spec(&self, other: &Address) -> bool {
        *self == *other
    }
}

} // verus!
