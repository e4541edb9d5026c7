//! The keys under which the ledger keeps its records.

use vstd::prelude::*;

verus! {

/// The key of one record in the ledger's store.
#[derive(Clone, Copy, Debug, PartialEq, Eq, Structural, Hash)]
pub enum DataKey {
    /// The stream with the given id.
    Stream(u64),
    /// The number of streams created so far.
    StreamCounter,
    /// The registered administrator.
    Admin,
    /// The emergency-stop flag.
    EmergencyStop,
}

impl DataKey {
    /// The name of the key's variant.
    pub open spec fn spec_name(self) -> Seq<char> {
        match self {
            DataKey::Stream(_) => "Stream"@,
            DataKey::StreamCounter => "StreamCounter"@,
            DataKey::Admin => "Admin"@,
            DataKey::EmergencyStop => "EmergencyStop"@,
        }
    }

    /// The name of the key's variant, the first part of the key as it is
    /// written to durable storage.
    pub fn name(&self) -> (name: &'static str)
        ensures
            name@ == self.spec_name(),
    {
        match self {
            DataKey::Stream(_) => "Stream",
            DataKey::StreamCounter => "StreamCounter",
            DataKey::Admin => "Admin",
            DataKey::EmergencyStop => "EmergencyStop",
        }
    }
}

} // verus!
