//! The ways an operation on the ledger can be refused.

use vstd::prelude::*;

verus! {

/// Why an operation was refused. A refused operation changes nothing.
#[derive(Clone, Copy, Debug, PartialEq, Eq, Structural, Hash)]
pub enum StreamError {
    /// A non-positive amount or a zero duration, or nothing left to claim.
    InvalidAmount,
    /// No stream is recorded under the given id.
    StreamNotFound,
    /// The caller is not the party the operation is reserved for, or no
    /// administrator has been registered.
    Unauthorized,
    /// The stream has already been drained or cancelled.
    StreamInactive,
    /// An administrator is already registered.
    AlreadyInitialized,
    /// The caller is not the registered administrator.
    NotAdmin,
    /// The emergency stop is on.
    EmergencyStopEnabled,
}

impl StreamError {
    /// The number under which the error is reported to callers outside.
    pub open spec fn spec_code(self) -> u32 {
        match self {
            StreamError::InvalidAmount => 1,
            StreamError::StreamNotFound => 2,
            StreamError::Unauthorized => 3,
            StreamError::StreamInactive => 4,
            StreamError::AlreadyInitialized => 5,
            StreamError::NotAdmin => 6,
            StreamError::EmergencyStopEnabled => 7,
        }
    }

    /// The number under which the error is reported to callers outside.
    #[verifier::when_used_as_spec(spec_code)]
    pub fn code(self) -> (code: u32)
        ensures
            code == self.spec_code(),
    {
        match self {
            StreamError::InvalidAmount => 1,
            StreamError::StreamNotFound => 2,
            StreamError::Unauthorized => 3,
            StreamError::StreamInactive => 4,
            StreamError::AlreadyInitialized => 5,
            StreamError::NotAdmin => 6,
            StreamError::EmergencyStopEnabled => 7,
        }
    }
}

} // verus!
