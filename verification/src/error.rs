//! The ways in which a call fails. Every failure ends the call.

use vstd::prelude::*;

verus! {

/// Why a call on the ledger failed.
#[derive(Clone, Copy, Debug, PartialEq, Eq, Structural)]
pub enum ActorError {
    /// The caller may not do this.
    Forbidden,
    /// An address does not resolve, a transfer names its own sender, or an amount is negative.
    InvalidArgument,
    /// Parameters or state could not be encoded or decoded.
    SerializationError,
    /// The state root is absent or unreadable, or the balance map failed.
    IllegalState,
    /// The sender holds less than the amount to transfer.
    InsufficientFunds,
    /// Minting would issue more than the supply cap allows.
    InsufficientSupplyCap,
    /// The method selector names no operation.
    UnhandledMethod,
}

/// Why an operation on the balance map failed.
#[derive(Clone, Copy, Debug, PartialEq, Eq, Structural)]
pub enum MapError {
    /// A root or a node does not resolve, or does not hold a valid map.
    StateCorruption,
    /// The store refused a write.
    StorageWriteError,
}

/// The exit code that the host is given for each failure: the host's code for
/// the kind of failure where it has one, and for a mint beyond the cap the first
/// code above those that the host keeps for common failures.
pub open spec fn exit_code_of(error: ActorError) -> u32 {
    match error {
        ActorError::InvalidArgument => 16,
        ActorError::Forbidden => 18,
        ActorError::InsufficientFunds => 19,
        ActorError::IllegalState => 20,
        ActorError::SerializationError => 21,
        ActorError::UnhandledMethod => 22,
        ActorError::InsufficientSupplyCap => 32,
    }
}

impl ActorError {
    /// The exit code with which the call aborts.
    pub fn exit_code(&self) -> (code: u32)
        ensures
            code == exit_code_of(*self),
            code >= 16,
    {
        match self {
            ActorError::InvalidArgument => 16,
            ActorError::Forbidden => 18,
            ActorError::InsufficientFunds => 19,
            ActorError::IllegalState => 20,
            ActorError::SerializationError => 21,
            ActorError::UnhandledMethod => 22,
            ActorError::InsufficientSupplyCap => 32,
        }
    }
}

/// Any failure of the balance map leaves the call in an illegal state.
pub fn map_failure(error: MapError) -> (failure: ActorError)
    ensures
        failure == ActorError::IllegalState,
{
    match error {
        MapError::StateCorruption => ActorError::IllegalState,
        MapError::StorageWriteError => ActorError::IllegalState,
    }
}

} // verus!
