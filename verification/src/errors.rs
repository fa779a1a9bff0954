//! The error taxonomy shared by every core operation.
//!
//! Every operation is a total function from inputs to success or one of
//! these typed failures; nothing panics and nothing is retried.

use vstd::prelude::*;

use crate::types::EscrowState;

verus! {

/// A typed failure of a core operation.
///
/// Transition failures carry the state that was found and the state that
/// was asked for, so callers can present a precise diagnostic.
#[derive(Debug, Clone, PartialEq, Eq)]
pub enum EscrowError {
    /// No escrow record exists under the given identifier.
    NotFound(u128),
    /// The operation is not valid in the record's current state.
    InvalidStateTransition { from: EscrowState, to: EscrowState },
    /// The offered funding does not cover the escrowed amount.
    InsufficientFunds { required: u64, provided: u64 },
    /// The acting user is not entitled to this operation.
    Unauthorized(u128),
    /// The presented release PIN does not match the stored one.
    InvalidPin,
    /// The escrow's deadline has passed.
    Expired,
    /// The acting user is not in the escrow's arbitrator panel.
    NotArbitrator,
    /// The arbitrator already has a vote recorded on this dispute.
    AlreadyVoted,
    /// The dispute has already been decided.  Part of the shared
    /// taxonomy; the state machine itself reports a vote on a settled
    /// record as an `InvalidStateTransition`, since the record has left
    /// the dispute state.
    DisputeAlreadyResolved,
    /// An input failed a validation rule; the detail says which.
    ValidationError(String),
    /// The storage collaborator failed; the detail is its message.
    StorageError(String),
}

} // verus!
