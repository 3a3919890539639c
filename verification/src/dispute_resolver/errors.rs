use vstd::prelude::*;

verus! {

/// Every way an operation of the arbitration engine can be refused. A
/// refusal is a value handed back to the caller; the store that the
/// operation was asked to change is left exactly as it was.
#[derive(Copy, Clone, Debug, PartialEq, Eq, Structural, PartialOrd, Ord)]
pub enum ContractError {
    /// No dispute is filed under the given identifier.
    DisputeNotFound,
    /// The dispute has already reached a terminal state.
    DisputeAlreadyResolved,
    /// The dispute passed its deadline before the counter-proof arrived.
    DisputeExpired,
    /// The dispute is still open and inside its resolution window, or no
    /// ruling has been issued for it yet.
    DisputeNotResolvable,
    /// The calling party has already submitted a proof for this dispute.
    ProofAlreadySubmitted,
    /// The submitted relay chain proof fails verification.
    InvalidProof,
    /// Caller may not perform this operation.
    Unauthorized,
    /// A dispute for this transaction is already in progress.
    TxAlreadyDisputed,
    /// Arithmetic on a deadline or on a dispute identifier left its range.
    Overflow,
}

} // verus!
