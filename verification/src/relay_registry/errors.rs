use vstd::prelude::*;

verus! {

/// Every way an operation of the stake ledger can be refused. A refusal is a
/// value handed back to the caller; the store that the operation was asked
/// to change is left exactly as it was.
#[derive(Copy, Clone, Debug, PartialEq, Eq, Structural, PartialOrd, Ord)]
pub enum ContractError {
    /// Node address is already registered in the registry.
    AlreadyRegistered,
    /// Node address is not found in the registry.
    NotRegistered,
    /// Stake amount is not positive, exceeds what is held, or leaves the
    /// node below the protocol minimum.
    InsufficientStake,
    /// Operation requires the node to be in Active status.
    NodeNotActive,
    /// Operation is blocked because the node has been slashed.
    NodeSlashed,
    /// Withdrawal attempted before the lock on the funds has run out.
    StakeLocked,
    /// Caller is not authorized to slash this node.
    UnauthorizedSlash,
    /// Provided metadata fails validation.
    InvalidMetadata,
    /// Arithmetic on a stake or on a time left its range.
    Overflow,
    /// Caller may not change the registry's settings.
    Unauthorized,
}

} // verus!
