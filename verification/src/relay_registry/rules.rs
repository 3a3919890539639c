use vstd::prelude::*;
use crate::relay_registry::errors::ContractError;
use crate::relay_registry::storage::LedgerModel;
use crate::relay_registry::types::{MetadataModel, NodeModel, NodeStatus, PendingModel};

verus! {

// ---------------------------------------------------------------------------
// Registration
// ---------------------------------------------------------------------------

/// Why a registration is refused, or `None` where it goes through.
pub open spec fn register_refusal(
    ledger: LedgerModel,
    address: Seq<char>,
    metadata: MetadataModel,
) -> Option<ContractError> {
    if ledger.nodes.contains_key(address) {
        Some(ContractError::AlreadyRegistered)
    } else if !metadata.valid() {
        Some(ContractError::InvalidMetadata)
    } else if ledger.node_count >= u32::MAX {
        Some(ContractError::Overflow)
    } else {
        None
    }
}

/// The record of a node that registers at `now`: it is bonded with the
/// minimum stake and starts out active.
pub open spec fn registered_node(
    ledger: LedgerModel,
    address: Seq<char>,
    metadata: MetadataModel,
    now: nat,
) -> NodeModel {
    NodeModel {
        address,
        stake: ledger.min_stake,
        status: NodeStatus::Active,
        metadata,
        registered_at: now,
        last_active: now,
    }
}

/// The ledger after a registration that went through.
pub open spec fn after_register(
    ledger: LedgerModel,
    address: Seq<char>,
    metadata: MetadataModel,
    now: nat,
) -> LedgerModel {
    ledger.with_node(address, registered_node(ledger, address, metadata, now)).with_node_count(
        ledger.node_count + 1,
    )
}

// ---------------------------------------------------------------------------
// Staking
// ---------------------------------------------------------------------------

/// Why a deposit of `amount` is refused, or `None` where it goes through.
pub open spec fn stake_refusal(ledger: LedgerModel, address: Seq<char>, amount: int) -> Option<
    ContractError,
> {
    if amount <= 0 {
        Some(ContractError::InsufficientStake)
    } else if !ledger.nodes.contains_key(address) {
        Some(ContractError::NotRegistered)
    } else if ledger.nodes[address].status == NodeStatus::Slashed {
        Some(ContractError::NodeSlashed)
    } else if ledger.nodes[address].stake + amount > i128::MAX {
        Some(ContractError::Overflow)
    } else if ledger.nodes[address].stake + amount < ledger.min_stake {
        Some(ContractError::InsufficientStake)
    } else {
        None
    }
}

/// The record of `node` after a deposit of `amount` at `now`.
pub open spec fn staked_node(node: NodeModel, amount: int, now: nat) -> NodeModel {
    NodeModel { stake: node.stake + amount, status: NodeStatus::Active, last_active: now, ..node }
}

/// The ledger after a deposit that went through.
pub open spec fn after_stake(ledger: LedgerModel, address: Seq<char>, amount: int, now: nat) -> LedgerModel {
    ledger.with_node(address, staked_node(ledger.nodes[address], amount, now))
}

// ---------------------------------------------------------------------------
// Unstaking
// ---------------------------------------------------------------------------

/// The amount that is already locked for withdrawal under `address`.
pub open spec fn locked_amount(ledger: LedgerModel, address: Seq<char>) -> int {
    if ledger.pending.contains_key(address) {
        ledger.pending[address].amount
    } else {
        0
    }
}

/// Why a request to unstake `amount` at `now` is refused, or `None` where it
/// goes through.
pub open spec fn unstake_refusal(
    ledger: LedgerModel,
    address: Seq<char>,
    amount: int,
    now: nat,
) -> Option<ContractError> {
    if amount <= 0 {
        Some(ContractError::InsufficientStake)
    } else if !ledger.nodes.contains_key(address) {
        Some(ContractError::NotRegistered)
    } else if ledger.nodes[address].status == NodeStatus::Slashed {
        Some(ContractError::NodeSlashed)
    } else if amount > ledger.nodes[address].stake {
        Some(ContractError::InsufficientStake)
    } else if now + ledger.lock_period > u64::MAX {
        Some(ContractError::Overflow)
    } else if locked_amount(ledger, address) + amount > i128::MAX || locked_amount(ledger, address)
        + amount < i128::MIN {
        Some(ContractError::Overflow)
    } else {
        None
    }
}

/// The record of `node` after `amount` has been taken out of its stake at
/// `now`: a node left below the minimum stake becomes inactive.
pub open spec fn unstaked_node(node: NodeModel, amount: int, min_stake: int, now: nat) -> NodeModel {
    NodeModel {
        stake: node.stake - amount,
        status: if node.stake - amount < min_stake {
            NodeStatus::Inactive
        } else {
            node.status
        },
        last_active: now,
        ..node
    }
}

/// The pending withdrawal under `address` once a request for `amount` made
/// at `now` has joined what was locked before: the amounts add up, and all of
/// it is locked for a full lock period from `now`.
pub open spec fn pending_after_unstake(
    ledger: LedgerModel,
    address: Seq<char>,
    amount: int,
    now: nat,
) -> PendingModel {
    PendingModel {
        address,
        amount: locked_amount(ledger, address) + amount,
        unlocks_at: now + ledger.lock_period,
    }
}

/// The ledger after a request to unstake that went through.
pub open spec fn after_unstake(ledger: LedgerModel, address: Seq<char>, amount: int, now: nat) -> LedgerModel {
    ledger.with_node(
        address,
        unstaked_node(ledger.nodes[address], amount, ledger.min_stake, now),
    ).with_pending(address, pending_after_unstake(ledger, address, amount, now))
}

// ---------------------------------------------------------------------------
// Finalizing a withdrawal
// ---------------------------------------------------------------------------

/// Why the withdrawal locked under `address` cannot be finalized at `now`,
/// or `None` where it can.
pub open spec fn finalize_refusal(ledger: LedgerModel, address: Seq<char>, now: nat) -> Option<
    ContractError,
> {
    if !ledger.nodes.contains_key(address) {
        Some(ContractError::NotRegistered)
    } else if ledger.nodes[address].status == NodeStatus::Slashed {
        Some(ContractError::NodeSlashed)
    } else if !ledger.pending.contains_key(address) {
        Some(ContractError::InsufficientStake)
    } else if now < ledger.pending[address].unlocks_at {
        Some(ContractError::StakeLocked)
    } else {
        None
    }
}

/// The ledger after a withdrawal was finalized.
pub open spec fn after_finalize(ledger: LedgerModel, address: Seq<char>) -> LedgerModel {
    ledger.without_pending(address)
}

// ---------------------------------------------------------------------------
// Slashing
// ---------------------------------------------------------------------------

/// Why a slash is refused, or `None` where it goes through.
pub open spec fn slash_refusal(ledger: LedgerModel, address: Seq<char>) -> Option<ContractError> {
    if !ledger.nodes.contains_key(address) {
        Some(ContractError::NotRegistered)
    } else if ledger.nodes[address].status == NodeStatus::Slashed {
        Some(ContractError::NodeSlashed)
    } else {
        None
    }
}

/// The record of `node` after it was slashed at `now`.
pub open spec fn slashed_node(node: NodeModel, now: nat) -> NodeModel {
    NodeModel { stake: 0, status: NodeStatus::Slashed, last_active: now, ..node }
}

/// The ledger after a slash that went through: the stake is gone, and so is
/// whatever was locked for withdrawal.
pub open spec fn after_slash(ledger: LedgerModel, address: Seq<char>, now: nat) -> LedgerModel {
    ledger.with_node(address, slashed_node(ledger.nodes[address], now)).without_pending(address)
}

/// Whether `caller` may slash `address` by override: only the registry's
/// administrator may, and never the node itself.
pub open spec fn may_override_slash(ledger: LedgerModel, caller: Seq<char>, address: Seq<char>) -> bool {
    caller == ledger.admin && caller != address
}

/// Why a slash by override is refused, or `None` where it goes through.
pub open spec fn admin_slash_refusal(
    ledger: LedgerModel,
    caller: Seq<char>,
    address: Seq<char>,
) -> Option<ContractError> {
    if !may_override_slash(ledger, caller, address) {
        Some(ContractError::UnauthorizedSlash)
    } else {
        slash_refusal(ledger, address)
    }
}

/// Whether `caller` may slash `address`: the arbitration engine may, which
/// is `arbiter` where the registry has been told of one, and beside it only
/// the administrator by override.
pub open spec fn may_slash(
    ledger: LedgerModel,
    caller: Seq<char>,
    arbiter: Option<Seq<char>>,
    address: Seq<char>,
) -> bool {
    arbiter == Some(caller) || may_override_slash(ledger, caller, address)
}

/// Why a slash on the word of `caller` is refused, or `None` where it goes
/// through.
pub open spec fn authorized_slash_refusal(
    ledger: LedgerModel,
    caller: Seq<char>,
    arbiter: Option<Seq<char>>,
    address: Seq<char>,
) -> Option<ContractError> {
    if !may_slash(ledger, caller, arbiter, address) {
        Some(ContractError::UnauthorizedSlash)
    } else {
        slash_refusal(ledger, address)
    }
}

// ---------------------------------------------------------------------------
// Settings
// ---------------------------------------------------------------------------

/// Why a new minimum stake is refused, or `None` where it is taken.
pub open spec fn min_stake_refusal(ledger: LedgerModel, caller: Seq<char>, min_stake: int) -> Option<
    ContractError,
> {
    if caller != ledger.admin {
        Some(ContractError::Unauthorized)
    } else if min_stake < 0 {
        Some(ContractError::InsufficientStake)
    } else {
        None
    }
}

/// Why a new lock period is refused, or `None` where it is taken.
pub open spec fn lock_period_refusal(ledger: LedgerModel, caller: Seq<char>) -> Option<
    ContractError,
> {
    if caller != ledger.admin {
        Some(ContractError::Unauthorized)
    } else {
        None
    }
}

} // verus!
