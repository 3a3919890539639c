//! What holds of the stake ledger over every course of operations.

use vstd::prelude::*;
use crate::relay_registry::rules::{
    after_finalize, after_register, after_slash, after_stake, after_unstake,
    authorized_slash_refusal, finalize_refusal, locked_amount, min_stake_refusal,
    register_refusal, slash_refusal, stake_refusal, unstake_refusal,
};
use crate::relay_registry::errors::ContractError;
use crate::relay_registry::storage::LedgerModel;
use crate::relay_registry::types::{MetadataModel, NodeStatus};

verus! {

/// One request to the stake ledger.
pub ghost enum LedgerOp {
    Register { address: Seq<char>, metadata: MetadataModel },
    Stake { address: Seq<char>, amount: int },
    Unstake { address: Seq<char>, amount: int },
    Finalize { address: Seq<char> },
    Slash { address: Seq<char> },
}

impl LedgerOp {
    /// The node that the request is about.
    pub open spec fn target(self) -> Seq<char> {
        match self {
            LedgerOp::Register { address, .. } => address,
            LedgerOp::Stake { address, .. } => address,
            LedgerOp::Unstake { address, .. } => address,
            LedgerOp::Finalize { address } => address,
            LedgerOp::Slash { address } => address,
        }
    }

    /// Why the ledger refuses the request at `now`, or `None` where it goes
    /// through.
    pub open spec fn refusal(self, ledger: LedgerModel, now: nat) -> Option<ContractError> {
        match self {
            LedgerOp::Register { address, metadata } => register_refusal(ledger, address, metadata),
            LedgerOp::Stake { address, amount } => stake_refusal(ledger, address, amount),
            LedgerOp::Unstake { address, amount } => unstake_refusal(ledger, address, amount, now),
            LedgerOp::Finalize { address } => finalize_refusal(ledger, address, now),
            LedgerOp::Slash { address } => slash_refusal(ledger, address),
        }
    }

    /// What the request pays into the ledger at `now`: the bond of a
    /// registration, the amount of a deposit, and nothing where the request
    /// is refused or is of another kind.
    pub open spec fn deposit(self, ledger: LedgerModel, now: nat) -> int {
        if self.refusal(ledger, now) is Some {
            0
        } else {
            match self {
                LedgerOp::Register { .. } => ledger.min_stake,
                LedgerOp::Stake { amount, .. } => amount,
                _ => 0,
            }
        }
    }
}

/// The ledger after `op` was requested at `now`: changed as the operation
/// says where it goes through, and as it was where it is refused.
pub open spec fn step(ledger: LedgerModel, op: LedgerOp, now: nat) -> LedgerModel {
    if op.refusal(ledger, now) is Some {
        ledger
    } else {
        match op {
            LedgerOp::Register { address, metadata } => after_register(
                ledger,
                address,
                metadata,
                now,
            ),
            LedgerOp::Stake { address, amount } => after_stake(ledger, address, amount, now),
            LedgerOp::Unstake { address, amount } => after_unstake(ledger, address, amount, now),
            LedgerOp::Finalize { address } => after_finalize(ledger, address),
            LedgerOp::Slash { address } => after_slash(ledger, address, now),
        }
    }
}

/// The ledger after a course of requests, each made at the time paired with
/// it, starting from `ledger`.
pub open spec fn run(ledger: LedgerModel, course: Seq<(LedgerOp, nat)>) -> LedgerModel
    decreases course.len(),
{
    if course.len() == 0 {
        ledger
    } else {
        step(run(ledger, course.drop_last()), course.last().0, course.last().1)
    }
}

/// All that a course of requests paid into the ledger for the node
/// `address`.
pub open spec fn deposits(ledger: LedgerModel, course: Seq<(LedgerOp, nat)>, address: Seq<char>) -> int
    decreases course.len(),
{
    if course.len() == 0 {
        0
    } else {
        deposits(ledger, course.drop_last(), address) + if course.last().0.target() == address {
            course.last().0.deposit(run(ledger, course.drop_last()), course.last().1)
        } else {
            0
        }
    }
}

/// The stake that the ledger holds for `address`; nothing for an address
/// that is not registered.
pub open spec fn stake_of(ledger: LedgerModel, address: Seq<char>) -> int {
    if ledger.nodes.contains_key(address) {
        ledger.nodes[address].stake
    } else {
        0
    }
}

/// All that the ledger holds for `address`: its stake and what it has locked
/// for withdrawal.
pub open spec fn holdings(ledger: LedgerModel, address: Seq<char>) -> int {
    stake_of(ledger, address) + locked_amount(ledger, address)
}

/// The invariant of the stake ledger. The minimum stake is not negative;
/// every record is filed under its own address; no stake is negative; a
/// slashed node holds no stake; an active node holds the minimum stake at
/// least; and only a registered node that was not slashed has anything
/// locked for withdrawal.
pub open spec fn consistent(ledger: LedgerModel) -> bool {
    &&& ledger.min_stake >= 0
    &&& forall|address: Seq<char>| #[trigger]
        ledger.nodes.contains_key(address) ==> {
            &&& ledger.nodes[address].address == address
            &&& ledger.nodes[address].stake >= 0
            &&& ledger.nodes[address].status == NodeStatus::Slashed
                ==> ledger.nodes[address].stake == 0
            &&& ledger.nodes[address].status == NodeStatus::Active ==> ledger.nodes[address].stake
                >= ledger.min_stake
        }
    &&& forall|address: Seq<char>| #[trigger]
        ledger.pending.contains_key(address) ==> {
            &&& ledger.pending[address].address == address
            &&& ledger.pending[address].amount > 0
            &&& ledger.nodes.contains_key(address)
            &&& ledger.nodes[address].status != NodeStatus::Slashed
        }
}

/// A ledger that was just set up is consistent.
pub proof fn law_initial_ledger_consistent(admin: Seq<char>)
    ensures
        consistent(LedgerModel::initial(admin)),
{
}

/// One request keeps the ledger consistent, and raises what the ledger holds
/// for any node by no more than the request paid in for that node.
pub proof fn law_step_conserves(ledger: LedgerModel, op: LedgerOp, now: nat, address: Seq<char>)
    requires
        consistent(ledger),
    ensures
        consistent(step(ledger, op, now)),
        stake_of(step(ledger, op, now), address) >= 0,
        holdings(step(ledger, op, now), address) <= holdings(ledger, address) + if op.target()
            == address {
            op.deposit(ledger, now)
        } else {
            0
        },
{
    let next = step(ledger, op, now);
    if op.refusal(ledger, now) is None {
        let target = op.target();
        assert forall|other: Seq<char>| #[trigger]
            next.nodes.contains_key(other) implies {
            &&& next.nodes[other].address == other
            &&& next.nodes[other].stake >= 0
            &&& next.nodes[other].status == NodeStatus::Slashed ==> next.nodes[other].stake == 0
            &&& next.nodes[other].status == NodeStatus::Active ==> next.nodes[other].stake
                >= next.min_stake
        } by {
            if other != target {
                assert(ledger.nodes.contains_key(other));
            }
        }
        assert forall|other: Seq<char>| #[trigger]
            next.pending.contains_key(other) implies {
            &&& next.pending[other].address == other
            &&& next.pending[other].amount > 0
            &&& next.nodes.contains_key(other)
            &&& next.nodes[other].status != NodeStatus::Slashed
        } by {
            if other != target {
                assert(ledger.pending.contains_key(other));
                assert(ledger.nodes.contains_key(other));
            } else if ledger.pending.contains_key(other) {
                assert(ledger.nodes.contains_key(other));
            }
        }
        if ledger.pending.contains_key(address) {
            assert(ledger.nodes.contains_key(address));
        }
    }
}

/// Stake conservation. Over every course of registrations, deposits,
/// requests to unstake, withdrawals and slashes, starting from a consistent
/// ledger: the ledger stays consistent, so no stake is ever negative, and
/// what the ledger holds for a node, its stake together with what it has
/// locked for withdrawal, never exceeds what it held at the start and what
/// was paid in for that node since.
pub proof fn law_stake_conservation(
    ledger: LedgerModel,
    course: Seq<(LedgerOp, nat)>,
    address: Seq<char>,
)
    requires
        consistent(ledger),
    ensures
        consistent(run(ledger, course)),
        stake_of(run(ledger, course), address) >= 0,
        locked_amount(run(ledger, course), address) >= 0,
        holdings(run(ledger, course), address) <= holdings(ledger, address) + deposits(
            ledger,
            course,
            address,
        ),
    decreases course.len(),
{
    if course.len() > 0 {
        law_stake_conservation(ledger, course.drop_last(), address);
        law_step_conserves(
            run(ledger, course.drop_last()),
            course.last().0,
            course.last().1,
            address,
        );
    }
    let end = run(ledger, course);
    if end.nodes.contains_key(address) {
    }
    if end.pending.contains_key(address) {
    }
}

/// A slashed node can neither deposit nor request to unstake, whatever the
/// amount and the time.
pub proof fn law_slashed_node_is_refused(
    ledger: LedgerModel,
    address: Seq<char>,
    amount: int,
    now: nat,
)
    requires
        ledger.nodes.contains_key(address),
        ledger.nodes[address].status == NodeStatus::Slashed,
    ensures
        stake_refusal(ledger, address, amount) is Some,
        unstake_refusal(ledger, address, amount, now) is Some,
        amount > 0 ==> stake_refusal(ledger, address, amount) == Some(ContractError::NodeSlashed),
        amount > 0 ==> unstake_refusal(ledger, address, amount, now) == Some(
            ContractError::NodeSlashed,
        ),
{
}

/// Slash finality. A slash leaves the node slashed with no stake and nothing
/// locked, and over every course of requests that follows, the record of a
/// slashed node stays as it is: slashed for good, its stake unchanged.
pub proof fn law_slash_is_final(ledger: LedgerModel, course: Seq<(LedgerOp, nat)>, address: Seq<char>)
    requires
        ledger.nodes.contains_key(address),
        ledger.nodes[address].status == NodeStatus::Slashed,
    ensures
        run(ledger, course).nodes.contains_key(address),
        run(ledger, course).nodes[address] == ledger.nodes[address],
    decreases course.len(),
{
    if course.len() > 0 {
        law_slash_is_final(ledger, course.drop_last(), address);
    }
}

/// After a slash that went through, the node is slashed, holds no stake and
/// has nothing locked for withdrawal.
pub proof fn law_slash_seizes_everything(ledger: LedgerModel, address: Seq<char>, now: nat)
    requires
        slash_refusal(ledger, address) is None,
    ensures
        after_slash(ledger, address, now).nodes[address].status == NodeStatus::Slashed,
        holdings(after_slash(ledger, address, now), address) == 0,
{
}

/// A node cannot slash itself: unless it is the arbitration engine, a
/// caller that asks for its own slash is refused as unauthorized. So is
/// every caller that is neither the engine nor the administrator.
pub proof fn law_only_engine_or_admin_slashes(
    ledger: LedgerModel,
    caller: Seq<char>,
    arbiter: Option<Seq<char>>,
    address: Seq<char>,
)
    requires
        arbiter != Some(caller),
        caller == address || caller != ledger.admin,
    ensures
        authorized_slash_refusal(ledger, caller, arbiter, address) == Some(
            ContractError::UnauthorizedSlash,
        ),
{
}

/// A registration moves the node counter one on and never past the largest
/// value it can hold: a registry whose counter is exhausted takes no further
/// node.
pub proof fn law_registration_counts(
    ledger: LedgerModel,
    address: Seq<char>,
    metadata: MetadataModel,
    now: nat,
)
    ensures
        register_refusal(ledger, address, metadata) is None ==> {
            &&& ledger.node_count < u32::MAX
            &&& after_register(ledger, address, metadata, now).node_count == ledger.node_count
                + 1
        },
        ledger.node_count >= u32::MAX ==> register_refusal(ledger, address, metadata) is Some,
        !ledger.nodes.contains_key(address) && metadata.valid() && ledger.node_count >= u32::MAX
            ==> register_refusal(ledger, address, metadata) == Some(ContractError::Overflow),
{
}

/// Lock monotonicity. A withdrawal is finalized only from the time its lock
/// runs out; at every earlier time a consistent ledger refuses it as locked.
pub proof fn law_lock_holds(ledger: LedgerModel, address: Seq<char>, now: nat)
    ensures
        finalize_refusal(ledger, address, now) is None ==> now
            >= ledger.pending[address].unlocks_at,
        consistent(ledger) && ledger.pending.contains_key(address) && now
            < ledger.pending[address].unlocks_at ==> finalize_refusal(ledger, address, now)
            == Some(ContractError::StakeLocked),
{
    if consistent(ledger) && ledger.pending.contains_key(address) {
        assert(ledger.nodes.contains_key(address));
    }
}

/// A request to unstake moves its amount from the stake to what is locked,
/// so that the ledger holds as much for the node as before, and locks it
/// for a full lock period.
pub proof fn law_unstake_locks_what_it_takes(
    ledger: LedgerModel,
    address: Seq<char>,
    amount: int,
    now: nat,
)
    requires
        unstake_refusal(ledger, address, amount, now) is None,
    ensures
        after_unstake(ledger, address, amount, now).pending[address].unlocks_at == now
            + ledger.lock_period,
        holdings(after_unstake(ledger, address, amount, now), address) == holdings(
            ledger,
            address,
        ),
{
}

/// A new minimum stake keeps the ledger consistent where every active node
/// already holds that much.
pub proof fn law_min_stake_keeps_consistency(ledger: LedgerModel, caller: Seq<char>, min_stake: int)
    requires
        consistent(ledger),
        min_stake_refusal(ledger, caller, min_stake) is None,
        forall|address: Seq<char>| #[trigger]
            ledger.nodes.contains_key(address) && ledger.nodes[address].status
                == NodeStatus::Active ==> ledger.nodes[address].stake >= min_stake,
    ensures
        consistent(ledger.with_min_stake(min_stake)),
{
    let next = ledger.with_min_stake(min_stake);
    assert forall|address: Seq<char>| #[trigger]
        next.nodes.contains_key(address) implies {
        &&& next.nodes[address].address == address
        &&& next.nodes[address].stake >= 0
        &&& next.nodes[address].status == NodeStatus::Slashed ==> next.nodes[address].stake == 0
        &&& next.nodes[address].status == NodeStatus::Active ==> next.nodes[address].stake
            >= next.min_stake
    } by {
        assert(ledger.nodes.contains_key(address));
    }
    assert forall|address: Seq<char>| #[trigger]
        next.pending.contains_key(address) implies {
        &&& next.pending[address].address == address
        &&& next.pending[address].amount > 0
        &&& next.nodes.contains_key(address)
        &&& next.nodes[address].status != NodeStatus::Slashed
    } by {
        assert(ledger.pending.contains_key(address));
    }
}

} // verus!
