//! The stake ledger of the relay network: registration, staking, timed
//! unstaking and slashing of the collateral that relay nodes post.
//!
//! Every operation works on the registry's [`Storage`] and on the time `now`
//! that the caller read from the chain's clock. An operation either goes
//! through, and the store changes as its contract says, or it is refused with
//! a [`ContractError`], and the store is left exactly as it was. Operations
//! that act for a node expect its caller to have authenticated that node's
//! address beforehand.

use vstd::prelude::*;
use crate::address::Address;
use crate::relay_registry::errors::ContractError;
use crate::relay_registry::rules::{
    admin_slash_refusal, after_finalize, after_register, after_slash, after_stake, after_unstake,
    authorized_slash_refusal,
    finalize_refusal, lock_period_refusal, min_stake_refusal, register_refusal, registered_node,
    slash_refusal, slashed_node, stake_refusal, staked_node, unstake_refusal, unstaked_node,
};
use crate::relay_registry::storage::Storage;
use crate::relay_registry::types::{NodeMetadata, NodeStatus, RelayNode, StakeEntry};
use crate::table::Key;

pub mod errors;
pub mod laws;
pub mod rules;
pub mod storage;
pub mod types;

verus! {

/// The party that an optional address names, if it names one.
pub open spec fn party_view(address: Option<Address>) -> Option<Seq<char>> {
    match address {
        Some(party) => Some(party@),
        None => None,
    }
}

/// The operations of the stake ledger.
pub struct RelayRegistryContract;

impl RelayRegistryContract {
    /// Registers `node_address` as a relay node at `now`. The new node is
    /// bonded with the minimum stake and starts out active, and the node
    /// counter moves one on; a registry whose counter is exhausted takes no
    /// further node.
    pub fn register(
        storage: &mut Storage,
        now: u64,
        node_address: Address,
        metadata: NodeMetadata,
    ) -> (result: Result<RelayNode, ContractError>)
        ensures
            match result {
                Ok(node) => {
                    &&& register_refusal(old(storage)@, node_address@, metadata@) is None
                    &&& node@ == registered_node(old(storage)@, node_address@, metadata@, now as nat)
                    &&& final(storage)@ == after_register(
                        old(storage)@,
                        node_address@,
                        metadata@,
                        now as nat,
                    )
                },
                Err(error) => {
                    &&& register_refusal(old(storage)@, node_address@, metadata@) == Some(error)
                    &&& final(storage)@ == old(storage)@
                },
            },
    {
        if storage::get_node(storage, &node_address).is_some() {
            return Err(ContractError::AlreadyRegistered);
        }
        if !Self::is_valid_metadata(&metadata) {
            return Err(ContractError::InvalidMetadata);
        }
        let node = RelayNode {
            address: node_address.clone(),
            stake: storage::get_min_stake(storage),
            status: NodeStatus::Active,
            metadata,
            registered_at: now,
            last_active: now,
        };

        match storage::increment_node_count(storage) {
            Ok(_) => {},
            Err(error) => {
                return Err(error);
            },
        }
        storage::set_node(storage, &node_address, &node);
        Ok(node)
    }

    /// Adds `amount` to the stake of `node_address` at `now`. A deposit that
    /// brings the node to the minimum stake or above makes it active.
    pub fn stake(storage: &mut Storage, now: u64, node_address: Address, amount: i128) -> (result:
        Result<RelayNode, ContractError>)
        ensures
            match result {
                Ok(node) => {
                    &&& stake_refusal(old(storage)@, node_address@, amount as int) is None
                    &&& node@ == staked_node(
                        old(storage)@.nodes[node_address@],
                        amount as int,
                        now as nat,
                    )
                    &&& final(storage)@ == after_stake(
                        old(storage)@,
                        node_address@,
                        amount as int,
                        now as nat,
                    )
                },
                Err(error) => {
                    &&& stake_refusal(old(storage)@, node_address@, amount as int) == Some(error)
                    &&& final(storage)@ == old(storage)@
                },
            },
    {
        if amount <= 0 {
            return Err(ContractError::InsufficientStake);
        }
        let mut node = match storage::get_node(storage, &node_address) {
            Some(node) => node,
            None => {
                return Err(ContractError::NotRegistered);
            },
        };
        if node.status == NodeStatus::Slashed {
            return Err(ContractError::NodeSlashed);
        }
        node.stake = match node.stake.checked_add(amount) {
            Some(sum) => sum,
            None => {
                return Err(ContractError::Overflow);
            },
        };

        if node.stake < storage::get_min_stake(storage) {
            return Err(ContractError::InsufficientStake);
        }
        node.status = NodeStatus::Active;
        node.last_active = now;
        storage::set_node(storage, &node_address, &node);
        Ok(node)
    }

    /// Takes `amount` out of the stake of `node_address` at `now` and locks
    /// it for withdrawal. The amount leaves the stake at once; it joins what
    /// is already locked for the node, and all of it can be withdrawn once a
    /// full lock period has passed since `now`. A node left below the
    /// minimum stake becomes inactive.
    pub fn unstake(storage: &mut Storage, now: u64, node_address: Address, amount: i128) -> (result:
        Result<RelayNode, ContractError>)
        ensures
            match result {
                Ok(node) => {
                    &&& unstake_refusal(old(storage)@, node_address@, amount as int, now as nat)
                        is None
                    &&& node@ == unstaked_node(
                        old(storage)@.nodes[node_address@],
                        amount as int,
                        old(storage)@.min_stake,
                        now as nat,
                    )
                    &&& final(storage)@ == after_unstake(
                        old(storage)@,
                        node_address@,
                        amount as int,
                        now as nat,
                    )
                },
                Err(error) => {
                    &&& unstake_refusal(old(storage)@, node_address@, amount as int, now as nat)
                        == Some(error)
                    &&& final(storage)@ == old(storage)@
                },
            },
    {
        if amount <= 0 {
            return Err(ContractError::InsufficientStake);
        }
        let mut node = match storage::get_node(storage, &node_address) {
            Some(node) => node,
            None => {
                return Err(ContractError::NotRegistered);
            },
        };
        if node.status == NodeStatus::Slashed {
            return Err(ContractError::NodeSlashed);
        }
        if amount > node.stake {
            return Err(ContractError::InsufficientStake);
        }
        let lock_period: u64 = storage::get_stake_lock_period(storage) as u64;
        let unlocks_at: u64 = match now.checked_add(lock_period) {
            Some(time) => time,
            None => {
                return Err(ContractError::Overflow);
            },
        };
        let mut locked: i128 = amount;
        match storage::get_pending_unstake(storage, &node_address) {
            Some(outstanding) => {
                locked = match outstanding.amount.checked_add(amount) {
                    Some(sum) => sum,
                    None => {
                        return Err(ContractError::Overflow);
                    },
                };
            },
            None => {},
        }

        node.stake = match node.stake.checked_sub(amount) {
            Some(rest) => rest,
            None => {
                return Err(ContractError::Overflow);
            },
        };

        if node.stake < storage::get_min_stake(storage) {
            node.status = NodeStatus::Inactive;
        }
        node.last_active = now;
        let entry = StakeEntry { address: node_address.clone(), amount: locked, unlocks_at };
        storage::set_node(storage, &node_address, &node);
        storage::set_pending_unstake(storage, &node_address, &entry);
        Ok(node)
    }

    /// Releases what is locked for withdrawal under `node_address`, once its
    /// lock has run out, and returns the amount that is now due to the node.
    /// There is no way to release it earlier.
    pub fn finalize_unstake(storage: &mut Storage, now: u64, node_address: Address) -> (result:
        Result<i128, ContractError>)
        ensures
            match result {
                Ok(amount) => {
                    &&& finalize_refusal(old(storage)@, node_address@, now as nat) is None
                    &&& amount == old(storage)@.pending[node_address@].amount
                    &&& final(storage)@ == after_finalize(old(storage)@, node_address@)
                },
                Err(error) => {
                    &&& finalize_refusal(old(storage)@, node_address@, now as nat) == Some(error)
                    &&& final(storage)@ == old(storage)@
                },
            },
    {
        let node = match storage::get_node(storage, &node_address) {
            Some(node) => node,
            None => {
                return Err(ContractError::NotRegistered);
            },
        };
        if node.status == NodeStatus::Slashed {
            return Err(ContractError::NodeSlashed);
        }
        let entry = match storage::get_pending_unstake(storage, &node_address) {
            Some(entry) => entry,
            None => {
                return Err(ContractError::InsufficientStake);
            },
        };
        if now < entry.unlocks_at {
            return Err(ContractError::StakeLocked);
        }
        storage::remove_pending_unstake(storage, &node_address);
        Ok(entry.amount)
    }

    /// Seizes the whole stake of `node_address` at `now` and marks the node
    /// as slashed for good. What the node had locked for withdrawal is
    /// forfeited with it. This is the capability that the arbitration engine
    /// holds; it asks for no authorization of its own.
    pub fn slash(storage: &mut Storage, now: u64, node_address: Address, _reason: String) -> (result:
        Result<RelayNode, ContractError>)
        ensures
            match result {
                Ok(node) => {
                    &&& slash_refusal(old(storage)@, node_address@) is None
                    &&& node@ == slashed_node(old(storage)@.nodes[node_address@], now as nat)
                    &&& final(storage)@ == after_slash(old(storage)@, node_address@, now as nat)
                },
                Err(error) => {
                    &&& slash_refusal(old(storage)@, node_address@) == Some(error)
                    &&& final(storage)@ == old(storage)@
                },
            },
    {
        let mut node = match storage::get_node(storage, &node_address) {
            Some(node) => node,
            None => {
                return Err(ContractError::NotRegistered);
            },
        };
        if node.status == NodeStatus::Slashed {
            return Err(ContractError::NodeSlashed);
        }
        node.stake = 0;
        node.status = NodeStatus::Slashed;
        node.last_active = now;
        storage::set_node(storage, &node_address, &node);
        storage::remove_pending_unstake(storage, &node_address);
        Ok(node)
    }

    /// Slashes `node_address` on the word of `caller`, for emergencies. Only
    /// the registry's administrator may do so, and never the node itself.
    pub fn admin_slash(
        storage: &mut Storage,
        now: u64,
        caller: Address,
        node_address: Address,
        reason: String,
    ) -> (result: Result<RelayNode, ContractError>)
        ensures
            match result {
                Ok(node) => {
                    &&& admin_slash_refusal(old(storage)@, caller@, node_address@) is None
                    &&& node@ == slashed_node(old(storage)@.nodes[node_address@], now as nat)
                    &&& final(storage)@ == after_slash(old(storage)@, node_address@, now as nat)
                },
                Err(error) => {
                    &&& admin_slash_refusal(old(storage)@, caller@, node_address@) == Some(error)
                    &&& final(storage)@ == old(storage)@
                },
            },
    {
        let admin = storage::get_admin(storage);
        if !caller.same(&admin) || caller.same(&node_address) {
            return Err(ContractError::UnauthorizedSlash);
        }
        Self::slash(storage, now, node_address, reason)
    }

    /// Slashes `node_address` on the word of `caller`. The arbitration
    /// engine may slash, which is `arbiter` where the registry has been told
    /// of one; beside it only the registry's administrator may, and never
    /// the node itself.
    pub fn authorized_slash(
        storage: &mut Storage,
        now: u64,
        caller: Address,
        arbiter: Option<Address>,
        node_address: Address,
        reason: String,
    ) -> (result: Result<RelayNode, ContractError>)
        ensures
            match result {
                Ok(node) => {
                    &&& authorized_slash_refusal(
                        old(storage)@,
                        caller@,
                        party_view(arbiter),
                        node_address@,
                    ) is None
                    &&& node@ == slashed_node(old(storage)@.nodes[node_address@], now as nat)
                    &&& final(storage)@ == after_slash(old(storage)@, node_address@, now as nat)
                },
                Err(error) => {
                    &&& authorized_slash_refusal(
                        old(storage)@,
                        caller@,
                        party_view(arbiter),
                        node_address@,
                    ) == Some(error)
                    &&& final(storage)@ == old(storage)@
                },
            },
    {
        let by_arbiter = match &arbiter {
            Some(engine) => engine.same(&caller),
            None => false,
        };
        if by_arbiter {
            Self::slash(storage, now, node_address, reason)
        } else {
            Self::admin_slash(storage, now, caller, node_address, reason)
        }
    }

    /// Fetches the record of the node registered under `address`.
    pub fn get_node(storage: &Storage, address: Address) -> (result: Result<
        RelayNode,
        ContractError,
    >)
        ensures
            match result {
                Ok(node) => storage@.nodes.contains_key(address@) && node@
                    == storage@.nodes[address@],
                Err(error) => !storage@.nodes.contains_key(address@) && error
                    == ContractError::NotRegistered,
            },
    {
        match storage::get_node(storage, &address) {
            Some(node) => Ok(node),
            None => Err(ContractError::NotRegistered),
        }
    }

    /// Whether a node is registered under `address` and is active.
    pub fn is_active(storage: &Storage, address: Address) -> (active: bool)
        ensures
            active == (storage@.nodes.contains_key(address@) && storage@.nodes[address@].status
                == NodeStatus::Active),
    {
        match storage::get_node(storage, &address) {
            Some(node) => node.status == NodeStatus::Active,
            None => false,
        }
    }

    /// Whether `metadata` can be accepted at registration.
    pub fn is_valid_metadata(metadata: &NodeMetadata) -> (valid: bool)
        ensures
            valid == metadata@.valid(),
    {
        metadata.capacity > 0 && metadata.uptime_commitment <= 100 && !metadata.region.as_str().is_empty()
    }

    /// Sets the minimum stake on the word of `caller`, who must be the
    /// registry's administrator. A minimum below zero is not accepted.
    pub fn configure_min_stake(storage: &mut Storage, caller: Address, min_stake: i128) -> (result:
        Result<(), ContractError>)
        ensures
            match result {
                Ok(_) => {
                    &&& min_stake_refusal(old(storage)@, caller@, min_stake as int) is None
                    &&& final(storage)@ == old(storage)@.with_min_stake(min_stake as int)
                },
                Err(error) => {
                    &&& min_stake_refusal(old(storage)@, caller@, min_stake as int) == Some(error)
                    &&& final(storage)@ == old(storage)@
                },
            },
    {
        let admin = storage::get_admin(storage);
        if !caller.same(&admin) {
            return Err(ContractError::Unauthorized);
        }
        if min_stake < 0 {
            return Err(ContractError::InsufficientStake);
        }
        storage::set_min_stake(storage, min_stake);
        Ok(())
    }

    /// Sets the lock period on the word of `caller`, who must be the
    /// registry's administrator.
    pub fn configure_lock_period(storage: &mut Storage, caller: Address, lock_period: u32) -> (result:
        Result<(), ContractError>)
        ensures
            match result {
                Ok(_) => {
                    &&& lock_period_refusal(old(storage)@, caller@) is None
                    &&& final(storage)@ == old(storage)@.with_lock_period(lock_period as nat)
                },
                Err(error) => {
                    &&& lock_period_refusal(old(storage)@, caller@) == Some(error)
                    &&& final(storage)@ == old(storage)@
                },
            },
    {
        let admin = storage::get_admin(storage);
        if !caller.same(&admin) {
            return Err(ContractError::Unauthorized);
        }
        storage::set_stake_lock_period(storage, lock_period);
        Ok(())
    }
}

} // verus!
