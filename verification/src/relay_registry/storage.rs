use vstd::prelude::*;
use crate::address::Address;
use crate::relay_registry::errors::ContractError;
use crate::relay_registry::types::{NodeModel, PendingModel, RelayNode, StakeEntry};
use crate::table::Table;

verus! {

/// What the registry's durable store holds, as mathematical values: the node
/// records and the pending withdrawals, each filed under an address, and the
/// registry's counters and settings.
pub ghost struct LedgerModel {
    /// Registered relay nodes by address.
    pub nodes: Map<Seq<char>, NodeModel>,
    /// Pending unstake entries by node address.
    pub pending: Map<Seq<char>, PendingModel>,
    /// Total number of registered relay nodes.
    pub node_count: nat,
    /// Protocol minimum stake required for active participation.
    pub min_stake: int,
    /// Time that must pass before a pending unstake can be finalized.
    pub lock_period: nat,
    /// The address that may change the settings and slash by override.
    pub admin: Seq<char>,
}

impl LedgerModel {
    /// The store of a registry that was just set up for `admin`.
    pub open spec fn initial(admin: Seq<char>) -> LedgerModel {
        LedgerModel {
            nodes: Map::empty(),
            pending: Map::empty(),
            node_count: 0,
            min_stake: 0,
            lock_period: 0,
            admin,
        }
    }

    /// The store with `node` filed under `address`.
    pub open spec fn with_node(self, address: Seq<char>, node: NodeModel) -> LedgerModel {
        LedgerModel { nodes: self.nodes.insert(address, node), ..self }
    }

    /// The store with no node filed under `address`.
    pub open spec fn without_node(self, address: Seq<char>) -> LedgerModel {
        LedgerModel { nodes: self.nodes.remove(address), ..self }
    }

    /// The store with `entry` filed under `address` as pending withdrawal.
    pub open spec fn with_pending(self, address: Seq<char>, entry: PendingModel) -> LedgerModel {
        LedgerModel { pending: self.pending.insert(address, entry), ..self }
    }

    /// The store with no pending withdrawal filed under `address`.
    pub open spec fn without_pending(self, address: Seq<char>) -> LedgerModel {
        LedgerModel { pending: self.pending.remove(address), ..self }
    }

    /// The store with the node counter at `node_count`.
    pub open spec fn with_node_count(self, node_count: nat) -> LedgerModel {
        LedgerModel { node_count, ..self }
    }

    /// The store with the minimum stake set to `min_stake`.
    pub open spec fn with_min_stake(self, min_stake: int) -> LedgerModel {
        LedgerModel { min_stake, ..self }
    }

    /// The store with the lock period set to `lock_period`.
    pub open spec fn with_lock_period(self, lock_period: nat) -> LedgerModel {
        LedgerModel { lock_period, ..self }
    }
}

/// The registry's durable store: node records and pending withdrawals filed
/// under the address they belong to, the node counter, and the settings.
pub struct Storage {
    nodes: Table<Address, RelayNode>,
    pending: Table<Address, StakeEntry>,
    node_count: u32,
    min_stake: i128,
    lock_period: u32,
    admin: Address,
}

impl View for Storage {
    type V = LedgerModel;

    closed spec fn view(&self) -> LedgerModel {
        LedgerModel {
            nodes: self.nodes@,
            pending: self.pending@,
            node_count: self.node_count as nat,
            min_stake: self.min_stake as int,
            lock_period: self.lock_period as nat,
            admin: self.admin@,
        }
    }
}

impl Storage {
    /// An empty store for a registry that `admin` governs, with a minimum
    /// stake and a lock period of zero.
    pub fn new(admin: Address) -> (storage: Storage)
        ensures
            storage@ == LedgerModel::initial(admin@),
    {
        Storage {
            nodes: Table::new(),
            pending: Table::new(),
            node_count: 0,
            min_stake: 0,
            lock_period: 0,
            admin,
        }
    }
}

/// Returns the relay node for `address`, if one exists.
pub fn get_node(storage: &Storage, address: &Address) -> (node: Option<RelayNode>)
    ensures
        node is Some == storage@.nodes.contains_key(address@),
        node is Some ==> node->0@ == storage@.nodes[address@],
{
    match storage.nodes.get(address) {
        Some(node) => Some(node.clone()),
        None => None,
    }
}

/// Persists relay `node` for `address`.
pub fn set_node(storage: &mut Storage, address: &Address, node: &RelayNode)
    ensures
        final(storage)@ == old(storage)@.with_node(address@, node@),
{
    storage.nodes.put(address.clone(), node.clone());
}

/// Removes any relay node stored for `address`.
pub fn remove_node(storage: &mut Storage, address: &Address)
    ensures
        final(storage)@ == old(storage)@.without_node(address@),
{
    storage.nodes.discard(address);
}

/// Returns the total number of registered nodes.
pub fn get_node_count(storage: &Storage) -> (count: u32)
    ensures
        count == storage@.node_count,
{
    storage.node_count
}

/// Persists the total number of registered nodes.
pub fn set_node_count(storage: &mut Storage, count: u32)
    ensures
        final(storage)@ == old(storage)@.with_node_count(count as nat),
{
    storage.node_count = count;
}

/// Increments and persists the total node count by one. Once the counter is
/// exhausted it stays as it is, and the call fails.
pub fn increment_node_count(storage: &mut Storage) -> (result: Result<(), ContractError>)
    ensures
        match result {
            Ok(_) => {
                &&& old(storage)@.node_count < u32::MAX
                &&& final(storage)@ == old(storage)@.with_node_count(
                    old(storage)@.node_count + 1,
                )
            },
            Err(error) => {
                &&& old(storage)@.node_count == u32::MAX
                &&& error == ContractError::Overflow
                &&& final(storage)@ == old(storage)@
            },
        },
{
    match get_node_count(storage).checked_add(1) {
        Some(next) => {
            storage.node_count = next;
            Ok(())
        },
        None => Err(ContractError::Overflow),
    }
}

/// Returns the configured minimum stake. It is `0` until one is set.
pub fn get_min_stake(storage: &Storage) -> (min_stake: i128)
    ensures
        min_stake == storage@.min_stake,
{
    storage.min_stake
}

/// Persists the minimum stake value.
pub fn set_min_stake(storage: &mut Storage, min_stake: i128)
    ensures
        final(storage)@ == old(storage)@.with_min_stake(min_stake as int),
{
    storage.min_stake = min_stake;
}

/// Returns the configured stake lock period. It is `0` until one is set.
pub fn get_stake_lock_period(storage: &Storage) -> (lock_period: u32)
    ensures
        lock_period == storage@.lock_period,
{
    storage.lock_period
}

/// Persists the stake lock period.
pub fn set_stake_lock_period(storage: &mut Storage, lock_period: u32)
    ensures
        final(storage)@ == old(storage)@.with_lock_period(lock_period as nat),
{
    storage.lock_period = lock_period;
}

/// Returns the pending unstake entry for `address`, if present.
pub fn get_pending_unstake(storage: &Storage, address: &Address) -> (entry: Option<StakeEntry>)
    ensures
        entry is Some == storage@.pending.contains_key(address@),
        entry is Some ==> entry->0@ == storage@.pending[address@],
{
    match storage.pending.get(address) {
        Some(entry) => Some(entry.clone()),
        None => None,
    }
}

/// Stores (or overwrites) the pending unstake `entry` for `address`.
pub fn set_pending_unstake(storage: &mut Storage, address: &Address, entry: &StakeEntry)
    ensures
        final(storage)@ == old(storage)@.with_pending(address@, entry@),
{
    storage.pending.put(address.clone(), entry.clone());
}

/// Removes any pending unstake entry stored for `address`.
pub fn remove_pending_unstake(storage: &mut Storage, address: &Address)
    ensures
        final(storage)@ == old(storage)@.without_pending(address@),
{
    storage.pending.discard(address);
}

/// Returns the address that governs the registry.
pub fn get_admin(storage: &Storage) -> (admin: Address)
    ensures
        admin@ == storage@.admin,
{
    storage.admin.clone()
}

} // verus!
