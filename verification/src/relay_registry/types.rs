use vstd::prelude::*;
use crate::address::Address;

verus! {

/// Represents the operational status of a relay node within the protocol.
#[derive(Copy, Clone, Debug, PartialEq, Eq, Structural)]
pub enum NodeStatus {
    /// Node is active and can participate in the relay network.
    Active,
    /// Node holds less than the minimum stake and cannot participate.
    Inactive,
    /// Node has been slashed due to misbehavior and cannot participate.
    Slashed,
}

/// Metadata associated with a relay node, describing its operational characteristics.
#[derive(Debug, PartialEq, Eq)]
pub struct NodeMetadata {
    /// Geographic region where the relay node is located.
    pub region: String,
    /// Maximum number of transactions the node can handle per batch.
    pub capacity: u32,
    /// Uptime commitment percentage (0-100) that the node promises to maintain.
    pub uptime_commitment: u32,
}

/// What a [`NodeMetadata`] holds, as mathematical values.
pub ghost struct MetadataModel {
    pub region: Seq<char>,
    pub capacity: nat,
    pub uptime_commitment: nat,
}

impl MetadataModel {
    /// The rule that metadata must meet to be accepted at registration: a
    /// named region, room for at least one transaction, and a commitment
    /// that is a percentage.
    pub open spec fn valid(self) -> bool {
        &&& self.capacity > 0
        &&& self.uptime_commitment <= 100
        &&& self.region.len() > 0
    }
}

impl View for NodeMetadata {
    type V = MetadataModel;

    open spec fn view(&self) -> MetadataModel {
        MetadataModel {
            region: self.region@,
            capacity: self.capacity as nat,
            uptime_commitment: self.uptime_commitment as nat,
        }
    }
}

impl Clone for NodeMetadata {
    fn clone(&self) -> (copy: NodeMetadata)
        ensures
            copy@ == self@,
    {
        NodeMetadata {
            region: self.region.clone(),
            capacity: self.capacity,
            uptime_commitment: self.uptime_commitment,
        }
    }
}

/// Represents a registered relay node in the protocol, including its stake, status, and metadata.
#[derive(Debug, PartialEq, Eq)]
pub struct RelayNode {
    /// The address of the relay node; it never changes.
    pub address: Address,
    /// Current amount of tokens staked by this node.
    pub stake: i128,
    /// Current operational status of the node.
    pub status: NodeStatus,
    /// Metadata describing the node's operational characteristics.
    pub metadata: NodeMetadata,
    /// Ledger timestamp when the node was first registered.
    pub registered_at: u64,
    /// Ledger timestamp of the node's last recorded activity.
    pub last_active: u64,
}

/// What a [`RelayNode`] holds, as mathematical values.
pub ghost struct NodeModel {
    pub address: Seq<char>,
    pub stake: int,
    pub status: NodeStatus,
    pub metadata: MetadataModel,
    pub registered_at: nat,
    pub last_active: nat,
}

impl View for RelayNode {
    type V = NodeModel;

    open spec fn view(&self) -> NodeModel {
        NodeModel {
            address: self.address@,
            stake: self.stake as int,
            status: self.status,
            metadata: self.metadata@,
            registered_at: self.registered_at as nat,
            last_active: self.last_active as nat,
        }
    }
}

impl Clone for RelayNode {
    fn clone(&self) -> (copy: RelayNode)
        ensures
            copy@ == self@,
    {
        RelayNode {
            address: self.address.clone(),
            stake: self.stake,
            status: self.status,
            metadata: self.metadata.clone(),
            registered_at: self.registered_at,
            last_active: self.last_active,
        }
    }
}

/// Represents a pending unstake operation that is subject to a lock period.
#[derive(Debug, PartialEq, Eq)]
pub struct StakeEntry {
    /// The address that initiated the unstake operation.
    pub address: Address,
    /// Amount taken out of the node's stake and held until the lock runs out.
    pub amount: i128,
    /// Ledger timestamp from which the held amount can be withdrawn.
    pub unlocks_at: u64,
}

/// What a [`StakeEntry`] holds, as mathematical values.
pub ghost struct PendingModel {
    pub address: Seq<char>,
    pub amount: int,
    pub unlocks_at: nat,
}

impl View for StakeEntry {
    type V = PendingModel;

    open spec fn view(&self) -> PendingModel {
        PendingModel {
            address: self.address@,
            amount: self.amount as int,
            unlocks_at: self.unlocks_at as nat,
        }
    }
}

impl Clone for StakeEntry {
    fn clone(&self) -> (copy: StakeEntry)
        ensures
            copy@ == self@,
    {
        StakeEntry {
            address: self.address.clone(),
            amount: self.amount,
            unlocks_at: self.unlocks_at,
        }
    }
}

} // verus!
