//! Data structures of the relay registry.

use vstd::prelude::*;

pub use crate::council::AdminCouncil;

verus! {

/// Represents the operational status of a relay node within the protocol.
#[derive(Clone, Copy, Debug, PartialEq, Eq, Structural)]
pub enum NodeStatus {
    /// Node is active and can participate in the relay network.
    Active,
    /// Node is inactive and cannot participate in the relay network.
    Inactive,
    /// Node has been slashed due to misbehavior and cannot participate.
    Slashed,
}

/// Metadata associated with a relay node, describing its operational characteristics.
#[derive(Clone, Debug, PartialEq, Eq)]
pub struct NodeMetadata {
    /// Geographic region where the relay node is located.
    pub region: String,
    /// Maximum number of transactions the node can handle per batch.
    pub capacity: u32,
    /// Uptime commitment percentage (0-100) that the node promises to maintain.
    pub uptime_commitment: u32,
}

/// A registered relay node: its stake, status and metadata.
#[derive(Clone, Debug, PartialEq, Eq)]
pub struct RelayNode {
    /// The account id of the relay node.
    pub address: u64,
    /// Current amount of tokens staked by this node.
    pub stake: i128,
    /// Current operational status of the node.
    pub status: NodeStatus,
    /// Metadata describing the node's operational characteristics.
    pub metadata: NodeMetadata,
    /// Ledger timestamp when the node was first registered.
    pub registered_at: u64,
    /// Ledger sequence number at which the node was first registered; the
    /// stake lock period counts ledgers from here.
    pub registered_ledger: u32,
    /// Ledger timestamp of the node's last recorded activity.
    pub last_active: u64,
}

/// Represents a pending unstake operation that is subject to a lock period.
#[derive(Clone, Copy, Debug, PartialEq, Eq)]
pub struct StakeEntry {
    /// The account that initiated the unstake operation.
    pub address: u64,
    /// Ledger number when the unstaked tokens can be withdrawn.
    pub unlocks_at: u64,
}

impl NodeMetadata {
    /// A copy of this metadata.
    pub fn duplicate(&self) -> (m: Self)
        ensures
            m == *self,
    {
        NodeMetadata {
            region: self.region.clone(),
            capacity: self.capacity,
            uptime_commitment: self.uptime_commitment,
        }
    }
}

impl RelayNode {
    /// A copy of this node record.
    pub fn duplicate(&self) -> (n: Self)
        ensures
            n == *self,
    {
        RelayNode {
            address: self.address,
            stake: self.stake,
            status: self.status,
            metadata: self.metadata.duplicate(),
            registered_at: self.registered_at,
            registered_ledger: self.registered_ledger,
            last_active: self.last_active,
        }
    }
}

} // verus!
