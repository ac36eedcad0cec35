//! The relay registry: relay node registration, token staking and unstaking
//! with a lock period, slashing of misbehaving nodes, and node lookup.

pub mod errors;
pub mod laws;
pub mod storage;
pub mod types;

use vstd::prelude::*;

use self::errors::ContractError;
use self::storage::RelayRegistryState;
use self::types::{NodeMetadata, NodeStatus, RelayNode};
use crate::council::{signer_count, CouncilApproval};
use crate::ledger::{LedgerContext, Transfer};

pub use self::storage::RelayRegistryContract;

verus! {

impl RelayRegistryState {
    /// The record of a node registered at `timestamp` in ledger `ledger`: no
    /// stake, inactive.
    pub open spec fn new_node(address: u64, metadata: NodeMetadata, timestamp: u64, ledger: u32) -> RelayNode {
        RelayNode {
            address,
            stake: 0,
            status: NodeStatus::Inactive,
            metadata,
            registered_at: timestamp,
            registered_ledger: ledger,
            last_active: timestamp,
        }
    }

    /// The error a registration is refused with, if any.
    pub open spec fn register_error(self, address: u64, metadata: NodeMetadata) -> Option<ContractError> {
        if self.nodes.contains_key(address) {
            Some(ContractError::AlreadyRegistered)
        } else if metadata.uptime_commitment > 100 {
            Some(ContractError::InvalidMetadata)
        } else {
            None
        }
    }

    /// The error a stake deposit is refused with, if any, in the order in which
    /// the registry checks.
    pub open spec fn stake_error(self, address: u64, amount: i128) -> Option<ContractError> {
        let node = self.nodes[address];
        if !self.nodes.contains_key(address) {
            Some(ContractError::NotRegistered)
        } else if node.status == NodeStatus::Slashed {
            Some(ContractError::NodeSlashed)
        } else if amount <= 0 {
            Some(ContractError::InsufficientStake)
        } else if node.stake + amount > i128::MAX {
            Some(ContractError::Overflow)
        } else {
            None
        }
    }

    /// The node after `amount` more is staked at `timestamp`: it becomes active
    /// once its stake reaches the minimum.
    pub open spec fn staked(self, address: u64, amount: i128, timestamp: u64) -> RelayNode {
        let node = self.nodes[address];
        let new_stake = node.stake + amount;
        RelayNode {
            stake: new_stake as i128,
            status: if new_stake >= self.min_stake { NodeStatus::Active } else { node.status },
            last_active: timestamp,
            ..node
        }
    }

    /// The error an unstake in ledger `ledger` is refused with, if any, in the
    /// order in which the registry checks. The stake stays locked until
    /// `stake_lock_period` ledgers have passed since registration.
    pub open spec fn unstake_error(self, address: u64, amount: i128, ledger: u32) -> Option<
        ContractError,
    > {
        let node = self.nodes[address];
        let unlock_after = node.registered_ledger + self.stake_lock_period;
        if amount <= 0 {
            Some(ContractError::InsufficientStake)
        } else if !self.nodes.contains_key(address) {
            Some(ContractError::NotRegistered)
        } else if node.status == NodeStatus::Slashed {
            Some(ContractError::NodeSlashed)
        } else if node.status != NodeStatus::Active {
            Some(ContractError::NodeNotActive)
        } else if ledger < unlock_after {
            Some(ContractError::StakeLocked)
        } else if amount > node.stake {
            Some(ContractError::InsufficientStake)
        } else {
            None
        }
    }

    /// The node after `amount` is unstaked at `timestamp`: it becomes inactive
    /// once its stake falls below the minimum.
    pub open spec fn unstaked(self, address: u64, amount: i128, timestamp: u64) -> RelayNode {
        let node = self.nodes[address];
        let new_stake = node.stake - amount;
        RelayNode {
            stake: new_stake as i128,
            status: if new_stake < self.min_stake { NodeStatus::Inactive } else { node.status },
            last_active: timestamp,
            ..node
        }
    }

    /// The error a slash is refused with, if any.
    pub open spec fn slash_error(self, address: u64) -> Option<ContractError> {
        if !self.nodes.contains_key(address) {
            Some(ContractError::NotRegistered)
        } else if self.nodes[address].status == NodeStatus::Slashed {
            Some(ContractError::NodeSlashed)
        } else {
            None
        }
    }

    /// The node after it is slashed at `timestamp`: all stake forfeited.
    pub open spec fn slashed(self, address: u64, timestamp: u64) -> RelayNode {
        RelayNode { stake: 0, status: NodeStatus::Slashed, last_active: timestamp, ..self.nodes[address] }
    }

    /// The storage with `address`'s record replaced by `node`.
    pub open spec fn with_node(self, address: u64, node: RelayNode) -> RelayRegistryState {
        RelayRegistryState { nodes: self.nodes.insert(address, node), ..self }
    }
}

impl RelayRegistryContract {
    /// Which council members a council-gated call asks to authorize, in
    /// order, and whether their approvals suffice (see
    /// `AdminCouncil::required_signers`); the council must be set.
    pub fn council_signers(&self) -> (r: CouncilApproval)
        requires
            self@.admin_council is Some,
        ensures
            r.signers@ == self@.admin_council.unwrap().members.take(
                signer_count(
                    self@.admin_council.unwrap().members.len() as int,
                    self@.admin_council.unwrap().threshold,
                ),
            ),
            r.sufficient <==> self@.admin_council.unwrap().members.len()
                >= self@.admin_council.unwrap().threshold,
            !r.sufficient ==> r.signers@ == self@.admin_council.unwrap().members,
    {
        let council = storage::get_admin_council(self);
        council.required_signers()
    }

    /// Register a new relay node (the node authorizes the call beforehand):
    /// it starts with no stake, inactive, registered and last active now.
    ///
    /// # Errors
    /// - `ContractError::AlreadyRegistered` if a node with this address already exists.
    /// - `ContractError::InvalidMetadata` if `metadata.uptime_commitment` is greater than 100.
    pub fn register(&mut self, ctx: &LedgerContext, node_address: u64, metadata: NodeMetadata) -> (r:
        Result<(), ContractError>)
        requires
            old(self)@.register_error(node_address, metadata) is Some || old(self)@.node_count
                < u32::MAX,
        ensures
            match old(self)@.register_error(node_address, metadata) {
                Some(e) => r == Err::<(), ContractError>(e) && final(self)@ == old(self)@,
                None => r is Ok && final(self)@ == (RelayRegistryState {
                    node_count: (old(self)@.node_count + 1) as u32,
                    ..old(self)@.with_node(
                        node_address,
                        RelayRegistryState::new_node(node_address, metadata, ctx.timestamp, ctx.sequence),
                    )
                }),
            },
    {
        if storage::get_node(self, node_address).is_some() {
            return Err(ContractError::AlreadyRegistered);
        }
        if metadata.uptime_commitment > 100 {
            return Err(ContractError::InvalidMetadata);
        }
        let timestamp = ctx.timestamp;
        let node = RelayNode {
            address: node_address,
            stake: 0,
            status: NodeStatus::Inactive,
            metadata,
            registered_at: timestamp,
            registered_ledger: ctx.sequence,
            last_active: timestamp,
        };
        storage::set_node(self, node_address, &node);
        storage::increment_node_count(self);
        Ok(())
    }

    /// Deposit stake for a registered relay node (the node authorizes the call
    /// beforehand). Once its total stake reaches the minimum the node becomes
    /// active. The returned transfer moves `amount` tokens from the node to
    /// the registry.
    ///
    /// # Errors
    /// - `ContractError::NotRegistered` if the node is not found in the registry.
    /// - `ContractError::NodeSlashed` if the node has been slashed.
    /// - `ContractError::InsufficientStake` if the `amount` is zero or negative.
    /// - `ContractError::Overflow` if adding the stake overflows.
    pub fn stake(&mut self, ctx: &LedgerContext, node_address: u64, amount: i128) -> (r: Result<
        Transfer,
        ContractError,
    >)
        ensures
            match old(self)@.stake_error(node_address, amount) {
                Some(e) => r == Err::<Transfer, ContractError>(e) && final(self)@ == old(self)@,
                None => r == Ok::<Transfer, ContractError>(
                    Transfer { from: node_address, to: ctx.current_contract, amount },
                ) && final(self)@ == old(self)@.with_node(
                    node_address,
                    old(self)@.staked(node_address, amount, ctx.timestamp),
                ),
            },
    {
        let mut node = match storage::get_node(self, node_address) {
            Some(n) => n,
            None => return Err(ContractError::NotRegistered),
        };
        if node.status == NodeStatus::Slashed {
            return Err(ContractError::NodeSlashed);
        }
        if amount <= 0 {
            return Err(ContractError::InsufficientStake);
        }
        let new_stake = match node.stake.checked_add(amount) {
            Some(v) => v,
            None => return Err(ContractError::Overflow),
        };
        let min_stake = storage::get_min_stake(self);
        if new_stake >= min_stake {
            node.status = NodeStatus::Active;
        }
        node.last_active = ctx.timestamp;
        node.stake = new_stake;
        storage::set_node(self, node_address, &node);
        Ok(Transfer { from: node_address, to: ctx.current_contract, amount })
    }

    /// Withdraw stake of an active relay node once its lock period (a number
    /// of ledgers counted from its registration ledger) has elapsed
    /// (the node authorizes the call beforehand). The node becomes inactive
    /// once its stake falls below the minimum. Returns the updated node and
    /// the transfer of `amount` tokens from the registry to the node.
    ///
    /// # Errors
    /// - `ContractError::InsufficientStake` if `amount` is not positive or exceeds the stake.
    /// - `ContractError::NotRegistered` if the node is not found in the registry.
    /// - `ContractError::NodeSlashed` if the node has been slashed.
    /// - `ContractError::NodeNotActive` if the node is not active.
    /// - `ContractError::StakeLocked` if fewer than the lock period's ledgers
    ///   have passed since registration.
    pub fn unstake(&mut self, ctx: &LedgerContext, node_address: u64, amount: i128) -> (r: Result<
        (RelayNode, Transfer),
        ContractError,
    >)
        ensures
            match old(self)@.unstake_error(node_address, amount, ctx.sequence) {
                Some(e) => r == Err::<(RelayNode, Transfer), ContractError>(e) && final(self)@ == old(
                    self,
                )@,
                None => r == Ok::<(RelayNode, Transfer), ContractError>(
                    (
                        old(self)@.unstaked(node_address, amount, ctx.timestamp),
                        Transfer { from: ctx.current_contract, to: node_address, amount },
                    ),
                ) && final(self)@ == old(self)@.with_node(
                    node_address,
                    old(self)@.unstaked(node_address, amount, ctx.timestamp),
                ),
            },
    {
        if amount <= 0 {
            return Err(ContractError::InsufficientStake);
        }
        let mut node = match storage::get_node(self, node_address) {
            Some(n) => n,
            None => return Err(ContractError::NotRegistered),
        };
        if node.status == NodeStatus::Slashed {
            return Err(ContractError::NodeSlashed);
        }
        if node.status != NodeStatus::Active {
            return Err(ContractError::NodeNotActive);
        }
        let lock_period = storage::get_stake_lock_period(self);
        let unlock_after: u64 = node.registered_ledger as u64 + lock_period as u64;
        if (ctx.sequence as u64) < unlock_after {
            return Err(ContractError::StakeLocked);
        }
        if amount > node.stake {
            return Err(ContractError::InsufficientStake);
        }
        node.stake = node.stake - amount;
        if node.stake < storage::get_min_stake(self) {
            node.status = NodeStatus::Inactive;
        }
        node.last_active = ctx.timestamp;
        storage::set_node(self, node_address, &node);
        Ok((node, Transfer { from: ctx.current_contract, to: node_address, amount }))
    }

    /// Permanently penalize a misbehaving relay node (the admin council
    /// authorizes the call beforehand): its stake is cut to 0 and its status
    /// becomes `Slashed` for good.
    ///
    /// # Errors
    /// - `ContractError::NotRegistered` if the node is not in the registry.
    /// - `ContractError::NodeSlashed` if the node is already slashed.
    pub fn slash(&mut self, ctx: &LedgerContext, node_address: u64) -> (r: Result<(), ContractError>)
        requires
            old(self)@.admin_council is Some,
        ensures
            match old(self)@.slash_error(node_address) {
                Some(e) => r == Err::<(), ContractError>(e) && final(self)@ == old(self)@,
                None => r is Ok && final(self)@ == old(self)@.with_node(
                    node_address,
                    old(self)@.slashed(node_address, ctx.timestamp),
                ),
            },
    {
        let mut node = match storage::get_node(self, node_address) {
            Some(n) => n,
            None => return Err(ContractError::NotRegistered),
        };
        if node.status == NodeStatus::Slashed {
            return Err(ContractError::NodeSlashed);
        }
        node.stake = 0;
        node.status = NodeStatus::Slashed;
        node.last_active = ctx.timestamp;
        storage::set_node(self, node_address, &node);
        Ok(())
    }

    /// Fetch a relay node's record.
    ///
    /// # Errors
    /// - `ContractError::NotRegistered` if the node is not in the registry.
    pub fn get_node(&self, address: u64) -> (r: Result<RelayNode, ContractError>)
        ensures
            self@.nodes.contains_key(address) ==> r == Ok::<RelayNode, ContractError>(
                self@.nodes[address],
            ),
            !self@.nodes.contains_key(address) ==> r == Err::<RelayNode, ContractError>(
                ContractError::NotRegistered,
            ),
    {
        match storage::get_node(self, address) {
            Some(n) => Ok(n),
            None => Err(ContractError::NotRegistered),
        }
    }

    /// Whether a relay node is registered and currently active.
    pub fn is_active(&self, address: u64) -> (r: bool)
        ensures
            r == (self@.nodes.contains_key(address) && self@.nodes[address].status
                == NodeStatus::Active),
    {
        match storage::get_node(self, address) {
            Some(n) => n.status == NodeStatus::Active,
            None => false,
        }
    }
}

} // verus!
