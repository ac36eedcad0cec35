//! The relay registry's persistent storage and its typed accessors.

use std::collections::HashMap;
use vstd::prelude::*;

use super::types::{AdminCouncil, RelayNode};
use crate::council::AdminCouncilView;

verus! {

broadcast use vstd::std_specs::hash::group_hash_axioms;

/// The relay registry contract: its persistent storage, on which the entry
/// points in the parent module operate.
pub struct RelayRegistryContract {
    nodes: HashMap<u64, RelayNode>,
    node_count: u32,
    min_stake: i128,
    stake_lock_period: u32,
    admin_council: Option<AdminCouncil>,
    token_address: Option<u64>,
}

/// The relay registry's storage as a mathematical value.
pub struct RelayRegistryState {
    /// Registered relay nodes keyed by account id.
    pub nodes: Map<u64, RelayNode>,
    /// Number of registrations (0 until set).
    pub node_count: u32,
    /// Minimum stake for a node to be active (0 until set).
    pub min_stake: i128,
    /// Number of ledgers after registration before a node may unstake (0 until set).
    pub stake_lock_period: u32,
    /// The council authorized to slash nodes, once set.
    pub admin_council: Option<AdminCouncilView>,
    /// The staking token contract, once set.
    pub token_address: Option<u64>,
}

impl View for RelayRegistryContract {
    type V = RelayRegistryState;

    closed spec fn view(&self) -> RelayRegistryState {
        RelayRegistryState {
            nodes: self.nodes@,
            node_count: self.node_count,
            min_stake: self.min_stake,
            stake_lock_period: self.stake_lock_period,
            admin_council: match self.admin_council {
                Some(c) => Some(c@),
                None => None,
            },
            token_address: self.token_address,
        }
    }
}

impl RelayRegistryContract {
    /// A freshly deployed contract, with empty storage.
    pub fn new() -> (c: Self)
        ensures
            c@.nodes == Map::<u64, RelayNode>::empty(),
            c@.node_count == 0,
            c@.min_stake == 0,
            c@.stake_lock_period == 0,
            c@.admin_council is None,
            c@.token_address is None,
    {
        RelayRegistryContract {
            nodes: HashMap::new(),
            node_count: 0,
            min_stake: 0,
            stake_lock_period: 0,
            admin_council: None,
            token_address: None,
        }
    }
}

/// Load a relay node from storage.
pub fn get_node(store: &RelayRegistryContract, address: u64) -> (r: Option<RelayNode>)
    ensures
        r == store@.nodes.get(address),
{
    match store.nodes.get(&address) {
        Some(node) => Some(node.duplicate()),
        None => None,
    }
}

/// Persist a relay node to storage.
pub fn set_node(store: &mut RelayRegistryContract, address: u64, node: &RelayNode)
    ensures
        final(store)@ == old(store)@.with_node(address, *node),
{
    store.nodes.insert(address, node.duplicate());
}

/// Remove a relay node from storage.
pub fn remove_node(store: &mut RelayRegistryContract, address: u64)
    ensures
        final(store)@ == (RelayRegistryState { nodes: old(store)@.nodes.remove(address), ..old(store)@ }),
{
    store.nodes.remove(&address);
}

/// Get the total number of registered nodes.
pub fn get_node_count(store: &RelayRegistryContract) -> (r: u32)
    ensures
        r == store@.node_count,
{
    store.node_count
}

/// Persist the node count.
pub fn set_node_count(store: &mut RelayRegistryContract, count: u32)
    ensures
        final(store)@ == (RelayRegistryState { node_count: count, ..old(store)@ }),
{
    store.node_count = count;
}

/// Increment the node count by 1.
pub fn increment_node_count(store: &mut RelayRegistryContract)
    requires
        old(store)@.node_count < u32::MAX,
    ensures
        final(store)@ == (RelayRegistryState {
            node_count: (old(store)@.node_count + 1) as u32,
            ..old(store)@
        }),
{
    let next = get_node_count(store) + 1;
    set_node_count(store, next);
}

/// Load the minimum stake requirement.
pub fn get_min_stake(store: &RelayRegistryContract) -> (r: i128)
    ensures
        r == store@.min_stake,
{
    store.min_stake
}

/// Persist the minimum stake requirement.
pub fn set_min_stake(store: &mut RelayRegistryContract, min_stake: i128)
    ensures
        final(store)@ == (RelayRegistryState { min_stake, ..old(store)@ }),
{
    store.min_stake = min_stake;
}

/// Load the stake lock period.
pub fn get_stake_lock_period(store: &RelayRegistryContract) -> (r: u32)
    ensures
        r == store@.stake_lock_period,
{
    store.stake_lock_period
}

/// Persist the stake lock period.
pub fn set_stake_lock_period(store: &mut RelayRegistryContract, period: u32)
    ensures
        final(store)@ == (RelayRegistryState { stake_lock_period: period, ..old(store)@ }),
{
    store.stake_lock_period = period;
}

/// Load the admin council; it must have been set.
pub fn get_admin_council(store: &RelayRegistryContract) -> (r: AdminCouncil)
    requires
        store@.admin_council is Some,
    ensures
        store@.admin_council == Some(r@),
{
    store.admin_council.as_ref().unwrap().duplicate()
}

/// Persist the admin council.
pub fn set_admin_council(store: &mut RelayRegistryContract, council: &AdminCouncil)
    ensures
        final(store)@ == (RelayRegistryState { admin_council: Some(council@), ..old(store)@ }),
{
    store.admin_council = Some(council.duplicate());
}

/// Load the staking token address; it must have been set.
pub fn get_token_address(store: &RelayRegistryContract) -> (r: u64)
    requires
        store@.token_address is Some,
    ensures
        store@.token_address == Some(r),
{
    store.token_address.unwrap()
}

/// Persist the staking token address.
pub fn set_token_address(store: &mut RelayRegistryContract, token_address: u64)
    ensures
        final(store)@ == (RelayRegistryState { token_address: Some(token_address), ..old(store)@ }),
{
    store.token_address = Some(token_address);
}

} // verus!
