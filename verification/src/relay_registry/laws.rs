//! Properties of the relay registry that span its operations.

use vstd::prelude::*;

use super::errors::ContractError;
use super::storage::RelayRegistryState;
use super::types::{NodeMetadata, NodeStatus, RelayNode};

verus! {

impl RelayRegistryState {
    /// Every active node holds at least the minimum stake.
    pub open spec fn active_nodes_staked(self) -> bool {
        forall|a: u64| #[trigger] self.nodes.contains_key(a) && self.nodes[a].status
            == NodeStatus::Active ==> self.nodes[a].stake >= self.min_stake
    }

    /// Every node's stake is zero or more.
    pub open spec fn stakes_nonnegative(self) -> bool {
        forall|a: u64| #[trigger] self.nodes.contains_key(a) ==> self.nodes[a].stake >= 0
    }

    /// Every slashed node holds no stake.
    pub open spec fn slashed_nodes_empty(self) -> bool {
        forall|a: u64| #[trigger] self.nodes.contains_key(a) && self.nodes[a].status
            == NodeStatus::Slashed ==> self.nodes[a].stake == 0
    }
}

/// Slashing is permanent: a slashed node can neither stake, nor unstake, nor
/// be slashed again, nor register anew, so no entry point changes its record.
pub proof fn lemma_slashed_is_final(
    state: RelayRegistryState,
    address: u64,
    amount: i128,
    ledger: u32,
    metadata: NodeMetadata,
)
    requires
        state.nodes.contains_key(address),
        state.nodes[address].status == NodeStatus::Slashed,
    ensures
        state.stake_error(address, amount) == Some(ContractError::NodeSlashed),
        amount > 0 ==> state.unstake_error(address, amount, ledger) == Some(
            ContractError::NodeSlashed,
        ),
        state.slash_error(address) == Some(ContractError::NodeSlashed),
        state.register_error(address, metadata) == Some(ContractError::AlreadyRegistered),
{
}

/// A slash forfeits the whole stake and marks the node slashed.
pub proof fn lemma_slash_forfeits_stake(state: RelayRegistryState, address: u64, timestamp: u64)
    requires
        state.slash_error(address) is None,
    ensures
        state.slashed(address, timestamp).stake == 0,
        state.slashed(address, timestamp).status == NodeStatus::Slashed,
{
}

/// Registration keeps every active node staked at the minimum.
pub proof fn lemma_register_keeps_active_staked(
    state: RelayRegistryState,
    address: u64,
    metadata: NodeMetadata,
    timestamp: u64,
    ledger: u32,
)
    requires
        state.active_nodes_staked(),
    ensures
        state.with_node(address, RelayRegistryState::new_node(address, metadata, timestamp, ledger)).active_nodes_staked(),
{
}

/// Staking keeps every active node staked at the minimum.
pub proof fn lemma_stake_keeps_active_staked(
    state: RelayRegistryState,
    address: u64,
    amount: i128,
    timestamp: u64,
)
    requires
        state.active_nodes_staked(),
        state.stake_error(address, amount) is None,
    ensures
        state.with_node(address, state.staked(address, amount, timestamp)).active_nodes_staked(),
{
    let post = state.with_node(address, state.staked(address, amount, timestamp));
    assert forall|a: u64| #[trigger] post.nodes.contains_key(a) && post.nodes[a].status
        == NodeStatus::Active implies post.nodes[a].stake >= post.min_stake by {
        if a != address {
            assert(state.nodes.contains_key(a));
        } else {
            let node = state.nodes[address];
            if node.stake + amount < state.min_stake {
                assert(state.nodes.contains_key(address));
            }
        }
    }
}

/// Unstaking keeps every active node staked at the minimum.
pub proof fn lemma_unstake_keeps_active_staked(
    state: RelayRegistryState,
    address: u64,
    amount: i128,
    timestamp: u64,
    ledger: u32,
)
    requires
        state.active_nodes_staked(),
        state.unstake_error(address, amount, ledger) is None,
    ensures
        state.with_node(address, state.unstaked(address, amount, timestamp)).active_nodes_staked(),
{
    let post = state.with_node(address, state.unstaked(address, amount, timestamp));
    assert forall|a: u64| #[trigger] post.nodes.contains_key(a) && post.nodes[a].status
        == NodeStatus::Active implies post.nodes[a].stake >= post.min_stake by {
        if a != address {
            assert(state.nodes.contains_key(a));
        }
    }
}

/// Slashing keeps every active node staked at the minimum, and every slashed
/// node empty.
pub proof fn lemma_slash_keeps_invariants(state: RelayRegistryState, address: u64, timestamp: u64)
    requires
        state.active_nodes_staked(),
        state.slashed_nodes_empty(),
        state.slash_error(address) is None,
    ensures
        state.with_node(address, state.slashed(address, timestamp)).active_nodes_staked(),
        state.with_node(address, state.slashed(address, timestamp)).slashed_nodes_empty(),
{
    let post = state.with_node(address, state.slashed(address, timestamp));
    assert forall|a: u64| #[trigger] post.nodes.contains_key(a) && post.nodes[a].status
        == NodeStatus::Active implies post.nodes[a].stake >= post.min_stake by {
        if a != address {
            assert(state.nodes.contains_key(a));
        }
    }
    assert forall|a: u64| #[trigger] post.nodes.contains_key(a) && post.nodes[a].status
        == NodeStatus::Slashed implies post.nodes[a].stake == 0 by {
        if a != address {
            assert(state.nodes.contains_key(a));
        }
    }
}

/// Staking an amount and then unstaking the same amount gives the node back
/// its stake.
pub proof fn lemma_stake_then_unstake_restores_stake(
    state: RelayRegistryState,
    address: u64,
    amount: i128,
    t1: u64,
    t2: u64,
    ledger: u32,
)
    requires
        state.stake_error(address, amount) is None,
        state.with_node(address, state.staked(address, amount, t1)).unstake_error(address, amount, ledger)
            is None,
    ensures
        state.with_node(address, state.staked(address, amount, t1)).unstaked(address, amount, t2).stake
            == state.nodes[address].stake,
{
}

/// `get_node` after `set_node` returns the record written, and every other
/// node's record stays as it was.
pub proof fn lemma_node_reads_back(state: RelayRegistryState, address: u64, node: RelayNode, other: u64)
    requires
        other != address,
    ensures
        state.with_node(address, node).nodes.get(address) == Some(node),
        state.with_node(address, node).nodes.get(other) == state.nodes.get(other),
{
}

/// Registration keeps every node's stake at or above zero.
pub proof fn lemma_register_keeps_stakes_nonnegative(
    state: RelayRegistryState,
    address: u64,
    metadata: NodeMetadata,
    timestamp: u64,
    ledger: u32,
)
    requires
        state.stakes_nonnegative(),
    ensures
        state.with_node(address, RelayRegistryState::new_node(address, metadata, timestamp, ledger)).stakes_nonnegative(),
{
    let post = state.with_node(address, RelayRegistryState::new_node(address, metadata, timestamp, ledger));
    assert forall|a: u64| #[trigger] post.nodes.contains_key(a) implies post.nodes[a].stake >= 0 by {
        if a != address {
            assert(state.nodes.contains_key(a));
        }
    }
}

/// Staking keeps every node's stake at or above zero.
pub proof fn lemma_stake_keeps_stakes_nonnegative(
    state: RelayRegistryState,
    address: u64,
    amount: i128,
    timestamp: u64,
)
    requires
        state.stakes_nonnegative(),
        state.stake_error(address, amount) is None,
    ensures
        state.with_node(address, state.staked(address, amount, timestamp)).stakes_nonnegative(),
{
    let post = state.with_node(address, state.staked(address, amount, timestamp));
    assert forall|a: u64| #[trigger] post.nodes.contains_key(a) implies post.nodes[a].stake >= 0 by {
        assert(state.nodes.contains_key(address));
        if a != address {
            assert(state.nodes.contains_key(a));
        }
    }
}

/// Unstaking keeps every node's stake at or above zero: no node can take out
/// more than it holds.
pub proof fn lemma_unstake_keeps_stakes_nonnegative(
    state: RelayRegistryState,
    address: u64,
    amount: i128,
    timestamp: u64,
    ledger: u32,
)
    requires
        state.stakes_nonnegative(),
        state.unstake_error(address, amount, ledger) is None,
    ensures
        state.with_node(address, state.unstaked(address, amount, timestamp)).stakes_nonnegative(),
{
    let post = state.with_node(address, state.unstaked(address, amount, timestamp));
    assert forall|a: u64| #[trigger] post.nodes.contains_key(a) implies post.nodes[a].stake >= 0 by {
        if a != address {
            assert(state.nodes.contains_key(a));
        }
    }
}

/// Slashing keeps every node's stake at or above zero.
pub proof fn lemma_slash_keeps_stakes_nonnegative(state: RelayRegistryState, address: u64, timestamp: u64)
    requires
        state.stakes_nonnegative(),
        state.slash_error(address) is None,
    ensures
        state.with_node(address, state.slashed(address, timestamp)).stakes_nonnegative(),
{
    let post = state.with_node(address, state.slashed(address, timestamp));
    assert forall|a: u64| #[trigger] post.nodes.contains_key(a) implies post.nodes[a].stake >= 0 by {
        if a != address {
            assert(state.nodes.contains_key(a));
        }
    }
}

/// A registration is accepted exactly when the address is not registered
/// and the uptime commitment is at most 100. The new record holds the given
/// address and metadata, no stake, status `Inactive`, and the registration
/// time and ledger; no other record changes.
pub proof fn lemma_register_behaviour(
    state: RelayRegistryState,
    address: u64,
    metadata: NodeMetadata,
    timestamp: u64,
    ledger: u32,
)
    ensures
        state.nodes.contains_key(address) ==> state.register_error(address, metadata) == Some(
            ContractError::AlreadyRegistered,
        ),
        state.register_error(address, metadata) is None <==> (!state.nodes.contains_key(address)
            && metadata.uptime_commitment <= 100),
        ({
            let post = state.with_node(address, RelayRegistryState::new_node(address, metadata, timestamp, ledger));
            let node = post.nodes[address];
            &&& post.nodes.contains_key(address)
            &&& node.address == address
            &&& node.stake == 0
            &&& node.status == NodeStatus::Inactive
            &&& node.metadata == metadata
            &&& node.registered_at == timestamp
            &&& node.registered_ledger == ledger
            &&& node.last_active == timestamp
            &&& forall|a: u64| a != address ==> post.nodes.get(a) == state.nodes.get(a)
        }),
{
}

/// A stake deposit is accepted exactly when the node is registered and not
/// slashed, the amount is positive and the stake does not overflow. It adds
/// exactly the amount to the stake, makes the node active once the new stake
/// reaches the minimum and otherwise keeps its status, marks it active now,
/// and changes nothing else about it or any other node.
pub proof fn lemma_stake_behaviour(state: RelayRegistryState, address: u64, amount: i128, timestamp: u64)
    ensures
        !state.nodes.contains_key(address) ==> state.stake_error(address, amount) == Some(
            ContractError::NotRegistered,
        ),
        state.stake_error(address, amount) is None <==> ({
            &&& state.nodes.contains_key(address)
            &&& state.nodes[address].status != NodeStatus::Slashed
            &&& amount > 0
            &&& state.nodes[address].stake + amount <= i128::MAX
        }),
        state.stake_error(address, amount) is None ==> ({
            let before = state.nodes[address];
            let post = state.with_node(address, state.staked(address, amount, timestamp));
            let node = post.nodes[address];
            &&& node.stake == before.stake + amount
            &&& (before.stake + amount >= state.min_stake ==> node.status == NodeStatus::Active)
            &&& (before.stake + amount < state.min_stake ==> node.status == before.status)
            &&& node.last_active == timestamp
            &&& node.address == before.address
            &&& node.metadata == before.metadata
            &&& node.registered_at == before.registered_at
            &&& node.registered_ledger == before.registered_ledger
            &&& forall|a: u64| a != address ==> post.nodes.get(a) == state.nodes.get(a)
        }),
{
}

/// An unstake is accepted exactly when the amount is positive, the node is
/// registered and active, at least the lock period's number of ledgers has
/// passed since its registration ledger, and the amount is at most its
/// stake. It takes exactly the amount off the stake, makes the node inactive
/// once the stake falls below the minimum and otherwise keeps it active,
/// marks it active now, and changes nothing else.
pub proof fn lemma_unstake_behaviour(
    state: RelayRegistryState,
    address: u64,
    amount: i128,
    timestamp: u64,
    ledger: u32,
)
    ensures
        state.unstake_error(address, amount, ledger) is None <==> ({
            &&& amount > 0
            &&& state.nodes.contains_key(address)
            &&& state.nodes[address].status == NodeStatus::Active
            &&& ledger >= state.nodes[address].registered_ledger + state.stake_lock_period
            &&& amount <= state.nodes[address].stake
        }),
        amount > 0 && state.nodes.contains_key(address) && state.nodes[address].status == NodeStatus::Active
            && ledger < state.nodes[address].registered_ledger + state.stake_lock_period
            ==> state.unstake_error(address, amount, ledger) == Some(ContractError::StakeLocked),
        state.unstake_error(address, amount, ledger) is None ==> ({
            let before = state.nodes[address];
            let post = state.with_node(address, state.unstaked(address, amount, timestamp));
            let node = post.nodes[address];
            &&& node.stake == before.stake - amount
            &&& node.stake >= 0
            &&& (before.stake - amount < state.min_stake ==> node.status == NodeStatus::Inactive)
            &&& (before.stake - amount >= state.min_stake ==> node.status == NodeStatus::Active)
            &&& node.last_active == timestamp
            &&& node.address == before.address
            &&& node.metadata == before.metadata
            &&& node.registered_at == before.registered_at
            &&& node.registered_ledger == before.registered_ledger
            &&& forall|a: u64| a != address ==> post.nodes.get(a) == state.nodes.get(a)
        }),
{
}

/// A slash is accepted for every registered node that is not yet slashed,
/// whether active or inactive, and refused otherwise. It forfeits the whole
/// stake, marks the node `Slashed`, records the time, and changes nothing
/// else about it or any other node.
pub proof fn lemma_slash_behaviour(state: RelayRegistryState, address: u64, timestamp: u64)
    ensures
        state.slash_error(address) is None <==> (state.nodes.contains_key(address)
            && state.nodes[address].status != NodeStatus::Slashed),
        state.slash_error(address) is None ==> ({
            let before = state.nodes[address];
            let post = state.with_node(address, state.slashed(address, timestamp));
            let node = post.nodes[address];
            &&& node.stake == 0
            &&& node.status == NodeStatus::Slashed
            &&& node.last_active == timestamp
            &&& node.address == before.address
            &&& node.metadata == before.metadata
            &&& node.registered_at == before.registered_at
            &&& node.registered_ledger == before.registered_ledger
            &&& forall|a: u64| a != address ==> post.nodes.get(a) == state.nodes.get(a)
        }),
{
}

} // verus!
