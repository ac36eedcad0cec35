use conduit_contracts::council::AdminCouncil;
use conduit_contracts::ledger::{LedgerContext, Transfer};
use conduit_contracts::relay_registry::errors::ContractError;
use conduit_contracts::relay_registry::storage;
use conduit_contracts::relay_registry::types::{NodeMetadata, NodeStatus};
use conduit_contracts::relay_registry::RelayRegistryContract;

const CONTRACT: u64 = 1;
const TOKEN: u64 = 2;
const NODE: u64 = 10;

/// Ledger `t`, closed at time `t`.
fn at(t: u64) -> LedgerContext {
    LedgerContext { timestamp: t, sequence: t as u32, current_contract: CONTRACT }
}

fn metadata(uptime_commitment: u32) -> NodeMetadata {
    NodeMetadata { region: String::from("eu-west"), capacity: 500, uptime_commitment }
}

/// A registry with a minimum stake of 100, a lock period of 50 and a token.
fn setup() -> RelayRegistryContract {
    let mut registry = RelayRegistryContract::new();
    storage::set_min_stake(&mut registry, 100);
    storage::set_stake_lock_period(&mut registry, 50);
    storage::set_token_address(&mut registry, TOKEN);
    storage::set_admin_council(&mut registry, &AdminCouncil { members: vec![3, 4], threshold: 2 });
    registry
}

#[test]
fn register_creates_inactive_node() {
    let mut registry = setup();
    registry.register(&at(7), NODE, metadata(99)).unwrap();

    let node = registry.get_node(NODE).unwrap();
    assert_eq!(node.address, NODE);
    assert_eq!(node.stake, 0);
    assert_eq!(node.status, NodeStatus::Inactive);
    assert_eq!(node.registered_at, 7);
    assert_eq!(node.registered_ledger, 7);
    assert_eq!(node.last_active, 7);
    assert_eq!(node.metadata, metadata(99));
    assert_eq!(storage::get_node_count(&registry), 1);
    assert!(!registry.is_active(NODE));
}

#[test]
fn register_twice_is_refused() {
    let mut registry = setup();
    registry.register(&at(0), NODE, metadata(90)).unwrap();
    assert_eq!(registry.register(&at(1), NODE, metadata(90)), Err(ContractError::AlreadyRegistered));
    assert_eq!(storage::get_node_count(&registry), 1);
}

#[test]
fn register_rejects_uptime_above_100() {
    let mut registry = setup();
    assert_eq!(registry.register(&at(0), NODE, metadata(101)), Err(ContractError::InvalidMetadata));
    registry.register(&at(0), NODE, metadata(100)).unwrap();
}

#[test]
fn stake_activates_at_minimum() {
    let mut registry = setup();
    registry.register(&at(0), NODE, metadata(90)).unwrap();

    let t = registry.stake(&at(5), NODE, 60).unwrap();
    assert_eq!(t, Transfer { from: NODE, to: CONTRACT, amount: 60 });
    assert!(!registry.is_active(NODE));

    registry.stake(&at(6), NODE, 40).unwrap();
    assert!(registry.is_active(NODE));
    let node = registry.get_node(NODE).unwrap();
    assert_eq!(node.stake, 100);
    assert_eq!(node.last_active, 6);
}

#[test]
fn stake_errors() {
    let mut registry = setup();
    assert_eq!(registry.stake(&at(0), NODE, 10), Err(ContractError::NotRegistered));
    registry.register(&at(0), NODE, metadata(90)).unwrap();
    assert_eq!(registry.stake(&at(0), NODE, 0), Err(ContractError::InsufficientStake));
    assert_eq!(registry.stake(&at(0), NODE, -5), Err(ContractError::InsufficientStake));
    registry.stake(&at(0), NODE, i128::MAX).unwrap();
    assert_eq!(registry.stake(&at(0), NODE, 1), Err(ContractError::Overflow));
}

#[test]
fn unstake_after_lock_period() {
    let mut registry = setup();
    registry.register(&at(10), NODE, metadata(90)).unwrap();
    registry.stake(&at(11), NODE, 150).unwrap();

    assert_eq!(registry.unstake(&at(59), NODE, 20), Err(ContractError::StakeLocked));

    let (node, t) = registry.unstake(&at(60), NODE, 20).unwrap();
    assert_eq!(node.stake, 130);
    assert_eq!(node.status, NodeStatus::Active);
    assert_eq!(t, Transfer { from: CONTRACT, to: NODE, amount: 20 });

    let (node, _) = registry.unstake(&at(61), NODE, 31).unwrap();
    assert_eq!(node.stake, 99);
    assert_eq!(node.status, NodeStatus::Inactive);
    assert_eq!(registry.get_node(NODE).unwrap(), node);
    assert_eq!(registry.unstake(&at(62), NODE, 1), Err(ContractError::NodeNotActive));
}

#[test]
fn unstake_errors() {
    let mut registry = setup();
    assert_eq!(registry.unstake(&at(100), NODE, 0), Err(ContractError::InsufficientStake));
    assert_eq!(registry.unstake(&at(100), NODE, 5), Err(ContractError::NotRegistered));
    registry.register(&at(0), NODE, metadata(90)).unwrap();
    assert_eq!(registry.unstake(&at(100), NODE, 5), Err(ContractError::NodeNotActive));
    registry.stake(&at(0), NODE, 100).unwrap();
    assert_eq!(registry.unstake(&at(100), NODE, 101), Err(ContractError::InsufficientStake));
}

#[test]
fn lock_period_counts_ledgers_not_seconds() {
    let mut registry = setup();
    storage::set_stake_lock_period(&mut registry, 10);
    let registered = LedgerContext { timestamp: 100, sequence: 50, current_contract: CONTRACT };
    registry.register(&registered, NODE, metadata(90)).unwrap();
    registry.stake(&registered, NODE, 100).unwrap();

    let later_by_seconds = LedgerContext { timestamp: 110, sequence: 51, current_contract: CONTRACT };
    assert_eq!(registry.unstake(&later_by_seconds, NODE, 5), Err(ContractError::StakeLocked));
    let early = LedgerContext { timestamp: 10_000, sequence: 59, current_contract: CONTRACT };
    assert_eq!(registry.unstake(&early, NODE, 5), Err(ContractError::StakeLocked));
    let unlocked = LedgerContext { timestamp: 120, sequence: 60, current_contract: CONTRACT };
    let (node, _) = registry.unstake(&unlocked, NODE, 5).unwrap();
    assert_eq!(node.stake, 95);
    assert_eq!(node.last_active, 120);
}

#[test]
fn stake_then_unstake_restores_stake() {
    let mut registry = setup();
    registry.register(&at(0), NODE, metadata(90)).unwrap();
    registry.stake(&at(0), NODE, 120).unwrap();
    registry.stake(&at(1), NODE, 30).unwrap();
    let (node, _) = registry.unstake(&at(50), NODE, 30).unwrap();
    assert_eq!(node.stake, 120);
}

#[test]
fn slash_is_permanent() {
    let mut registry = setup();
    registry.register(&at(0), NODE, metadata(90)).unwrap();
    registry.stake(&at(0), NODE, 500).unwrap();

    registry.slash(&at(3), NODE).unwrap();
    let node = registry.get_node(NODE).unwrap();
    assert_eq!(node.stake, 0);
    assert_eq!(node.status, NodeStatus::Slashed);
    assert_eq!(node.last_active, 3);

    assert_eq!(registry.slash(&at(4), NODE), Err(ContractError::NodeSlashed));
    assert_eq!(registry.stake(&at(4), NODE, 10), Err(ContractError::NodeSlashed));
    assert_eq!(registry.unstake(&at(400), NODE, 10), Err(ContractError::NodeSlashed));
    assert_eq!(registry.register(&at(4), NODE, metadata(90)), Err(ContractError::AlreadyRegistered));
    assert_eq!(registry.get_node(NODE).unwrap(), node);
    assert!(!registry.is_active(NODE));
}

#[test]
fn slash_unknown_node_is_refused() {
    let mut registry = setup();
    assert_eq!(registry.slash(&at(0), NODE), Err(ContractError::NotRegistered));
}

#[test]
fn council_signers_cover_threshold() {
    let registry = setup();
    let approval = registry.council_signers();
    assert_eq!(approval.signers, vec![3, 4]);
    assert!(approval.sufficient);
}

#[test]
fn get_node_of_unknown_is_refused() {
    let registry = setup();
    assert_eq!(registry.get_node(NODE), Err(ContractError::NotRegistered));
    assert!(!registry.is_active(NODE));
}

#[test]
fn storage_helpers_read_back() {
    let mut registry = setup();
    registry.register(&at(0), NODE, metadata(90)).unwrap();
    assert!(storage::get_node(&registry, NODE).is_some());
    storage::remove_node(&mut registry, NODE);
    assert_eq!(storage::get_node(&registry, NODE), None);
    storage::set_node_count(&mut registry, 41);
    storage::increment_node_count(&mut registry);
    assert_eq!(storage::get_node_count(&registry), 42);
    assert_eq!(storage::get_min_stake(&registry), 100);
    assert_eq!(storage::get_stake_lock_period(&registry), 50);
    assert_eq!(storage::get_token_address(&registry), TOKEN);
    assert_eq!(storage::get_admin_council(&registry).threshold, 2);
}

#[test]
fn error_codes_are_distinct() {
    let all = [
        ContractError::AlreadyRegistered,
        ContractError::NotRegistered,
        ContractError::InsufficientStake,
        ContractError::StakeLocked,
        ContractError::NodeSlashed,
        ContractError::NodeNotActive,
        ContractError::InvalidMetadata,
        ContractError::Overflow,
    ];
    for (i, e) in all.iter().enumerate() {
        assert_eq!(e.code(), i as u32 + 1);
    }
}

#[test]
fn stake_never_goes_negative() {
    let mut registry = setup();
    registry.register(&at(0), NODE, metadata(90)).unwrap();
    registry.stake(&at(0), NODE, 100).unwrap();
    assert_eq!(registry.unstake(&at(60), NODE, 101), Err(ContractError::InsufficientStake));
    let (node, _) = registry.unstake(&at(60), NODE, 100).unwrap();
    assert_eq!(node.stake, 0);
    assert_eq!(node.status, NodeStatus::Inactive);
}
