use conduit_contracts::dispute_resolver::errors::ContractError;
use conduit_contracts::dispute_resolver::storage;
use conduit_contracts::dispute_resolver::DisputeResolverContract;

type Store = DisputeResolverContract<String, bool>;

#[test]
fn dispute_ids_are_consecutive() {
    let mut store: Store = DisputeResolverContract::new();
    assert_eq!(storage::get_dispute_count(&store), 0);
    assert_eq!(storage::get_next_dispute_id(&mut store), 1);
    assert_eq!(storage::get_next_dispute_id(&mut store), 2);
    assert_eq!(storage::get_dispute_count(&store), 2);
}

#[test]
fn disputes_and_rulings_read_back() {
    let mut store: Store = DisputeResolverContract::new();
    assert_eq!(storage::get_dispute(&store, 1), None);
    storage::set_dispute(&mut store, 1, String::from("open"));
    assert_eq!(storage::get_dispute(&store, 1), Some(&String::from("open")));
    storage::set_dispute(&mut store, 1, String::from("resolved"));
    assert_eq!(storage::get_dispute(&store, 1), Some(&String::from("resolved")));
    assert_eq!(storage::get_ruling(&store, 1), None);
    storage::set_ruling(&mut store, 1, true);
    assert_eq!(storage::get_ruling(&store, 1), Some(&true));
}

#[test]
fn tx_lookup_reads_back_latest() {
    let mut store: Store = DisputeResolverContract::new();
    let tx_a = [7u8; 32];
    let mut tx_b = [7u8; 32];
    tx_b[31] = 8;
    assert_eq!(storage::get_dispute_by_tx(&store, &tx_a), None);
    storage::set_dispute_by_tx(&mut store, &tx_a, 3);
    storage::set_dispute_by_tx(&mut store, &tx_b, 4);
    assert_eq!(storage::get_dispute_by_tx(&store, &tx_a), Some(3));
    assert_eq!(storage::get_dispute_by_tx(&store, &tx_b), Some(4));
    storage::set_dispute_by_tx(&mut store, &tx_a, 9);
    assert_eq!(storage::get_dispute_by_tx(&store, &tx_a), Some(9));
    assert_eq!(storage::get_dispute_by_tx(&store, &tx_b), Some(4));
}

#[test]
fn config_and_keys_read_back() {
    let mut store: Store = DisputeResolverContract::new();
    assert_eq!(storage::get_resolution_window(&store), 0);
    storage::set_resolution_window(&mut store, 120);
    assert_eq!(storage::get_resolution_window(&store), 120);
    assert!(!storage::has_admin(&store));
    storage::set_admin(&mut store, 5);
    assert!(storage::has_admin(&store));
    assert_eq!(storage::get_admin(&store), 5);
    storage::set_public_key(&mut store, 5, &[1u8; 32]);
    assert_eq!(storage::get_public_key(&store, 5), [1u8; 32]);
}

#[test]
fn dispute_error_codes_match_the_contract() {
    assert_eq!(ContractError::DisputeNotFound.code(), 1);
    assert_eq!(ContractError::DuplicateDispute.code(), 8);
    assert_eq!(ContractError::AlreadyInitialized.code(), 14);
    assert_eq!(ContractError::InvalidProofSignature.code(), 16);
}
