use conduit_contracts::fee_distributor::errors::ContractError;
use conduit_contracts::fee_distributor::storage;
use conduit_contracts::fee_distributor::types::{AdminCouncil, EarningsRecord, FeeConfig, FeeEntry};
use conduit_contracts::fee_distributor::{Distribution, FeeDistributorContract};
use conduit_contracts::ledger::{LedgerContext, Transfer};

/// Hands out fresh account ids, as `Address::generate` does.
struct Accounts {
    next: u64,
}

impl Accounts {
    fn new() -> Self {
        Accounts { next: 100 }
    }

    fn generate(&mut self) -> u64 {
        self.next += 1;
        self.next
    }
}

fn ledger() -> LedgerContext {
    LedgerContext { timestamp: 0, sequence: 0, current_contract: 1 }
}

fn setup() -> (Accounts, LedgerContext, FeeDistributorContract) {
    let mut accounts = Accounts::new();
    let mut client = FeeDistributorContract::new();
    let admin = accounts.generate();
    let treasury = accounts.generate();
    client.initialize(admin, 50, 1000, treasury).unwrap();
    (accounts, ledger(), client)
}

// ── initialize() ────────────────────────────────────────────────────────────

#[test]
fn test_test_initialize_success() {
    let mut accounts = Accounts::new();
    let mut client = FeeDistributorContract::new();
    let admin = accounts.generate();
    let treasury = accounts.generate();

    client.initialize(admin, 50, 1000, treasury).unwrap();

    // With fee_rate_bps = 50 and batch_size = 200, fee should be 1
    let fee = client.calculate_fee(200).unwrap();
    assert_eq!(fee, 1);
}

#[test]
fn test_test_initialize_already_initialized() {
    let mut accounts = Accounts::new();
    let mut client = FeeDistributorContract::new();
    let admin = accounts.generate();
    let treasury = accounts.generate();

    client.initialize(admin, 50, 1000, treasury).unwrap();

    let result = client.initialize(admin, 50, 1000, treasury);
    assert_eq!(result, Err(ContractError::AlreadyInitialized));
}

// ── calculate_fee() ─────────────────────────────────────────────────────────

#[test]
fn test_calculate_fee_success() {
    let (_accounts, _ctx, client) = setup();

    assert_eq!(client.calculate_fee(200).unwrap(), 1);
    assert_eq!(client.calculate_fee(1000).unwrap(), 5);
    assert_eq!(client.calculate_fee(100).unwrap(), 0);
}

#[test]
fn test_calculate_fee_zero_batch() {
    let (_accounts, _ctx, client) = setup();

    let result = client.calculate_fee(0);
    assert_eq!(result, Err(ContractError::InvalidBatchSize));
}

#[test]
fn test_calculate_fee_boundary() {
    let (_accounts, _ctx, client) = setup();

    let max_batch_size = u32::MAX;
    let result = client.calculate_fee(max_batch_size);
    match result {
        Ok(fee) => {
            let expected: Option<i128> =
                (max_batch_size as i128).checked_mul(50i128).and_then(|x| x.checked_div(10000));
            if let Some(exp) = expected {
                assert_eq!(fee, exp);
            }
        }
        Err(ContractError::Overflow) => {}
        Err(e) => panic!("unexpected error {:?}", e),
    }
}

// ── distribute() ────────────────────────────────────────────────────────────

#[test]
fn test_distribute_success() {
    let (mut accounts, ctx, mut client) = setup();
    let relay = accounts.generate();

    client.distribute(&ctx, relay, 1, 200).unwrap();

    let earnings = client.get_earnings(relay);
    assert_eq!(earnings.total_earned, 1);
    assert_eq!(earnings.unclaimed, 1);
}

#[test]
fn test_distribute_duplicate_batch() {
    let (mut accounts, ctx, mut client) = setup();
    let relay = accounts.generate();

    client.distribute(&ctx, relay, 1, 200).unwrap();

    let result = client.distribute(&ctx, relay, 1, 200);
    assert_eq!(result, Err(ContractError::BatchAlreadyDistributed));
}

#[test]
fn test_distribute_zero_batch_size() {
    let (mut accounts, ctx, mut client) = setup();
    let relay = accounts.generate();

    let result = client.distribute(&ctx, relay, 1, 0);
    assert_eq!(result, Err(ContractError::InvalidBatchSize));
}

#[test]
fn test_distribute_treasury_share_split() {
    let (mut accounts, ctx, mut client) = setup();
    let relay = accounts.generate();

    client.distribute(&ctx, relay, 1, 10000).unwrap();

    let earnings = client.get_earnings(relay);
    assert_eq!(earnings.total_earned, 45);
    assert_eq!(earnings.unclaimed, 45);
    assert_eq!(earnings.total_earned + 5, 50);
}

// ── claim() ─────────────────────────────────────────────────────────────────

#[test]
fn test_claim_success() {
    let (mut accounts, ctx, mut client) = setup();
    let relay = accounts.generate();

    client.distribute(&ctx, relay, 1, 200).unwrap();

    let earnings_before = client.get_earnings(relay);
    assert_eq!(earnings_before.unclaimed, 1);

    let payout = client.claim(relay).unwrap();
    assert_eq!(payout, 1);

    let earnings_after = client.get_earnings(relay);
    assert_eq!(earnings_after.unclaimed, 0);
    assert_eq!(earnings_after.total_claimed, 1);
    assert_eq!(earnings_after.total_earned, 1);
}

#[test]
fn test_claim_nothing_to_claim() {
    let (mut accounts, _ctx, mut client) = setup();
    let relay = accounts.generate();

    let result = client.claim(relay);
    assert_eq!(result, Err(ContractError::NothingToClaim));
}

// ── get_earnings() ──────────────────────────────────────────────────────────

#[test]
fn test_get_earnings_existing() {
    let (mut accounts, ctx, mut client) = setup();
    let relay = accounts.generate();

    client.distribute(&ctx, relay, 1, 200).unwrap();
    client.distribute(&ctx, relay, 2, 200).unwrap();

    let earnings = client.get_earnings(relay);
    assert_eq!(earnings.total_earned, 2);
    assert_eq!(earnings.unclaimed, 2);
    assert_eq!(earnings.total_claimed, 0);
}

#[test]
fn test_get_earnings_default() {
    let (mut accounts, _ctx, client) = setup();
    let relay = accounts.generate();

    let earnings = client.get_earnings(relay);
    assert_eq!(earnings.total_earned, 0);
    assert_eq!(earnings.unclaimed, 0);
    assert_eq!(earnings.total_claimed, 0);
}

// ── set_fee_rate() ──────────────────────────────────────────────────────────

#[test]
fn test_set_fee_rate_success() {
    let mut accounts = Accounts::new();
    let mut client = FeeDistributorContract::new();
    let admin = accounts.generate();
    let treasury = accounts.generate();
    client.initialize(admin, 50, 1000, treasury).unwrap();

    client.set_fee_rate(100).unwrap();

    let fee = client.calculate_fee(200).unwrap();
    assert_eq!(fee, 2);
}

#[test]
fn test_set_fee_rate_invalid_zero() {
    let mut accounts = Accounts::new();
    let mut client = FeeDistributorContract::new();
    let admin = accounts.generate();
    let treasury = accounts.generate();
    client.initialize(admin, 50, 1000, treasury).unwrap();

    let result = client.set_fee_rate(0);
    assert_eq!(result, Err(ContractError::InvalidFeeRate));
}

#[test]
fn test_set_fee_rate_invalid_above_max() {
    let mut accounts = Accounts::new();
    let mut client = FeeDistributorContract::new();
    let admin = accounts.generate();
    let treasury = accounts.generate();
    client.initialize(admin, 50, 1000, treasury).unwrap();

    let result = client.set_fee_rate(10001);
    assert_eq!(result, Err(ContractError::InvalidFeeRate));
}

// ── combined scenarios ──────────────────────────────────────────────────────

#[test]
fn test_multiple_distributions_same_relay() {
    let (mut accounts, ctx, mut client) = setup();
    let relay = accounts.generate();

    client.distribute(&ctx, relay, 1, 200).unwrap();
    client.distribute(&ctx, relay, 2, 1000).unwrap();
    client.distribute(&ctx, relay, 3, 400).unwrap();

    let earnings = client.get_earnings(relay);
    assert_eq!(earnings.total_earned, 8);
    assert_eq!(earnings.unclaimed, 8);
}

#[test]
fn test_multiple_distributions_different_relays() {
    let (mut accounts, ctx, mut client) = setup();
    let relay1 = accounts.generate();
    let relay2 = accounts.generate();

    client.distribute(&ctx, relay1, 1, 200).unwrap();
    client.distribute(&ctx, relay2, 2, 200).unwrap();

    let earnings1 = client.get_earnings(relay1);
    let earnings2 = client.get_earnings(relay2);
    assert_eq!(earnings1.total_earned, 1);
    assert_eq!(earnings1.unclaimed, 1);
    assert_eq!(earnings2.total_earned, 1);
    assert_eq!(earnings2.unclaimed, 1);
}

#[test]
fn test_multiple_claims() {
    let (mut accounts, ctx, mut client) = setup();
    let relay = accounts.generate();

    client.distribute(&ctx, relay, 1, 200).unwrap();
    let payout1 = client.claim(relay).unwrap();
    assert_eq!(payout1, 1);

    client.distribute(&ctx, relay, 2, 1000).unwrap();
    let payout2 = client.claim(relay).unwrap();
    assert_eq!(payout2, 5);

    let earnings = client.get_earnings(relay);
    assert_eq!(earnings.total_earned, 6);
    assert_eq!(earnings.total_claimed, 6);
    assert_eq!(earnings.unclaimed, 0);
}

#[test]
fn test_claim_after_multiple_distributions() {
    let (mut accounts, ctx, mut client) = setup();
    let relay = accounts.generate();

    client.distribute(&ctx, relay, 1, 200).unwrap();
    client.distribute(&ctx, relay, 2, 400).unwrap();
    client.distribute(&ctx, relay, 3, 600).unwrap();

    let payout = client.claim(relay).unwrap();
    assert_eq!(payout, 6);

    let earnings = client.get_earnings(relay);
    assert_eq!(earnings.total_earned, 6);
    assert_eq!(earnings.total_claimed, 6);
    assert_eq!(earnings.unclaimed, 0);
}

#[test]
fn test_calculate_fee_with_different_rates() {
    let mut accounts = Accounts::new();
    let mut client = FeeDistributorContract::new();
    let admin = accounts.generate();
    let treasury = accounts.generate();
    client.initialize(admin, 100, 1000, treasury).unwrap();

    assert_eq!(client.calculate_fee(200).unwrap(), 2);

    client.set_fee_rate(500).unwrap();
    assert_eq!(client.calculate_fee(200).unwrap(), 10);
}

#[test]
fn test_distribute_with_different_batch_sizes() {
    let (mut accounts, ctx, mut client) = setup();
    let relay = accounts.generate();

    client.distribute(&ctx, relay, 1, 1).unwrap();
    client.distribute(&ctx, relay, 2, 100).unwrap();
    client.distribute(&ctx, relay, 3, 200).unwrap();
    client.distribute(&ctx, relay, 4, 10000).unwrap();

    let earnings = client.get_earnings(relay);
    assert_eq!(earnings.total_earned, 46);
}

#[test]
fn test_earnings_invariant_total_equals_claimed_plus_unclaimed() {
    let (mut accounts, ctx, mut client) = setup();
    let relay = accounts.generate();

    client.distribute(&ctx, relay, 1, 200).unwrap();
    client.distribute(&ctx, relay, 2, 400).unwrap();

    let earnings = client.get_earnings(relay);
    assert_eq!(earnings.total_earned, earnings.total_claimed + earnings.unclaimed);

    client.claim(relay).unwrap();

    let earnings2 = client.get_earnings(relay);
    assert_eq!(earnings2.total_earned, earnings2.total_claimed + earnings2.unclaimed);
}

#[test]
fn test_distribute_small_batch_size() {
    let (mut accounts, ctx, mut client) = setup();
    let relay = accounts.generate();

    client.distribute(&ctx, relay, 1, 1).unwrap();

    let earnings = client.get_earnings(relay);
    assert_eq!(earnings.total_earned, 0);
}

#[test]
fn test_distribute_large_batch_size() {
    let (mut accounts, ctx, mut client) = setup();
    let relay = accounts.generate();

    client.distribute(&ctx, relay, 1, 100000).unwrap();

    let earnings = client.get_earnings(relay);
    assert_eq!(earnings.total_earned, 450);
}

#[test]
fn test_fee_rate_change_affects_future_distributions() {
    let mut accounts = Accounts::new();
    let ctx = ledger();
    let mut client = FeeDistributorContract::new();
    let admin = accounts.generate();
    let treasury = accounts.generate();
    let relay = accounts.generate();

    client.initialize(admin, 50, 1000, treasury).unwrap();

    client.distribute(&ctx, relay, 1, 200).unwrap();
    client.set_fee_rate(200).unwrap();
    client.distribute(&ctx, relay, 2, 200).unwrap();

    let earnings = client.get_earnings(relay);
    assert_eq!(earnings.total_earned, 5);
}

#[test]
fn test_treasury_share_calculation_edge_cases() {
    let mut accounts = Accounts::new();
    let ctx = ledger();
    let mut client = FeeDistributorContract::new();
    let admin = accounts.generate();
    let treasury = accounts.generate();
    let relay = accounts.generate();

    client.initialize(admin, 100, 5000, treasury).unwrap();
    client.distribute(&ctx, relay, 1, 1000).unwrap();

    let earnings = client.get_earnings(relay);
    assert_eq!(earnings.total_earned, 5);
}

#[test]
fn test_batch_id_uniqueness_across_relays() {
    let (mut accounts, ctx, mut client) = setup();
    let relay1 = accounts.generate();
    let relay2 = accounts.generate();

    client.distribute(&ctx, relay1, 1, 200).unwrap();

    let result = client.distribute(&ctx, relay2, 1, 200);
    assert_eq!(result, Err(ContractError::BatchAlreadyDistributed));
}

#[test]
fn test_calculate_fee_rounding_behavior() {
    let (_accounts, _ctx, client) = setup();

    assert_eq!(client.calculate_fee(99).unwrap(), 0);
    assert_eq!(client.calculate_fee(100).unwrap(), 0);
    assert_eq!(client.calculate_fee(101).unwrap(), 0);
    assert_eq!(client.calculate_fee(200).unwrap(), 1);
}

#[test]
fn test_set_fee_rate_boundary_values() {
    let mut accounts = Accounts::new();
    let mut client = FeeDistributorContract::new();
    let admin = accounts.generate();
    let treasury = accounts.generate();
    client.initialize(admin, 50, 1000, treasury).unwrap();

    client.set_fee_rate(1).unwrap();
    assert_eq!(client.calculate_fee(10000).unwrap(), 1);

    client.set_fee_rate(10000).unwrap();
    assert_eq!(client.calculate_fee(100).unwrap(), 100);
}

#[test]
fn test_distribute_with_zero_treasury_share() {
    let mut accounts = Accounts::new();
    let ctx = ledger();
    let mut client = FeeDistributorContract::new();
    let admin = accounts.generate();
    let treasury = accounts.generate();
    let relay = accounts.generate();

    client.initialize(admin, 100, 0, treasury).unwrap();
    client.distribute(&ctx, relay, 1, 1000).unwrap();

    let earnings = client.get_earnings(relay);
    assert_eq!(earnings.total_earned, 10);
}

#[test]
fn test_distribute_with_max_treasury_share() {
    let mut accounts = Accounts::new();
    let ctx = ledger();
    let mut client = FeeDistributorContract::new();
    let admin = accounts.generate();
    let treasury = accounts.generate();
    let relay = accounts.generate();

    client.initialize(admin, 100, 10000, treasury).unwrap();
    client.distribute(&ctx, relay, 1, 1000).unwrap();

    let earnings = client.get_earnings(relay);
    assert_eq!(earnings.total_earned, 0);
}

#[test]
fn test_claim_preserves_total_earned() {
    let (mut accounts, ctx, mut client) = setup();
    let relay = accounts.generate();

    client.distribute(&ctx, relay, 1, 200).unwrap();
    client.distribute(&ctx, relay, 2, 400).unwrap();

    let total_earned_before = client.get_earnings(relay).total_earned;

    client.claim(relay).unwrap();

    let earnings_after = client.get_earnings(relay);
    assert_eq!(earnings_after.total_earned, total_earned_before);
    assert_eq!(earnings_after.unclaimed, 0);
    assert_eq!(earnings_after.total_claimed, total_earned_before);
}

// ── further cases ───────────────────────────────────────────────────────────

#[test]
fn distribute_returns_split_and_records_entry() {
    let (mut accounts, _ctx, mut client) = setup();
    let relay = accounts.generate();
    let ctx = LedgerContext { timestamp: 777, sequence: 3, current_contract: 1 };

    let split = client.distribute(&ctx, relay, 9, 10000).unwrap();
    assert_eq!(split, Distribution { fee: 50, treasury_share: 5, relay_payout: 45 });
    assert_eq!(split.relay_payout + split.treasury_share, split.fee);

    let entry = storage::get_fee_entry(&client, 9).unwrap();
    assert_eq!(
        entry,
        FeeEntry { batch_id: 9, relay_address: relay, amount: 50, treasury_share: 5, settled_at: 777 }
    );
    assert_eq!(storage::get_fee_entry(&client, 10), None);
}

#[test]
fn refused_distribution_changes_nothing() {
    let (mut accounts, ctx, mut client) = setup();
    let relay = accounts.generate();
    client.distribute(&ctx, relay, 1, 200).unwrap();
    let before = client.get_earnings(relay);

    assert_eq!(client.distribute(&ctx, relay, 1, 10000), Err(ContractError::BatchAlreadyDistributed));
    assert_eq!(client.distribute(&ctx, relay, 2, 0), Err(ContractError::InvalidBatchSize));
    assert_eq!(client.get_earnings(relay), before);
    assert_eq!(storage::get_fee_entry(&client, 2), None);
}

#[test]
fn distribute_overflow_is_refused() {
    let (mut accounts, ctx, mut client) = setup();
    let relay = accounts.generate();
    let record = EarningsRecord { total_earned: i128::MAX, total_claimed: 0, unclaimed: 0 };
    storage::set_earnings(&mut client, relay, &record);

    assert_eq!(client.distribute(&ctx, relay, 1, 10000), Err(ContractError::Overflow));
    assert_eq!(client.get_earnings(relay), record);
    assert_eq!(storage::get_fee_entry(&client, 1), None);
}

#[test]
fn claim_overflow_is_refused() {
    let (mut accounts, _ctx, mut client) = setup();
    let relay = accounts.generate();
    let record = EarningsRecord { total_earned: 0, total_claimed: i128::MAX, unclaimed: 1 };
    storage::set_earnings(&mut client, relay, &record);

    assert_eq!(client.claim(relay), Err(ContractError::Overflow));
    assert_eq!(client.get_earnings(relay), record);
}

#[test]
fn second_claim_finds_nothing() {
    let (mut accounts, ctx, mut client) = setup();
    let relay = accounts.generate();
    client.distribute(&ctx, relay, 1, 1000).unwrap();
    assert_eq!(client.claim(relay), Ok(5));
    assert_eq!(client.claim(relay), Err(ContractError::NothingToClaim));
}

#[test]
fn fee_of_largest_batch_at_highest_rate() {
    let mut client = FeeDistributorContract::new();
    client.initialize(1, 10000, 0, 2).unwrap();
    assert_eq!(client.calculate_fee(u32::MAX).unwrap(), u32::MAX as i128);
}

#[test]
fn set_fee_rate_needs_enough_council_members() {
    let mut client = FeeDistributorContract::new();
    let council = AdminCouncil { members: vec![7], threshold: 2 };
    let config = FeeConfig { fee_rate_bps: 50, treasury_share_bps: 0, council };
    storage::set_fee_config(&mut client, &config);

    assert_eq!(client.set_fee_rate(100), Err(ContractError::InsufficientApprovals));
    assert_eq!(client.calculate_fee(200).unwrap(), 1);
}

#[test]
fn storage_addresses_read_back() {
    let (_accounts, _ctx, mut client) = setup();
    assert_eq!(storage::get_treasury_address(&client), 102);
    storage::set_token_address(&mut client, 55);
    assert_eq!(storage::get_token_address(&client), 55);
    storage::set_treasury_address(&mut client, 56);
    assert_eq!(storage::get_treasury_address(&client), 56);
    assert_eq!(storage::get_fee_config(&client).fee_rate_bps, 50);
    assert_eq!(storage::get_fee_config(&client).council.members, vec![101]);
}

#[test]
fn fee_error_codes_match_the_contract() {
    assert_eq!(ContractError::BatchAlreadyDistributed.code(), 1);
    assert_eq!(ContractError::BatchNotFound.code(), 2);
    assert_eq!(ContractError::NothingToClaim.code(), 3);
    assert_eq!(ContractError::InvalidFeeRate.code(), 4);
    assert_eq!(ContractError::Unauthorized.code(), 5);
    assert_eq!(ContractError::InvalidBatchSize.code(), 6);
    assert_eq!(ContractError::TreasuryTransferFailed.code(), 7);
    assert_eq!(ContractError::Overflow.code(), 8);
    assert_eq!(ContractError::AlreadyInitialized.code(), 9);
    assert_eq!(ContractError::InsufficientApprovals.code(), 10);
    assert_eq!(ContractError::InvalidCouncilConfig.code(), 11);
}

#[test]
fn treasury_share_is_pushed_to_treasury() {
    let (mut accounts, ctx, mut client) = setup();
    let relay = accounts.generate();
    let split = client.distribute(&ctx, relay, 1, 10000).unwrap();
    assert_eq!(client.treasury_transfer(&ctx, &split), Some(Transfer { from: 1, to: 102, amount: 5 }));
    let small = client.distribute(&ctx, relay, 2, 200).unwrap();
    assert_eq!(client.treasury_transfer(&ctx, &small), None);
}

#[test]
fn claim_pays_the_relay() {
    let (mut accounts, ctx, mut client) = setup();
    let relay = accounts.generate();
    assert_eq!(client.claim_payout(&ctx, relay), Err(ContractError::NothingToClaim));
    client.distribute(&ctx, relay, 1, 1000).unwrap();
    assert_eq!(client.claim_payout(&ctx, relay), Ok((5, Transfer { from: 1, to: relay, amount: 5 })));
    assert_eq!(client.get_earnings(relay).total_claimed, 5);
    assert_eq!(client.claim_payout(&ctx, relay), Err(ContractError::NothingToClaim));
}
