//! Properties of the fee distributor that span its operations.

use vstd::prelude::*;

use super::storage::FeeDistributorState;
use super::errors::ContractError;
use super::types::{EarningsRecord, FeeEntry};
use super::{spec_fee, spec_treasury_share};

verus! {

impl FeeDistributorState {
    /// Every relay node's lifetime earnings equal what it claimed plus what is
    /// still claimable.
    pub open spec fn earnings_balanced(self) -> bool {
        forall|relay: u64| #[trigger] self.earnings_of(relay).balanced()
    }
}

/// The fee of a batch splits exactly into the treasury's share and the relay
/// node's payout; with a treasury share of at most 100% both parts are
/// non-negative and neither exceeds the fee.
pub proof fn lemma_fee_split_adds_up(state: FeeDistributorState, batch_size: u32)
    requires
        state.is_initialized(),
    ensures
        state.split_for(batch_size).relay_payout + state.split_for(batch_size).treasury_share
            == state.split_for(batch_size).fee,
        state.split_for(batch_size).fee == spec_fee(batch_size, state.fee_config.unwrap().fee_rate_bps),
        state.fee_config.unwrap().treasury_share_bps <= 10000 ==> 0 <= state.split_for(
            batch_size,
        ).treasury_share <= state.split_for(batch_size).fee,
        state.fee_config.unwrap().treasury_share_bps <= 10000 ==> 0 <= state.split_for(
            batch_size,
        ).relay_payout <= state.split_for(batch_size).fee,
{
    let config = state.fee_config.unwrap();
    let fee = spec_fee(batch_size, config.fee_rate_bps);
    super::lemma_fee_bounds(batch_size, config.fee_rate_bps);
    super::lemma_share_bounds(fee, config.treasury_share_bps);
    if config.treasury_share_bps <= 10000 {
        assert(fee * config.treasury_share_bps as int <= fee * 10000) by (nonlinear_arith)
            requires
                0 <= fee,
                config.treasury_share_bps <= 10000,
        ;
        assert(spec_treasury_share(fee, config.treasury_share_bps) <= fee);
    }
}

/// A fresh contract's earnings are balanced.
pub proof fn lemma_fresh_earnings_balanced(state: FeeDistributorState)
    requires
        state.earnings == Map::<u64, EarningsRecord>::empty(),
    ensures
        state.earnings_balanced(),
{
}

/// Distributing a batch keeps every relay node's earnings balanced.
pub proof fn lemma_distribution_keeps_earnings_balanced(
    state: FeeDistributorState,
    timestamp: u64,
    relay: u64,
    batch_id: u64,
    batch_size: u32,
)
    requires
        state.earnings_balanced(),
        state.is_initialized(),
        state.credit_fits(relay, state.split_for(batch_size).relay_payout as int),
    ensures
        state.after_distribution(timestamp, relay, batch_id, batch_size).earnings_balanced(),
{
    let post = state.after_distribution(timestamp, relay, batch_id, batch_size);
    assert forall|a: u64| #[trigger] post.earnings_of(a).balanced() by {
        assert(state.earnings_of(a).balanced());
    }
}

/// A distribution keeps the settling relay node's earnings balanced and its
/// claimed total unchanged, whatever the other records hold; a refused
/// distribution changes nothing.
pub proof fn lemma_distribution_keeps_relay_balanced(
    state: FeeDistributorState,
    timestamp: u64,
    relay: u64,
    batch_id: u64,
    batch_size: u32,
)
    requires
        state.earnings_of(relay).balanced(),
        state.is_initialized(),
        state.credit_fits(relay, state.split_for(batch_size).relay_payout as int),
    ensures
        state.after_distribution(timestamp, relay, batch_id, batch_size).earnings_of(relay).balanced(),
        state.after_distribution(timestamp, relay, batch_id, batch_size).earnings_of(relay).total_claimed
            == state.earnings_of(relay).total_claimed,
{
}

/// Claiming keeps every relay node's earnings balanced.
pub proof fn lemma_claim_keeps_earnings_balanced(state: FeeDistributorState, relay: u64)
    requires
        state.earnings_balanced(),
        state.claim_error(relay) is None,
    ensures
        state.with_earnings(relay, state.claimed(relay)).earnings_balanced(),
{
    let post = state.with_earnings(relay, state.claimed(relay));
    assert forall|a: u64| #[trigger] post.earnings_of(a).balanced() by {
        assert(state.earnings_of(a).balanced());
    }
}

/// Once a batch has been distributed it stays recorded with the relay node
/// and amounts of that distribution, so any later distribution of the same
/// batch id is refused with `BatchAlreadyDistributed`, whoever asks.
pub proof fn lemma_batch_distributed_once(
    state: FeeDistributorState,
    timestamp: u64,
    relay: u64,
    batch_id: u64,
    batch_size: u32,
)
    requires
        state.is_initialized(),
    ensures
        state.after_distribution(timestamp, relay, batch_id, batch_size).fee_entries.contains_key(
            batch_id,
        ),
        state.after_distribution(timestamp, relay, batch_id, batch_size).fee_entries[batch_id].relay_address
            == relay,
        state.after_distribution(timestamp, relay, batch_id, batch_size).fee_entries[batch_id].amount
            == state.split_for(batch_size).fee,
{
}

/// A distribution credits only the relay node that settled the batch: every
/// other relay node's earnings are unchanged, and the settling node's grow by
/// exactly its payout.
pub proof fn lemma_distribution_credits_only_relay(
    state: FeeDistributorState,
    timestamp: u64,
    relay: u64,
    batch_id: u64,
    batch_size: u32,
    other: u64,
)
    requires
        state.is_initialized(),
        state.credit_fits(relay, state.split_for(batch_size).relay_payout as int),
        other != relay,
    ensures
        state.after_distribution(timestamp, relay, batch_id, batch_size).earnings_of(other)
            == state.earnings_of(other),
        state.after_distribution(timestamp, relay, batch_id, batch_size).earnings_of(relay).total_earned
            == state.earnings_of(relay).total_earned + state.split_for(batch_size).relay_payout,
        state.after_distribution(timestamp, relay, batch_id, batch_size).earnings_of(relay).unclaimed
            == state.earnings_of(relay).unclaimed + state.split_for(batch_size).relay_payout,
        state.after_distribution(timestamp, relay, batch_id, batch_size).earnings_of(relay).total_claimed
            == state.earnings_of(relay).total_claimed,
{
}

/// A claim pays out everything claimable and nothing more: afterwards nothing
/// is left to claim (so an immediate second claim is refused with
/// `NothingToClaim`), the lifetime earnings are unchanged and the claimed
/// total grew by the payout; other relay nodes are untouched.
pub proof fn lemma_claim_empties_balance(state: FeeDistributorState, relay: u64, other: u64)
    requires
        state.claim_error(relay) is None,
        other != relay,
    ensures
        ({
            let post = state.with_earnings(relay, state.claimed(relay));
            &&& post.claim_error(relay) == Some(ContractError::NothingToClaim)
            &&& post.earnings_of(relay).unclaimed == 0
            &&& post.earnings_of(relay).total_earned == state.earnings_of(relay).total_earned
            &&& post.earnings_of(relay).total_claimed == state.earnings_of(relay).total_claimed
                + state.earnings_of(relay).unclaimed
            &&& post.earnings_of(other) == state.earnings_of(other)
        }),
{
}

/// A fee rate change applies to every later fee: after the rate is set to
/// `rate`, a batch of `batch_size` costs `batch_size * rate / 10000`, and the
/// treasury's share rule is unchanged.
pub proof fn lemma_new_rate_applies(state: FeeDistributorState, rate: u32, batch_size: u32)
    requires
        state.is_initialized(),
    ensures
        ({
            let post = state.with_fee_rate(rate);
            &&& post.split_for(batch_size).fee == spec_fee(batch_size, rate) as i128
            &&& post.fee_config.unwrap().treasury_share_bps == state.fee_config.unwrap().treasury_share_bps
        }),
{
}

/// Storage reads give back what was last written: `get_earnings` after
/// `set_earnings` returns the record written, and leaves other relay nodes'
/// records alone; `get_fee_entry` after `set_fee_entry` returns the entry.
pub proof fn lemma_storage_reads_back(
    state: FeeDistributorState,
    relay: u64,
    record: EarningsRecord,
    other_relay: u64,
    batch_id: u64,
    entry: FeeEntry,
)
    requires
        other_relay != relay,
    ensures
        state.with_earnings(relay, record).earnings_of(relay) == record,
        state.with_earnings(relay, record).earnings_of(other_relay) == state.earnings_of(other_relay),
        state.with_fee_entry(batch_id, entry).fee_entries.get(batch_id) == Some(entry),
{
}


/// One distribution request: the ledger time it is made at, the relay node,
/// the batch id and the batch size.
pub struct DistributionCall {
    pub timestamp: u64,
    pub relay: u64,
    pub batch_id: u64,
    pub batch_size: u32,
}

impl FeeDistributorState {
    /// The storage after the calls, in order, each applied as a successful
    /// `distribute` applies it.
    pub open spec fn distribute_all(self, calls: Seq<DistributionCall>) -> FeeDistributorState
        decreases calls.len(),
    {
        if calls.len() == 0 {
            self
        } else {
            let c = calls.last();
            self.distribute_all(calls.drop_last()).after_distribution(
                c.timestamp,
                c.relay,
                c.batch_id,
                c.batch_size,
            )
        }
    }

    /// Whether `distribute` accepts each of the calls in turn.
    pub open spec fn all_distributed(self, calls: Seq<DistributionCall>) -> bool
        decreases calls.len(),
    {
        if calls.len() == 0 {
            true
        } else {
            let c = calls.last();
            let pre = self.distribute_all(calls.drop_last());
            &&& self.all_distributed(calls.drop_last())
            &&& !pre.fee_entries.contains_key(c.batch_id)
            &&& c.batch_size != 0
            &&& pre.credit_fits(c.relay, pre.split_for(c.batch_size).relay_payout as int)
        }
    }

    /// The sum of the payouts that the calls credit to `relay` under this
    /// storage's fee configuration.
    pub open spec fn payouts_to(self, calls: Seq<DistributionCall>, relay: u64) -> int
        decreases calls.len(),
    {
        if calls.len() == 0 {
            0
        } else {
            let c = calls.last();
            self.payouts_to(calls.drop_last(), relay) + if c.relay == relay {
                self.split_for(c.batch_size).relay_payout as int
            } else {
                0
            }
        }
    }
}

/// Distributions never change the fee configuration.
proof fn lemma_distribute_all_keeps_config(state: FeeDistributorState, calls: Seq<DistributionCall>)
    ensures
        state.distribute_all(calls).fee_config == state.fee_config,
    decreases calls.len(),
{
    if calls.len() > 0 {
        lemma_distribute_all_keeps_config(state, calls.drop_last());
    }
}

/// Over any run of accepted distributions, every relay node's lifetime and
/// claimable earnings grow by exactly the sum of the payouts of the batches
/// it settled, and its claimed total does not change.
pub proof fn lemma_earnings_sum_payouts(state: FeeDistributorState, calls: Seq<DistributionCall>, relay: u64)
    requires
        state.is_initialized(),
        state.all_distributed(calls),
    ensures
        state.distribute_all(calls).earnings_of(relay).total_earned == state.earnings_of(relay).total_earned
            + state.payouts_to(calls, relay),
        state.distribute_all(calls).earnings_of(relay).unclaimed == state.earnings_of(relay).unclaimed
            + state.payouts_to(calls, relay),
        state.distribute_all(calls).earnings_of(relay).total_claimed == state.earnings_of(relay).total_claimed,
    decreases calls.len(),
{
    if calls.len() > 0 {
        let c = calls.last();
        lemma_earnings_sum_payouts(state, calls.drop_last(), relay);
        lemma_distribute_all_keeps_config(state, calls.drop_last());
        let pre = state.distribute_all(calls.drop_last());
        assert(pre.split_for(c.batch_size) == state.split_for(c.batch_size));
    }
}

/// The fee of a batch is `batch_size * fee_rate_bps / 10000` rounded down:
/// the largest whole number whose 10000-fold does not exceed the product.
pub proof fn lemma_fee_rounds_down(batch_size: u32, fee_rate_bps: u32)
    ensures
        0 <= spec_fee(batch_size, fee_rate_bps),
        spec_fee(batch_size, fee_rate_bps) * 10000 <= batch_size as int * fee_rate_bps as int,
        (batch_size as int * fee_rate_bps as int) < spec_fee(batch_size, fee_rate_bps) * 10000 + 10000,
{
    super::lemma_fee_bounds(batch_size, fee_rate_bps);
}

/// A distribution under fee rate `r` and treasury share `t` charges the fee
/// `batch_size * r / 10000` rounded down, gives the treasury `fee * t /
/// 10000` rounded down and credits the rest to the relay node. Accepted, it
/// adds exactly that payout to the relay node's lifetime and claimable
/// earnings, leaves its claimed total and every other relay node alone,
/// records the batch under its id with the relay node, fee, share and time,
/// and leaves the configuration and addresses alone.
pub proof fn lemma_distribute_behaviour(
    state: FeeDistributorState,
    timestamp: u64,
    relay: u64,
    batch_id: u64,
    batch_size: u32,
)
    requires
        state.is_initialized(),
    ensures
        ({
            let rate = state.fee_config.unwrap().fee_rate_bps;
            let share_bps = state.fee_config.unwrap().treasury_share_bps;
            let split = state.split_for(batch_size);
            &&& split.fee * 10000 <= batch_size as int * rate as int
            &&& (batch_size as int * rate as int) < split.fee * 10000 + 10000
            &&& split.treasury_share * 10000 <= split.fee * share_bps as int
            &&& (split.fee * share_bps as int) < split.treasury_share * 10000 + 10000
            &&& split.relay_payout == split.fee - split.treasury_share
        }),
        state.credit_fits(relay, state.split_for(batch_size).relay_payout as int) <==> ({
            let rec = state.earnings_of(relay);
            let payout = state.split_for(batch_size).relay_payout;
            &&& i128::MIN <= rec.total_earned + payout <= i128::MAX
            &&& i128::MIN <= rec.unclaimed + payout <= i128::MAX
        }),
        state.credit_fits(relay, state.split_for(batch_size).relay_payout as int) ==> ({
            let split = state.split_for(batch_size);
            let before = state.earnings_of(relay);
            let post = state.after_distribution(timestamp, relay, batch_id, batch_size);
            let after = post.earnings_of(relay);
            &&& after.total_earned == before.total_earned + split.relay_payout
            &&& after.unclaimed == before.unclaimed + split.relay_payout
            &&& after.total_claimed == before.total_claimed
            &&& forall|a: u64| a != relay ==> post.earnings_of(a) == state.earnings_of(a)
            &&& post.fee_entries.contains_key(batch_id)
            &&& post.fee_entries[batch_id].batch_id == batch_id
            &&& post.fee_entries[batch_id].relay_address == relay
            &&& post.fee_entries[batch_id].amount == split.fee
            &&& post.fee_entries[batch_id].treasury_share == split.treasury_share
            &&& post.fee_entries[batch_id].settled_at == timestamp
            &&& forall|b: u64| b != batch_id ==> post.fee_entries.get(b) == state.fee_entries.get(b)
            &&& post.fee_config == state.fee_config
            &&& post.treasury_address == state.treasury_address
            &&& post.token_address == state.token_address
        }),
{
    let config = state.fee_config.unwrap();
    let fee = spec_fee(batch_size, config.fee_rate_bps);
    super::lemma_fee_bounds(batch_size, config.fee_rate_bps);
    super::lemma_share_bounds(fee, config.treasury_share_bps);
}

/// A claim is accepted exactly when the relay node has a positive claimable
/// balance and its claimed total can absorb it. It pays out exactly that
/// balance: the claimable balance drops to 0, the claimed total grows by it,
/// the lifetime earnings and every other relay node stay as they were.
pub proof fn lemma_claim_behaviour(state: FeeDistributorState, relay: u64)
    ensures
        state.earnings_of(relay).unclaimed <= 0 ==> state.claim_error(relay) == Some(
            ContractError::NothingToClaim,
        ),
        state.claim_error(relay) is None <==> (state.earnings_of(relay).unclaimed > 0
            && state.earnings_of(relay).total_claimed + state.earnings_of(relay).unclaimed <= i128::MAX),
        state.claim_error(relay) is None ==> ({
            let before = state.earnings_of(relay);
            let post = state.with_earnings(relay, state.claimed(relay));
            let after = post.earnings_of(relay);
            &&& after.unclaimed == 0
            &&& after.total_claimed == before.total_claimed + before.unclaimed
            &&& after.total_earned == before.total_earned
            &&& forall|a: u64| a != relay ==> post.earnings_of(a) == state.earnings_of(a)
            &&& post.fee_entries == state.fee_entries
            &&& post.fee_config == state.fee_config
        }),
{
}

/// Setting the fee rate changes the rate and nothing else: the treasury
/// share, the council, the earnings and the distribution records stay.
pub proof fn lemma_set_fee_rate_behaviour(state: FeeDistributorState, rate: u32)
    requires
        state.is_initialized(),
    ensures
        state.with_fee_rate(rate).fee_config.unwrap().fee_rate_bps == rate,
        state.with_fee_rate(rate).fee_config.unwrap().treasury_share_bps
            == state.fee_config.unwrap().treasury_share_bps,
        state.with_fee_rate(rate).fee_config.unwrap().council == state.fee_config.unwrap().council,
        state.with_fee_rate(rate).earnings == state.earnings,
        state.with_fee_rate(rate).fee_entries == state.fee_entries,
        state.with_fee_rate(rate).treasury_address == state.treasury_address,
{
}

} // verus!
