//! The fee distributor: calculates the protocol fee of each settled batch,
//! splits it between the relay node and the treasury, and tracks each relay
//! node's earnings until it claims them.

pub mod errors;
pub mod laws;
pub mod storage;
pub mod types;

use vstd::prelude::*;

use self::errors::ContractError;
use self::storage::FeeDistributorState;
use self::types::{AdminCouncil, EarningsRecord, FeeConfig, FeeConfigView, FeeEntry};
use crate::council::AdminCouncilView;
use crate::ledger::{LedgerContext, Transfer};

pub use self::storage::FeeDistributorContract;

verus! {

/// Basis points in one whole (100%).
pub const BPS_DENOMINATOR: u32 = 10000;

/// The fee of a batch: `batch_size * fee_rate_bps / 10000`, rounded down.
pub open spec fn spec_fee(batch_size: u32, fee_rate_bps: u32) -> int {
    (batch_size as int * fee_rate_bps as int) / 10000
}

/// The treasury's part of a fee: `fee * treasury_share_bps / 10000`, rounded down.
pub open spec fn spec_treasury_share(fee: int, treasury_share_bps: u32) -> int {
    (fee * treasury_share_bps as int) / 10000
}

/// How a batch's fee was split.
#[derive(Clone, Copy, Debug, PartialEq, Eq)]
pub struct Distribution {
    /// Total fee of the batch.
    pub fee: i128,
    /// The part owed to the protocol treasury.
    pub treasury_share: i128,
    /// The part credited to the relay node.
    pub relay_payout: i128,
}

impl FeeDistributorState {
    /// The split of the fee of a batch of `batch_size` under the stored configuration.
    pub open spec fn split_for(self, batch_size: u32) -> Distribution {
        let config = self.fee_config.unwrap();
        let fee = spec_fee(batch_size, config.fee_rate_bps);
        let share = spec_treasury_share(fee, config.treasury_share_bps);
        Distribution { fee: fee as i128, treasury_share: share as i128, relay_payout: (fee - share) as i128 }
    }

    /// Whether crediting `payout` to `relay`'s earnings stays within `i128`.
    pub open spec fn credit_fits(self, relay: u64, payout: int) -> bool {
        let rec = self.earnings_of(relay);
        &&& i128::MIN <= rec.total_earned + payout <= i128::MAX
        &&& i128::MIN <= rec.unclaimed + payout <= i128::MAX
    }

    /// `relay`'s earnings record after `payout` is credited to it.
    pub open spec fn credited(self, relay: u64, payout: int) -> EarningsRecord {
        let rec = self.earnings_of(relay);
        EarningsRecord {
            total_earned: (rec.total_earned + payout) as i128,
            total_claimed: rec.total_claimed,
            unclaimed: (rec.unclaimed + payout) as i128,
        }
    }

    /// The storage after a successful distribution of batch `batch_id`.
    pub open spec fn after_distribution(
        self,
        timestamp: u64,
        relay: u64,
        batch_id: u64,
        batch_size: u32,
    ) -> FeeDistributorState {
        let split = self.split_for(batch_size);
        self.with_earnings(relay, self.credited(relay, split.relay_payout as int)).with_fee_entry(
            batch_id,
            FeeEntry {
                batch_id,
                relay_address: relay,
                amount: split.fee,
                treasury_share: split.treasury_share,
                settled_at: timestamp,
            },
        )
    }

    /// The storage with the fee rate set to `rate`.
    pub open spec fn with_fee_rate(self, rate: u32) -> FeeDistributorState {
        FeeDistributorState {
            fee_config: Some(FeeConfigView { fee_rate_bps: rate, ..self.fee_config.unwrap() }),
            ..self
        }
    }

    /// The error a claim by `relay` is refused with, if any.
    pub open spec fn claim_error(self, relay: u64) -> Option<ContractError> {
        let rec = self.earnings_of(relay);
        if rec.unclaimed <= 0 {
            Some(ContractError::NothingToClaim)
        } else if rec.total_claimed + rec.unclaimed > i128::MAX {
            Some(ContractError::Overflow)
        } else {
            None
        }
    }

    /// `relay`'s earnings record after it claimed everything claimable.
    pub open spec fn claimed(self, relay: u64) -> EarningsRecord {
        let rec = self.earnings_of(relay);
        EarningsRecord {
            total_earned: rec.total_earned,
            total_claimed: (rec.total_claimed + rec.unclaimed) as i128,
            unclaimed: 0,
        }
    }
}

/// The fee of a batch is at most `batch_size` and fits comfortably in `i128`.
proof fn lemma_fee_bounds(batch_size: u32, fee_rate_bps: u32)
    ensures
        0 <= batch_size as int * fee_rate_bps as int <= u64::MAX,
        0 <= spec_fee(batch_size, fee_rate_bps) <= u64::MAX / 10000,
{
    assert(batch_size as int * fee_rate_bps as int <= u32::MAX as int * u32::MAX as int)
        by (nonlinear_arith)
        requires
            batch_size <= u32::MAX,
            fee_rate_bps <= u32::MAX,
    ;
    assert(0 <= batch_size as int * fee_rate_bps as int) by (nonlinear_arith);
}

/// The treasury's share of a fee that fits in `u64 / 10000` fits in `u128` arithmetic.
proof fn lemma_share_bounds(fee: int, treasury_share_bps: u32)
    requires
        0 <= fee <= u64::MAX / 10000,
    ensures
        0 <= fee * treasury_share_bps as int <= u64::MAX as int * u32::MAX as int,
        0 <= spec_treasury_share(fee, treasury_share_bps) <= fee * treasury_share_bps as int,
{
    assert(fee * treasury_share_bps as int <= u64::MAX as int * u32::MAX as int) by (nonlinear_arith)
        requires
            0 <= fee <= u64::MAX,
            treasury_share_bps <= u32::MAX,
    ;
    assert(0 <= fee * treasury_share_bps as int) by (nonlinear_arith)
        requires
            0 <= fee,
    ;
}

impl FeeDistributorContract {
    /// One-time setup: stores the fee configuration, governed by a council of
    /// `admin` alone, and the treasury address.
    ///
    /// # Errors
    /// - `ContractError::AlreadyInitialized` if the fee configuration is already set.
    pub fn initialize(
        &mut self,
        admin: u64,
        fee_rate_bps: u32,
        treasury_share_bps: u32,
        treasury: u64,
    ) -> (r: Result<(), ContractError>)
        ensures
            old(self)@.is_initialized() ==> r == Err::<(), ContractError>(
                ContractError::AlreadyInitialized,
            ) && final(self)@ == old(self)@,
            !old(self)@.is_initialized() ==> r is Ok && final(self)@ == (FeeDistributorState {
                fee_config: Some(
                    FeeConfigView {
                        fee_rate_bps,
                        treasury_share_bps,
                        council: AdminCouncilView { members: seq![admin], threshold: 1 },
                    },
                ),
                treasury_address: Some(treasury),
                ..old(self)@
            }),
    {
        if storage::has_fee_config(self) {
            return Err(ContractError::AlreadyInitialized);
        }
        let config = FeeConfig { fee_rate_bps, treasury_share_bps, council: AdminCouncil::single(admin) };
        storage::set_fee_config(self, &config);
        storage::set_treasury_address(self, treasury);
        Ok(())
    }

    /// Calculate the total fee for a given batch of transactions:
    /// `batch_size * fee_rate_bps / 10000`, rounded down. Nothing is written.
    ///
    /// # Errors
    /// - `ContractError::InvalidBatchSize` if `batch_size` is zero.
    /// - `ContractError::Overflow` if the calculation overflows, which it
    ///   cannot with `u32` inputs.
    pub fn calculate_fee(&self, batch_size: u32) -> (r: Result<i128, ContractError>)
        requires
            batch_size == 0 || self@.is_initialized(),
        ensures
            batch_size == 0 ==> r == Err::<i128, ContractError>(ContractError::InvalidBatchSize),
            batch_size != 0 ==> r == Ok::<i128, ContractError>(
                spec_fee(batch_size, self@.fee_config.unwrap().fee_rate_bps) as i128,
            ),
    {
        if batch_size == 0 {
            return Err(ContractError::InvalidBatchSize);
        }
        let config = storage::get_fee_config(self);
        proof {
            lemma_fee_bounds(batch_size, config.fee_rate_bps);
        }
        let total: u64 = (batch_size as u64) * (config.fee_rate_bps as u64);
        let fee: u64 = total / (BPS_DENOMINATOR as u64);
        Ok(fee as i128)
    }

    /// Distribute the fee for a successfully settled transaction batch: the
    /// relay node is credited the fee less the treasury's share, and the
    /// distribution is recorded under `batch_id`. The returned split tells
    /// what is owed to the treasury.
    ///
    /// # Errors
    /// - `ContractError::BatchAlreadyDistributed` if `batch_id` has already been processed.
    /// - `ContractError::InvalidBatchSize` if `batch_size` is zero.
    /// - `ContractError::Overflow` if crediting the relay node's earnings overflows.
    pub fn distribute(
        &mut self,
        ctx: &LedgerContext,
        relay_address: u64,
        batch_id: u64,
        batch_size: u32,
    ) -> (r: Result<Distribution, ContractError>)
        requires
            old(self)@.fee_entries.contains_key(batch_id) || batch_size == 0
                || old(self)@.is_initialized(),
        ensures
            old(self)@.fee_entries.contains_key(batch_id) ==> r == Err::<Distribution, ContractError>(
                ContractError::BatchAlreadyDistributed,
            ),
            !old(self)@.fee_entries.contains_key(batch_id) && batch_size == 0 ==> r == Err::<
                Distribution,
                ContractError,
            >(ContractError::InvalidBatchSize),
            !old(self)@.fee_entries.contains_key(batch_id) && batch_size != 0 && !old(
                self,
            )@.credit_fits(relay_address, old(self)@.split_for(batch_size).relay_payout as int)
                ==> r == Err::<Distribution, ContractError>(ContractError::Overflow),
            !old(self)@.fee_entries.contains_key(batch_id) && batch_size != 0 && old(
                self,
            )@.credit_fits(relay_address, old(self)@.split_for(batch_size).relay_payout as int)
                ==> r == Ok::<Distribution, ContractError>(old(self)@.split_for(batch_size)),
            r is Ok ==> final(self)@ == old(self)@.after_distribution(
                ctx.timestamp,
                relay_address,
                batch_id,
                batch_size,
            ),
            r is Err ==> final(self)@ == old(self)@,
    {
        if storage::get_fee_entry(self, batch_id).is_some() {
            return Err(ContractError::BatchAlreadyDistributed);
        }
        let fee = match self.calculate_fee(batch_size) {
            Ok(fee) => fee,
            Err(e) => return Err(e),
        };
        let config = storage::get_fee_config(self);
        proof {
            lemma_fee_bounds(batch_size, config.fee_rate_bps);
            lemma_share_bounds(fee as int, config.treasury_share_bps);
        }
        let share: u128 = (fee as u128) * (config.treasury_share_bps as u128) / (BPS_DENOMINATOR as u128);
        let treasury_share = share as i128;
        let relay_payout = fee - treasury_share;

        let mut record = storage::get_earnings(self, relay_address);
        let total_earned = match record.total_earned.checked_add(relay_payout) {
            Some(v) => v,
            None => return Err(ContractError::Overflow),
        };
        let unclaimed = match record.unclaimed.checked_add(relay_payout) {
            Some(v) => v,
            None => return Err(ContractError::Overflow),
        };
        record.total_earned = total_earned;
        record.unclaimed = unclaimed;
        storage::set_earnings(self, relay_address, &record);

        let entry = FeeEntry {
            batch_id,
            relay_address,
            amount: fee,
            treasury_share,
            settled_at: ctx.timestamp,
        };
        storage::set_fee_entry(self, batch_id, &entry);
        Ok(Distribution { fee, treasury_share, relay_payout })
    }

    /// Claim all accumulated, unclaimed fees of a relay node; returns the
    /// payout, which the contract then owes the relay node.
    ///
    /// # Errors
    /// - `ContractError::NothingToClaim` if the relay node has no positive unclaimed balance.
    /// - `ContractError::Overflow` if the lifetime claimed total overflows.
    pub fn claim(&mut self, relay_address: u64) -> (r: Result<i128, ContractError>)
        ensures
            match old(self)@.claim_error(relay_address) {
                Some(e) => r == Err::<i128, ContractError>(e) && final(self)@ == old(self)@,
                None => r == Ok::<i128, ContractError>(old(self)@.earnings_of(relay_address).unclaimed)
                    && final(self)@ == old(self)@.with_earnings(relay_address, old(self)@.claimed(relay_address)),
            },
    {
        let mut record = storage::get_earnings(self, relay_address);
        if record.unclaimed <= 0 {
            return Err(ContractError::NothingToClaim);
        }
        let payout = record.unclaimed;
        let total_claimed = match record.total_claimed.checked_add(payout) {
            Some(v) => v,
            None => return Err(ContractError::Overflow),
        };
        record.total_claimed = total_claimed;
        record.unclaimed = 0;
        storage::set_earnings(self, relay_address, &record);
        Ok(payout)
    }

    /// The transfer that pushes a distribution's treasury share from the
    /// contract to the treasury address; `None` where the share is zero.
    pub fn treasury_transfer(&self, ctx: &LedgerContext, split: &Distribution) -> (r: Option<Transfer>)
        requires
            self@.treasury_address is Some,
        ensures
            split.treasury_share > 0 ==> r == Some(
                Transfer {
                    from: ctx.current_contract,
                    to: self@.treasury_address.unwrap(),
                    amount: split.treasury_share,
                },
            ),
            split.treasury_share <= 0 ==> r is None,
    {
        if split.treasury_share > 0 {
            let treasury = storage::get_treasury_address(self);
            Some(Transfer { from: ctx.current_contract, to: treasury, amount: split.treasury_share })
        } else {
            None
        }
    }

    /// Claim as `claim` does, and give the transfer that pays the payout from
    /// the contract to the relay node.
    ///
    /// # Errors
    /// As `claim`.
    pub fn claim_payout(&mut self, ctx: &LedgerContext, relay_address: u64) -> (r: Result<
        (i128, Transfer),
        ContractError,
    >)
        ensures
            match old(self)@.claim_error(relay_address) {
                Some(e) => r == Err::<(i128, Transfer), ContractError>(e) && final(self)@ == old(self)@,
                None => r == Ok::<(i128, Transfer), ContractError>(
                    (
                        old(self)@.earnings_of(relay_address).unclaimed,
                        Transfer {
                            from: ctx.current_contract,
                            to: relay_address,
                            amount: old(self)@.earnings_of(relay_address).unclaimed,
                        },
                    ),
                ) && final(self)@ == old(self)@.with_earnings(relay_address, old(self)@.claimed(relay_address)),
            },
    {
        let payout = self.claim(relay_address)?;
        Ok((payout, Transfer { from: ctx.current_contract, to: relay_address, amount: payout }))
    }

    /// View the earnings record of a relay node; zero where it never earned.
    pub fn get_earnings(&self, relay_address: u64) -> (r: EarningsRecord)
        ensures
            r == self@.earnings_of(relay_address),
    {
        storage::get_earnings(self, relay_address)
    }

    /// Update the protocol fee rate (council-governed). The council must have
    /// at least as many members as its threshold.
    ///
    /// # Errors
    /// - `ContractError::InsufficientApprovals` if the council has fewer members than its threshold.
    /// - `ContractError::InvalidFeeRate` if `rate` is zero or above 10000.
    pub fn set_fee_rate(&mut self, rate: u32) -> (r: Result<(), ContractError>)
        requires
            old(self)@.is_initialized(),
        ensures
            old(self)@.fee_config.unwrap().council.members.len() < old(self)@.fee_config.unwrap().council.threshold
                ==> r == Err::<(), ContractError>(ContractError::InsufficientApprovals),
            old(self)@.fee_config.unwrap().council.members.len() >= old(self)@.fee_config.unwrap().council.threshold
                && (rate == 0 || rate > 10000) ==> r == Err::<(), ContractError>(ContractError::InvalidFeeRate),
            old(self)@.fee_config.unwrap().council.members.len() >= old(self)@.fee_config.unwrap().council.threshold
                && 0 < rate <= 10000 ==> r is Ok,
            r is Ok ==> final(self)@ == old(self)@.with_fee_rate(rate),
            r is Err ==> final(self)@ == old(self)@,
    {
        let mut config = storage::get_fee_config(self);
        if config.council.members.len() < config.council.threshold as usize {
            return Err(ContractError::InsufficientApprovals);
        }
        if rate == 0 || rate > BPS_DENOMINATOR {
            return Err(ContractError::InvalidFeeRate);
        }
        config.fee_rate_bps = rate;
        storage::set_fee_config(self, &config);
        Ok(())
    }
}

} // verus!
