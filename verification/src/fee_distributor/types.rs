//! Data structures of the fee distributor.

use vstd::prelude::*;

pub use crate::council::AdminCouncil;
use crate::council::AdminCouncilView;

verus! {

/// A record of a single fee distribution event: which relay node settled the
/// batch, the total fee, the treasury's share and when it happened.
#[derive(Clone, Copy, Debug, PartialEq, Eq)]
pub struct FeeEntry {
    /// Unique identifier of the settled transaction batch.
    pub batch_id: u64,
    /// The relay node that settled the batch.
    pub relay_address: u64,
    /// Total fee distributed for this batch.
    pub amount: i128,
    /// Portion of the fee sent to the protocol treasury.
    pub treasury_share: i128,
    /// Ledger timestamp when the distribution occurred.
    pub settled_at: u64,
}

/// Cumulative earnings state tracked per relay node.
#[derive(Clone, Copy, Debug, PartialEq, Eq)]
pub struct EarningsRecord {
    /// Lifetime total fees earned by this relay node.
    pub total_earned: i128,
    /// Lifetime total fees already claimed and paid out.
    pub total_claimed: i128,
    /// Current claimable balance (total_earned - total_claimed).
    pub unclaimed: i128,
}

/// Global protocol fee configuration.
#[derive(Clone, Debug, PartialEq, Eq)]
pub struct FeeConfig {
    /// Fee rate in basis points (e.g., 50 = 0.5%).
    pub fee_rate_bps: u32,
    /// Treasury's share of each distribution in basis points.
    pub treasury_share_bps: u32,
    /// Council authorized to update fee config via `set_fee_rate()`.
    pub council: AdminCouncil,
}

/// The fee configuration as a mathematical value.
pub struct FeeConfigView {
    pub fee_rate_bps: u32,
    pub treasury_share_bps: u32,
    pub council: AdminCouncilView,
}

impl View for FeeConfig {
    type V = FeeConfigView;

    open spec fn view(&self) -> FeeConfigView {
        FeeConfigView {
            fee_rate_bps: self.fee_rate_bps,
            treasury_share_bps: self.treasury_share_bps,
            council: self.council@,
        }
    }
}

impl EarningsRecord {
    /// The record of a relay node that has never earned anything.
    pub open spec fn spec_zero() -> EarningsRecord {
        EarningsRecord { total_earned: 0, total_claimed: 0, unclaimed: 0 }
    }

    /// Lifetime earnings equal what was claimed plus what is still claimable.
    pub open spec fn balanced(self) -> bool {
        self.total_earned == self.total_claimed + self.unclaimed
    }
}

impl FeeConfig {
    /// A copy of this configuration.
    pub fn duplicate(&self) -> (c: Self)
        ensures
            c@ == self@,
    {
        FeeConfig {
            fee_rate_bps: self.fee_rate_bps,
            treasury_share_bps: self.treasury_share_bps,
            council: self.council.duplicate(),
        }
    }
}

} // verus!
