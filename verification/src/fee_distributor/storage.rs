//! The fee distributor's persistent storage and its typed accessors.
//!
//! All storage access goes through these helpers; the contract's entry points
//! read and write nothing else.

use std::collections::HashMap;
use vstd::prelude::*;

use super::types::{EarningsRecord, FeeConfig, FeeConfigView, FeeEntry};

verus! {

broadcast use vstd::std_specs::hash::group_hash_axioms;

/// The fee distributor contract: its persistent storage, on which the entry
/// points in the parent module operate.
pub struct FeeDistributorContract {
    earnings: HashMap<u64, EarningsRecord>,
    fee_entries: HashMap<u64, FeeEntry>,
    fee_config: Option<FeeConfig>,
    treasury_address: Option<u64>,
    token_address: Option<u64>,
}

/// The fee distributor's storage as a mathematical value.
pub struct FeeDistributorState {
    /// Earnings records keyed by relay node.
    pub earnings: Map<u64, EarningsRecord>,
    /// Fee distribution records keyed by batch id.
    pub fee_entries: Map<u64, FeeEntry>,
    /// The global fee configuration, once initialized.
    pub fee_config: Option<FeeConfigView>,
    /// The treasury contract, once set.
    pub treasury_address: Option<u64>,
    /// The token contract, once set.
    pub token_address: Option<u64>,
}

impl FeeDistributorState {
    /// The earnings record of a relay node, zero where none was stored.
    pub open spec fn earnings_of(self, address: u64) -> EarningsRecord {
        if self.earnings.contains_key(address) {
            self.earnings[address]
        } else {
            EarningsRecord::spec_zero()
        }
    }

    /// The storage with `address`'s earnings record replaced by `record`.
    pub open spec fn with_earnings(self, address: u64, record: EarningsRecord) -> FeeDistributorState {
        FeeDistributorState { earnings: self.earnings.insert(address, record), ..self }
    }

    /// The storage with the fee entry of `batch_id` replaced by `entry`.
    pub open spec fn with_fee_entry(self, batch_id: u64, entry: FeeEntry) -> FeeDistributorState {
        FeeDistributorState { fee_entries: self.fee_entries.insert(batch_id, entry), ..self }
    }

    /// Whether the fee configuration has been set.
    pub open spec fn is_initialized(self) -> bool {
        self.fee_config is Some
    }
}

impl View for FeeDistributorContract {
    type V = FeeDistributorState;

    closed spec fn view(&self) -> FeeDistributorState {
        FeeDistributorState {
            earnings: self.earnings@,
            fee_entries: self.fee_entries@,
            fee_config: match self.fee_config {
                Some(c) => Some(c@),
                None => None,
            },
            treasury_address: self.treasury_address,
            token_address: self.token_address,
        }
    }
}

impl FeeDistributorContract {
    /// A freshly deployed contract, with empty storage.
    pub fn new() -> (c: Self)
        ensures
            c@.earnings == Map::<u64, EarningsRecord>::empty(),
            c@.fee_entries == Map::<u64, FeeEntry>::empty(),
            c@.fee_config is None,
            c@.treasury_address is None,
            c@.token_address is None,
    {
        FeeDistributorContract {
            earnings: HashMap::new(),
            fee_entries: HashMap::new(),
            fee_config: None,
            treasury_address: None,
            token_address: None,
        }
    }
}

/// Load the earnings record for a relay node. Returns a zeroed record if not found.
pub fn get_earnings(store: &FeeDistributorContract, address: u64) -> (r: EarningsRecord)
    ensures
        r == store@.earnings_of(address),
{
    match store.earnings.get(&address) {
        Some(record) => *record,
        None => EarningsRecord { total_earned: 0, total_claimed: 0, unclaimed: 0 },
    }
}

/// Persist an updated earnings record for a relay node.
pub fn set_earnings(store: &mut FeeDistributorContract, address: u64, record: &EarningsRecord)
    ensures
        final(store)@ == old(store)@.with_earnings(address, *record),
{
    store.earnings.insert(address, *record);
}

/// Load a fee entry by batch ID. Returns None if not found.
pub fn get_fee_entry(store: &FeeDistributorContract, batch_id: u64) -> (r: Option<FeeEntry>)
    ensures
        r == store@.fee_entries.get(batch_id),
{
    match store.fee_entries.get(&batch_id) {
        Some(entry) => Some(*entry),
        None => None,
    }
}

/// Persist a new fee distribution entry.
pub fn set_fee_entry(store: &mut FeeDistributorContract, batch_id: u64, entry: &FeeEntry)
    ensures
        final(store)@ == old(store)@.with_fee_entry(batch_id, *entry),
{
    store.fee_entries.insert(batch_id, *entry);
}

/// Load the global fee configuration; it must have been initialized.
pub fn get_fee_config(store: &FeeDistributorContract) -> (r: FeeConfig)
    requires
        store@.is_initialized(),
    ensures
        store@.fee_config == Some(r@),
{
    store.fee_config.as_ref().unwrap().duplicate()
}

/// Whether the fee configuration has been set.
pub fn has_fee_config(store: &FeeDistributorContract) -> (r: bool)
    ensures
        r == store@.is_initialized(),
{
    store.fee_config.is_some()
}

/// Persist updated fee configuration.
pub fn set_fee_config(store: &mut FeeDistributorContract, config: &FeeConfig)
    ensures
        final(store)@ == (FeeDistributorState { fee_config: Some(config@), ..old(store)@ }),
{
    store.fee_config = Some(config.duplicate());
}

/// Load the treasury contract address; it must have been set.
pub fn get_treasury_address(store: &FeeDistributorContract) -> (r: u64)
    requires
        store@.treasury_address is Some,
    ensures
        store@.treasury_address == Some(r),
{
    store.treasury_address.unwrap()
}

/// Set the treasury contract address.
pub fn set_treasury_address(store: &mut FeeDistributorContract, address: u64)
    ensures
        final(store)@ == (FeeDistributorState { treasury_address: Some(address), ..old(store)@ }),
{
    store.treasury_address = Some(address);
}

/// Load the token contract address; it must have been set.
pub fn get_token_address(store: &FeeDistributorContract) -> (r: u64)
    requires
        store@.token_address is Some,
    ensures
        store@.token_address == Some(r),
{
    store.token_address.unwrap()
}

/// Set the token contract address.
pub fn set_token_address(store: &mut FeeDistributorContract, address: u64)
    ensures
        final(store)@ == (FeeDistributorState { token_address: Some(address), ..old(store)@ }),
{
    store.token_address = Some(address);
}

} // verus!
