//! Verified state-transition models of the StellarConduit Soroban contracts:
//! the fee distributor, the relay registry, the protocol treasury and the
//! dispute resolver's storage.
//!
//! Each contract's persistent storage is a plain-value struct here, and every
//! contract entry point is a method on it that checks its inputs, returns the
//! contract's error exactly where the contract returns it, and otherwise
//! commits its writes. Host effects (authorization, token transfers, events,
//! reading the ledger clock) stay outside: the methods take the ledger values
//! they read as a `LedgerContext` and hand back the transfers to perform.
//! Accounts are identified by `u64` ids.

pub mod council;
pub mod dispute_resolver;
pub mod fee_distributor;

pub mod ledger;
pub mod relay_registry;
pub mod treasury;
