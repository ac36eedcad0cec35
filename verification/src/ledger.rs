//! What a contract invocation reads from the ledger, and the token movements
//! it asks for.

use vstd::prelude::*;

verus! {

/// The ledger values that a contract invocation reads from its environment.
#[derive(Clone, Copy, Debug, PartialEq, Eq)]
pub struct LedgerContext {
    /// Ledger close time, in seconds.
    pub timestamp: u64,
    /// Ledger sequence number.
    pub sequence: u32,
    /// Account id of the contract being invoked.
    pub current_contract: u64,
}

/// A token transfer that an entry point asks the contract's token to perform.
#[derive(Clone, Copy, Debug, PartialEq, Eq)]
pub struct Transfer {
    pub from: u64,
    pub to: u64,
    pub amount: i128,
}

} // verus!
