//! Error codes returned by the protocol treasury.

use vstd::prelude::*;

verus! {

/// All error codes returned by the protocol treasury; `code` gives the number
/// that clients see.
#[derive(Copy, Clone, Debug, Eq, PartialEq, PartialOrd, Ord, Structural)]
pub enum ContractError {
    /// Treasury balance is below the requested amount.
    InsufficientBalance,
    /// Caller is not authorized.
    Unauthorized,
    /// Amount is zero or negative.
    InvalidAmount,
    /// The requested spending program or history entry does not exist.
    ProgramNotFound,
    /// Withdrawal would exceed the program's remaining allocation.
    AllocationExceeded,
    /// Recipient address fails validation.
    InvalidRecipient,
    /// Token transfer call failed.
    TokenTransferFailed,
    /// Entry ID counter has overflowed.
    HistoryOverflow,
    /// Arithmetic overflow in balance arithmetic.
    Overflow,
    /// The treasury has already been initialized.
    AlreadyInitialized,
    /// Spending program is not currently active.
    ProgramInactive,
    /// Allocation would exceed program budget.
    ProgramOverBudget,
}

impl ContractError {
    /// The numeric error code that clients receive.
    pub open spec fn spec_code(self) -> u32 {
        match self {
            ContractError::InsufficientBalance => 1,
            ContractError::Unauthorized => 2,
            ContractError::InvalidAmount => 3,
            ContractError::ProgramNotFound => 4,
            ContractError::AllocationExceeded => 5,
            ContractError::InvalidRecipient => 6,
            ContractError::TokenTransferFailed => 7,
            ContractError::HistoryOverflow => 8,
            ContractError::Overflow => 9,
            ContractError::AlreadyInitialized => 10,
            ContractError::ProgramInactive => 11,
            ContractError::ProgramOverBudget => 12,
        }
    }

    /// The numeric error code that clients receive.
    pub fn code(&self) -> (c: u32)
        ensures
            c == self.spec_code(),
    {
        match self {
            ContractError::InsufficientBalance => 1,
            ContractError::Unauthorized => 2,
            ContractError::InvalidAmount => 3,
            ContractError::ProgramNotFound => 4,
            ContractError::AllocationExceeded => 5,
            ContractError::InvalidRecipient => 6,
            ContractError::TokenTransferFailed => 7,
            ContractError::HistoryOverflow => 8,
            ContractError::Overflow => 9,
            ContractError::AlreadyInitialized => 10,
            ContractError::ProgramInactive => 11,
            ContractError::ProgramOverBudget => 12,
        }
    }
}

} // verus!
