//! Error codes returned by the fee distributor.

use vstd::prelude::*;

verus! {

/// All error codes returned by the fee distributor; `code` gives the number
/// that clients see.
#[derive(Copy, Clone, Debug, Eq, PartialEq, PartialOrd, Ord, Structural)]
pub enum ContractError {
    /// Fee for this batch_id has already been distributed.
    BatchAlreadyDistributed,
    /// The specified batch_id does not exist.
    BatchNotFound,
    /// The relay node has no unclaimed earnings.
    NothingToClaim,
    /// Fee rate is outside of the allowed range.
    InvalidFeeRate,
    /// Caller is not authorized to perform this action (e.g., set_fee_rate).
    Unauthorized,
    /// Batch size is zero or exceeds the maximum.
    InvalidBatchSize,
    /// Token transfer to treasury address failed.
    TreasuryTransferFailed,
    /// Arithmetic overflow in fee calculation.
    Overflow,
    /// Contract has already been initialized.
    AlreadyInitialized,
    /// Not enough council members authorized this action.
    InsufficientApprovals,
    /// Council config is invalid (threshold > members, etc.).
    InvalidCouncilConfig,
}

impl ContractError {
    /// The numeric error code that clients receive.
    pub open spec fn spec_code(self) -> u32 {
        match self {
            ContractError::BatchAlreadyDistributed => 1,
            ContractError::BatchNotFound => 2,
            ContractError::NothingToClaim => 3,
            ContractError::InvalidFeeRate => 4,
            ContractError::Unauthorized => 5,
            ContractError::InvalidBatchSize => 6,
            ContractError::TreasuryTransferFailed => 7,
            ContractError::Overflow => 8,
            ContractError::AlreadyInitialized => 9,
            ContractError::InsufficientApprovals => 10,
            ContractError::InvalidCouncilConfig => 11,
        }
    }

    /// The numeric error code that clients receive.
    pub fn code(&self) -> (c: u32)
        ensures
            c == self.spec_code(),
    {
        match self {
            ContractError::BatchAlreadyDistributed => 1,
            ContractError::BatchNotFound => 2,
            ContractError::NothingToClaim => 3,
            ContractError::InvalidFeeRate => 4,
            ContractError::Unauthorized => 5,
            ContractError::InvalidBatchSize => 6,
            ContractError::TreasuryTransferFailed => 7,
            ContractError::Overflow => 8,
            ContractError::AlreadyInitialized => 9,
            ContractError::InsufficientApprovals => 10,
            ContractError::InvalidCouncilConfig => 11,
        }
    }
}

} // verus!
