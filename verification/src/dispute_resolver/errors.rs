//! Error codes returned by the dispute resolver.

use vstd::prelude::*;

verus! {

/// Contract error codes returned by the dispute resolver; `code` gives the
/// number that clients see.
#[derive(Clone, Copy, Debug, PartialEq, Eq, Structural)]
pub enum ContractError {
    /// The specified dispute_id does not exist in storage.
    DisputeNotFound,
    /// The dispute has already been resolved or ruled on.
    DisputeAlreadyResolved,
    /// The dispute passed its resolution deadline without a response.
    DisputeExpired,
    /// The dispute is still open and awaiting a counter-proof.
    DisputeNotResolvable,
    /// The calling party has already submitted a proof for this dispute.
    ProofAlreadySubmitted,
    /// The submitted relay chain proof fails cryptographic verification.
    InvalidProof,
    /// Caller is not a party to this dispute.
    Unauthorized,
    /// A dispute for this transaction ID already exists.
    DuplicateDispute,
    /// Arithmetic overflow in dispute ID generation.
    Overflow,
    /// The dispute is not in Open status.
    NotOpen,
    /// The resolution window has expired.
    ResolutionWindowExpired,
    /// The resolution window is still active.
    ResolutionWindowActive,
    /// The dispute has not been responded to.
    NotResponded,
    /// The contract has already been initialized.
    AlreadyInitialized,
    /// Invalid configuration parameter.
    InvalidConfig,
    /// One or both relay chain proof signatures failed Ed25519 verification.
    InvalidProofSignature,
}

impl ContractError {
    /// The numeric error code that clients receive.
    pub open spec fn spec_code(self) -> u32 {
        match self {
            ContractError::DisputeNotFound => 1,
            ContractError::DisputeAlreadyResolved => 2,
            ContractError::DisputeExpired => 3,
            ContractError::DisputeNotResolvable => 4,
            ContractError::ProofAlreadySubmitted => 5,
            ContractError::InvalidProof => 6,
            ContractError::Unauthorized => 7,
            ContractError::DuplicateDispute => 8,
            ContractError::Overflow => 9,
            ContractError::NotOpen => 10,
            ContractError::ResolutionWindowExpired => 11,
            ContractError::ResolutionWindowActive => 12,
            ContractError::NotResponded => 13,
            ContractError::AlreadyInitialized => 14,
            ContractError::InvalidConfig => 15,
            ContractError::InvalidProofSignature => 16,
        }
    }

    /// The numeric error code that clients receive.
    pub fn code(&self) -> (c: u32)
        ensures
            c == self.spec_code(),
    {
        match self {
            ContractError::DisputeNotFound => 1,
            ContractError::DisputeAlreadyResolved => 2,
            ContractError::DisputeExpired => 3,
            ContractError::DisputeNotResolvable => 4,
            ContractError::ProofAlreadySubmitted => 5,
            ContractError::InvalidProof => 6,
            ContractError::Unauthorized => 7,
            ContractError::DuplicateDispute => 8,
            ContractError::Overflow => 9,
            ContractError::NotOpen => 10,
            ContractError::ResolutionWindowExpired => 11,
            ContractError::ResolutionWindowActive => 12,
            ContractError::NotResponded => 13,
            ContractError::AlreadyInitialized => 14,
            ContractError::InvalidConfig => 15,
            ContractError::InvalidProofSignature => 16,
        }
    }
}

} // verus!
