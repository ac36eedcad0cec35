//! Error codes returned by the relay registry.

use vstd::prelude::*;

verus! {

/// All error codes returned by the relay registry; `code` gives the number
/// that clients see.
#[derive(Copy, Clone, Debug, Eq, PartialEq, PartialOrd, Ord, Structural)]
pub enum ContractError {
    /// A node with this address is already registered.
    AlreadyRegistered,
    /// The node is not in the registry.
    NotRegistered,
    /// The stake amount is zero, negative, or more than the node holds.
    InsufficientStake,
    /// The stake lock period has not elapsed yet.
    StakeLocked,
    /// The node has been slashed.
    NodeSlashed,
    /// The node is not active.
    NodeNotActive,
    /// The node's metadata is invalid (uptime commitment above 100).
    InvalidMetadata,
    /// Arithmetic overflow in stake or time arithmetic.
    Overflow,
}

impl ContractError {
    /// The numeric error code that clients receive.
    pub open spec fn spec_code(self) -> u32 {
        match self {
            ContractError::AlreadyRegistered => 1,
            ContractError::NotRegistered => 2,
            ContractError::InsufficientStake => 3,
            ContractError::StakeLocked => 4,
            ContractError::NodeSlashed => 5,
            ContractError::NodeNotActive => 6,
            ContractError::InvalidMetadata => 7,
            ContractError::Overflow => 8,
        }
    }

    /// The numeric error code that clients receive.
    pub fn code(&self) -> (c: u32)
        ensures
            c == self.spec_code(),
    {
        match self {
            ContractError::AlreadyRegistered => 1,
            ContractError::NotRegistered => 2,
            ContractError::InsufficientStake => 3,
            ContractError::StakeLocked => 4,
            ContractError::NodeSlashed => 5,
            ContractError::NodeNotActive => 6,
            ContractError::InvalidMetadata => 7,
            ContractError::Overflow => 8,
        }
    }
}

} // verus!
