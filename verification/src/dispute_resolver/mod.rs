//! The dispute resolver: arbitration of double-spend conflicts. Its entry
//! points are not implemented yet; what exists is its error codes and its
//! storage layout.

pub mod errors;
pub mod laws;
pub mod storage;

pub use self::storage::DisputeResolverContract;
