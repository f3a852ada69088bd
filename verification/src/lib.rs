//! An on-chain account ledger with a fee-splitting transfer operation and a
//! guarded withdrawal operation.
//!
//! The contract tracks, for a single recognized coin denomination, an unsigned
//! balance per account. A send operation deposits the attached coins, deducts
//! a configured fee for the contract owner, and splits the remainder evenly
//! between two recipients. A withdrawal decrements the caller's balance and
//! produces a funds-release instruction for the host to execute.
//!
//! The host environment (storage primitives, address validation, transaction
//! rollback) stays outside this crate: operations take the configuration and
//! the ledger as explicit values and describe exactly how they change them.

pub mod contract;
pub mod error;
pub mod msg;
pub mod state;
