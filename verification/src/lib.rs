//! An escrow-based marketplace ledger.
//!
//! The library covers the account data model (`Listing`, `Escrow`), the
//! deterministic address-derivation scheme, the fixed-layout account codec,
//! the five atomic settlement operations, and the read-only validation and
//! simulation service that re-computes the same addresses and the same
//! financial breakdown without mutating state.
pub mod addr;
pub mod codec;
pub mod errors;
pub mod engine;
pub mod service;
pub mod state;
pub mod validate;
