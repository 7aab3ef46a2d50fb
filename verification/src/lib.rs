//! Reward vault: custody of a single fungible asset plus a points ledger.
//!
//! One owner controls a vault that pools an asset; users accumulate points
//! (owner credits, or a time-gated daily check-in) and redeem them for the
//! pooled asset at an owner-set rate. This crate holds the verified core:
//! the record types, the authorization discipline of every operation, and
//! the exact points-to-token redemption arithmetic. Moving the asset itself
//! is the host ledger's transfer primitive; the operations here decide,
//! mutate the records, and describe the transfer to perform.

pub mod accounts;
pub mod engine;
pub mod error;
pub mod keys;
pub mod laws;
pub mod math;
pub mod ops;
pub mod transfer;
