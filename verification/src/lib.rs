//! Per-token state-transition and fraud-detection logic for a Plasma-style
//! layer-2 scheme: a signed transaction model with a canonical encoding, a
//! pairwise transaction-relationship classifier, and a per-token state
//! machine (deposit, transfer, withdraw) built on both.

pub mod bytes;
pub mod u256;
pub mod account;
pub mod crypto;
pub mod txn;
pub mod state;
pub mod chain;
