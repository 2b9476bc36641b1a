//! A ledger-backed wallet service: per-user balances with an audit trail,
//! deterministic deposit addresses, and the decisions around calls to an
//! external settlement ledger.

pub mod env;
pub mod error;
pub mod identifier;
pub mod persistence;
pub mod service;
pub mod store;
pub mod transaction;
pub mod wallet;
