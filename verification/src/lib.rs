//! Accounting core of a collateralized lending ledger.
//!
//! The library tracks pooled deposits and loans for one pair of asset types,
//! issues proportional claim units ("shares") for deposits and debts, accrues
//! linear interest over elapsed time, and enforces the solvency rule that
//! bounds how much a participant may borrow against their collateral.
//!
//! Everything here is plain integer arithmetic over two records: a per-market
//! ledger ([`state::Market`]) and a per-user position
//! ([`state::UserPosition`]). The surrounding host is expected to supply the
//! clock reading, move the actual tokens, and persist the records; this crate
//! only decides what the records become and which amounts move.

pub mod constants;
pub mod errors;
pub mod health;
pub mod interest;
pub mod laws;
pub mod ops;
pub mod shares_math;
pub mod state;
