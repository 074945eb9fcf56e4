//! A ledger engine that replays deposits, withdrawals, disputes, resolutions and
//! chargebacks against per-client accounts.
//!
//! Money is held in fixed point: every amount and balance is a whole number of
//! ten-thousandths of a currency unit, so all arithmetic is exact.

pub mod types;
pub mod model;
pub mod transactions;
pub mod process_transaction;
pub mod laws;
