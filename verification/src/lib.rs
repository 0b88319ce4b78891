//! A transaction ledger: deposits, withdrawals and the dispute lifecycle,
//! applied record by record to per-client accounts.

pub mod amount;
pub mod decimal;
pub mod record;
pub mod ledger;
pub mod laws;
