//! Accounting core of a custodial vault: pooled deposits, time-based yield per
//! depositor, and named trading strategies with a periodic execution cycle.
//!
//! Nothing here reads a clock, moves an asset or stores a record: every
//! operation takes the records it works on, the caller and the current time,
//! and says in its contract what it makes of them.
//!
//! - `accrual`: the yield that a principal earns over time.
//! - `identity`, `errors`, `state`: callers, refusals and records.
//! - `guard`: who may do what.
//! - `ledger`: the rules of a depositor's position, shared by the vaults.
//! - `basic_vault`, `strategy_vault`: the operations of the two vaults.
//! - `plain_vault`: a vault without yield.
pub mod accrual;
pub mod basic_vault;
pub mod errors;
pub mod guard;
pub mod identity;
pub mod ledger;
pub mod plain_vault;
pub mod state;
pub mod strategy_vault;
