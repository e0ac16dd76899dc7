//! SAFE-HAVEN time-locked vault: the verified core of the contract.
//!
//! The vault state, every entry point's decision logic and all of the
//! arithmetic (penalties, compound interest, farming rewards, performance
//! analytics) live here with contracts proved by Verus. The host runtime
//! (authorisation, persistence, token transfers, events) stays outside:
//! each entry point receives the ledger's clock as a plain value and
//! returns the token transfers it decided on.

pub mod address;
pub mod admin;
pub mod archive;
pub mod arith;
pub mod constants;
pub mod deposit;
pub mod errors;
pub mod insurance;
pub mod interest;
pub mod laws;
pub mod lists;
pub mod performance;
pub mod queries;
pub mod settings;
pub mod staking;
pub mod subscriptions;
pub mod types;
pub mod vault;
pub mod withdraw;
pub mod yield_farming;
