//! A ledger engine: per-client accounts, a dispute life cycle for every
//! recorded transaction, and a register that routes instructions to accounts.
//!
//! Balances are exact decimals. Every contract is stated over the views of the
//! types: an account is its balances, its lock flag and the map of recorded
//! transactions; a register is a map from client ids to accounts.

pub mod amount;
pub mod errors;
pub mod instructions;
pub mod account;

pub mod output;
pub mod register;
