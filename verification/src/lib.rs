//! A staking-rewards ledger: accounts deposit a staking token, accrue a reward
//! token over time in proportion to their share of the total staked supply, and
//! may withdraw principal or claim accrued rewards.
//!
//! The heart of the crate is the reward-accrual engine in [`execute`]: a global
//! cumulative reward-per-unit accumulator, a per-account settlement rule, and
//! the stake / withdraw / claim operations built on top of them. Every
//! operation is a pure function from the current ledger state and the current
//! time to a staged new state plus the token transfer it requires; the host
//! performs the transfer and commits the staged state only when the transfer
//! succeeds, so every operation is all-or-nothing.

pub mod contract;
pub mod error;
pub mod execute;
pub mod laws;
pub mod msg;
pub mod state;

pub use crate::error::ContractError;
