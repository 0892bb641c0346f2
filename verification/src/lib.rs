//! A verified model of a Solana vault program: each user owns a state
//! account and a lamport vault, both program-derived addresses, and may
//! deposit into, withdraw from and close the vault.

pub mod pda;
pub mod account;
pub mod error;
pub mod state;
pub mod actions;
pub mod instructions;
pub mod vault;
pub mod laws;
pub mod behaviour;
