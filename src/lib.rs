//! Instruction-processing core of a single-owner value vault.
//!
//! Accounts are modelled as plain values ([`account::AccountState`]); the
//! handlers validate, move value between those accounts and update the
//! 48-byte vault record, with every step proved against its contract.
pub mod account;
pub mod bytes;
pub mod error;
pub mod guards;
pub mod helpers;
pub mod instructions;
pub mod laws;
pub mod pda;
pub mod processor;
pub mod state;
pub mod transfer;
