//! A multi-asset staking rewards ledger.
//!
//! Participants lock one of three asset classes — non-fungible tokens,
//! fungible tokens, or the native coin — into program-held custody and
//! accrue reward points, redeemable as a minted reward token. Principal
//! can be withdrawn only after a minimum freeze period.
//!
//! The crate is the accounting and custody state machine: the global
//! configuration registry, the per-participant ledger, the per-stake
//! custody record, the two custody strategies (delegated-freeze for
//! non-fungible assets, vault-escrow for fungible and native assets),
//! the time-lock enforcement, and the reward computation and minting
//! protocol. Every operation is a synchronous, atomic state transition:
//! it either applies all of its effects or, on any error, leaves every
//! account untouched.
//!
//! The host environment that executes operations atomically, supplies
//! the trusted wall clock, and physically moves tokens is out of scope;
//! operations take the current time and the touched accounts as plain
//! values.

pub mod addressing;
pub mod error;
pub mod timelock;
pub mod state;
pub mod rewards;
pub mod delegated_freeze;
pub mod vault_escrow;
pub mod initialize_config;
pub mod initialize_user;
pub mod stake_nft;
pub mod unstake_nft;
pub mod stake_sol;
pub mod unstake_sol;
pub mod stake_spl;
pub mod unstake_spl;
pub mod laws;
