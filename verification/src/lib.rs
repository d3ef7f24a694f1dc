//! Core of an escrow-based two-party wagering protocol.
//!
//! A player locks twice their stake into a shared treasury when a game is
//! created.  The recipient is paid the stake on every outcome; a pseudo-random
//! byte, compared against a tiered win threshold, decides whether the player
//! is refunded the full escrow.  This crate holds the verified core: the game
//! lifecycle state machine, the odds policy, the entropy mixing, and the
//! escrow accounting.  The surrounding ledger runtime (account storage,
//! signature checks, the atomic transaction envelope and the actual fund
//! transfers) is an external collaborator and stays outside this crate.

pub mod collateral;
pub mod config;
pub mod entropy;
pub mod errors;
pub mod game;
pub mod ledger;
pub mod machine;
pub mod odds;
