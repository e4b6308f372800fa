//! Protocol core of a trading-exchange client that signs through multi-party
//! threshold signatures on several blockchain families.
//!
//! The crate holds the error model, the blockchain-tagged type layer, the
//! session state with its per-chain pools of one-time secrets, and the
//! Diffie-Hellman operation that refills those pools.

pub mod errors;
pub mod hash;
pub mod hex;
pub mod mpc;
pub mod protocol;
pub mod types;
