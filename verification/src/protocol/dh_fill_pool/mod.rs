//! The Diffie-Hellman operation that refills the pools of one-time secrets.

pub mod response;
pub mod types;
