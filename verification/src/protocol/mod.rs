//! The protocol layer: the session state that every operation shares, and the
//! operations themselves.

pub mod dh_fill_pool;
pub mod list_account_trades;
pub mod response;
pub mod signer;
pub mod state;
