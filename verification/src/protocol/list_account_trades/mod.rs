//! The operation that lists the trades of the account.

pub mod request;
pub mod types;
