//! The hosted account service: trial bookkeeping, account types and the
//! decoding of its responses.

pub mod account;
pub mod client;
pub mod error;
pub mod store;
pub mod trial;
pub mod types;
