//! Balance look-ups for a list of wallet addresses, as far as they can be
//! decided without touching the network: validating the configured address
//! strings, and turning what a node answered into the ordered list of
//! `(address, balance)` entries, for per-address queries and for one batched
//! query.

pub mod address;
pub mod balance;
pub mod error;
pub mod fail_fast;
pub mod validate;
