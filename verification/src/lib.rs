//! A payment forwarder for a ledger host.
//!
//! The contract keeps one configuration record: the owner who may change it and
//! the address that receives payments. On request it turns the funds attached
//! to a call into a single transfer to that address.

pub mod address;
pub mod coin;
pub mod contract;
pub mod error;
pub mod laws;
pub mod msg;
pub mod payment;
pub mod state;
