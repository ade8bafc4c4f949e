//! The ways in which a call of the contract fails.

use vstd::prelude::*;

verus! {

/// What the host is told when a payment's funds are refused.
pub const INVALID_FUNDS_MESSAGE: &'static str =
    "You must pass some ust coins to send make a payment";

/// Why a call was aborted. A failed call changes nothing and emits nothing.
#[derive(Clone, Copy, Debug, PartialEq, Eq, Structural)]
pub enum ContractError {
    /// The configuration was to be changed by someone other than the owner.
    Unauthorized,
    /// A payment came without funds, or with funds of another currency.
    InvalidFunds,
    /// The configuration was read before it was ever written.
    Uninitialized,
    /// The stored configuration could not be read.
    StorageFailure,
}

} // verus!
