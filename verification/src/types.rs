//! Plain models of the host's call-parameter values.
//!
//! The entry-point logic never looks inside an account or an amount: it only
//! carries them from the parameter provider to the transfer service. These
//! types hold their content as plain values so that the logic over them can
//! be verified.

use vstd::prelude::*;

verus! {

/// A ledger account: an opaque fixed-size identifier.
#[derive(Clone, Copy, Debug)]
pub struct AccountId {
    pub bytes: [u8; 20],
}

/// An amount of the ledger's native currency, in drops.
#[derive(Clone, Copy, Debug)]
pub struct Amount {
    pub drops: u64,
}

/// An amount of an issued token: a decimal value with its currency code and
/// issuing account.
#[derive(Clone, Copy, Debug)]
pub struct TokenAmount {
    pub mantissa: i64,
    pub exponent: i32,
    pub currency: [u8; 20],
    pub issuer: AccountId,
}

/// An error code handed back by the host when a required call parameter is
/// missing or malformed.
#[derive(Clone, Copy, Debug)]
pub struct HostError {
    pub code: i64,
}

} // verus!
