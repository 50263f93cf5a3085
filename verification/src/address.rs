//! Principals.

use vstd::prelude::*;

verus! {

/// What a principal is: an account that signs, or a contract.
#[derive(Clone, Copy, Debug, PartialEq, Eq, Hash, Structural)]
pub enum AddressKind {
    Account,
    Contract,
}

/// A principal, identified by its kind and its 256-bit key.
///
/// Two addresses are the same principal exactly when they are equal.
#[derive(Clone, Copy, Debug, PartialEq, Eq, Hash, Structural)]
pub struct Address {
    pub kind: AddressKind,
    /// High half of the key.
    pub hi: u128,
    /// Low half of the key.
    pub lo: u128,
}

/// One end of a transfer: the contract itself or another principal.
#[derive(Clone, Copy, Debug, PartialEq, Eq, Hash, Structural)]
pub enum Party {
    Contract,
    Holder(Address),
}

/// A request to move `amount` of `token` from `from` to `to`.
///
/// The host carries it out through the token contract and reports whether
/// the token contract accepted.
#[derive(Clone, Copy, Debug, PartialEq, Eq, Structural)]
pub struct Transfer {
    pub token: Address,
    pub from: Party,
    pub to: Party,
    pub amount: i128,
}

} // verus!
