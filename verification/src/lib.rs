//! The on-chain core of an inheritance-and-lending protocol as three state
//! machines over plain values: an inheritance vault, a share-based lending
//! pool and a collateralised borrowing vault.
//!
//! Every operation is a transition on a state value. What the host supplies
//! (the ledger time, the outcome of a token transfer, a token balance) comes
//! in as an argument; what the host has to carry out (transfers, events)
//! goes out in the result.

pub mod math;
pub mod address;
pub mod digest;
pub mod store;
pub mod inheritance;
pub mod lending;
pub mod borrowing;
