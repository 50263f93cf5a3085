//! The inheritance vault: plans, beneficiaries, claims, identity checks and
//! the trigger lifecycle.

pub mod types;
pub mod events;
pub mod plan;
pub mod contract;
pub mod validation;
pub mod create;
pub mod claim;
pub mod trigger;
pub mod vault;
pub mod beneficiaries;
pub mod kyc;
pub mod upgrade;
pub mod queries;
pub mod invariants;
