//! The lending pool: share accounting, utilisation-indexed interest and the
//! split of repaid interest.

pub mod types;
pub mod pool_math;
pub mod pool;
pub mod contract;
pub mod deposits;
pub mod loans;
pub mod round_trips;
pub mod transfers;
