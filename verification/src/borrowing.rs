//! The borrowing vault: loans against escrowed collateral, with liquidation
//! of loans whose collateral no longer covers the debt.

pub mod types;
pub mod contract;
