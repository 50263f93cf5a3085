//! Records of the borrowing vault.

use vstd::prelude::*;
use crate::address::Address;

verus! {

/// A loan against collateral.
#[derive(Clone, Copy, Debug, PartialEq, Eq)]
pub struct Loan {
    pub borrower: Address,
    pub principal: i128,
    pub interest_rate: u32,
    pub due_date: u64,
    /// What was repaid or liquidated so far.
    pub amount_repaid: i128,
    /// The collateral still in escrow.
    pub collateral_amount: i128,
    pub collateral_token: Address,
    pub is_active: bool,
}

/// What the vault was initialised with.
#[derive(Clone, Copy, Debug, PartialEq, Eq)]
pub struct BorrowingConfig {
    pub admin: Address,
    /// Collateral asked for a loan, in basis points of the principal.
    pub collateral_ratio_bps: u32,
    /// Health factor below which a loan may be liquidated, in basis points.
    pub liquidation_threshold_bps: u32,
    /// What a liquidator gets on top of what it liquidates, in basis points.
    pub liquidation_bonus_bps: u32,
}

/// Why a call into the borrowing vault was refused.
#[derive(Clone, Copy, Debug, PartialEq, Eq, Structural)]
pub enum BorrowingError {
    AlreadyInitialized,
    Unauthorized,
    InsufficientCollateral,
    CollateralNotWhitelisted,
    LoanNotFound,
    LoanHealthy,
    LoanNotActive,
    InvalidAmount,
    Paused,
}

impl BorrowingError {
    /// The number under which the error is reported on chain.
    pub open spec fn spec_code(self) -> u32 {
        match self {
            BorrowingError::AlreadyInitialized => 1,
            BorrowingError::Unauthorized => 2,
            BorrowingError::InsufficientCollateral => 3,
            BorrowingError::CollateralNotWhitelisted => 4,
            BorrowingError::LoanNotFound => 5,
            BorrowingError::LoanHealthy => 6,
            BorrowingError::LoanNotActive => 7,
            BorrowingError::InvalidAmount => 8,
            BorrowingError::Paused => 9,
        }
    }

    /// The number under which the error is reported on chain.
    pub fn code(&self) -> (c: u32)
        ensures
            c == self.spec_code(),
            1 <= c <= 9,
    {
        match self {
            BorrowingError::AlreadyInitialized => 1,
            BorrowingError::Unauthorized => 2,
            BorrowingError::InsufficientCollateral => 3,
            BorrowingError::CollateralNotWhitelisted => 4,
            BorrowingError::LoanNotFound => 5,
            BorrowingError::LoanHealthy => 6,
            BorrowingError::LoanNotActive => 7,
            BorrowingError::InvalidAmount => 8,
            BorrowingError::Paused => 9,
        }
    }
}

} // verus!
