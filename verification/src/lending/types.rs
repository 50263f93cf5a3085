//! Records of the lending pool.

use vstd::prelude::*;
use crate::address::Address;

verus! {

/// An open loan.
#[derive(Clone, Copy, Debug, PartialEq, Eq)]
pub struct LoanRecord {
    pub loan_id: u64,
    pub borrower: Address,
    pub principal: u64,
    pub collateral_amount: u64,
    pub collateral_token: Address,
    pub borrow_time: u64,
    pub due_date: u64,
    /// The yearly rate, fixed when the loan was made.
    pub interest_rate_bps: u32,
}

/// What the pool was initialised with.
#[derive(Clone, Copy, Debug, PartialEq, Eq)]
pub struct LendingConfig {
    pub admin: Address,
    /// The token that is deposited and lent.
    pub token: Address,
    /// Collateral asked for a loan, in basis points of the amount lent.
    pub collateral_ratio_bps: u32,
}

/// Topic `POOL/DEPOSIT`.
#[derive(Clone, Copy, Debug, PartialEq, Eq)]
pub struct DepositEvent {
    pub depositor: Address,
    pub amount: u64,
    pub shares_minted: u64,
}

/// Topic `POOL/WITHDRAW`.
#[derive(Clone, Copy, Debug, PartialEq, Eq)]
pub struct WithdrawEvent {
    pub depositor: Address,
    pub shares_burned: u64,
    pub amount: u64,
}

/// Topic `POOL/PRIORITY`.
#[derive(Clone, Copy, Debug, PartialEq, Eq)]
pub struct PriorityWithdrawEvent {
    pub caller: Address,
    pub amount: u64,
}

/// Topic `POOL/BORROW`.
#[derive(Clone, Copy, Debug, PartialEq, Eq)]
pub struct BorrowEvent {
    pub loan_id: u64,
    pub borrower: Address,
    pub amount: u64,
    pub collateral_amount: u64,
    pub due_date: u64,
}

/// Topic `POOL/REPAY`.
#[derive(Clone, Copy, Debug, PartialEq, Eq)]
pub struct RepayEvent {
    pub loan_id: u64,
    pub borrower: Address,
    pub principal: u64,
    pub interest: u64,
    pub total_amount: u64,
    pub collateral_returned: u64,
}

/// Topic `COLL/DEPOSIT`.
#[derive(Clone, Copy, Debug, PartialEq, Eq)]
pub struct CollateralDepositEvent {
    pub loan_id: u64,
    pub borrower: Address,
    pub collateral_token: Address,
    pub amount: u64,
}

/// The pool's accounting state.
#[derive(Clone, Copy, Debug, PartialEq, Eq)]
pub struct PoolState {
    /// Underlying tokens held for depositors, net of withdrawals; grows by
    /// the depositors' part of repaid interest.
    pub total_deposits: u64,
    /// Pool shares outstanding, the permanently locked ones included.
    pub total_shares: u64,
    /// Principal currently on loan.
    pub total_borrowed: u64,
    /// Interest rate at zero utilisation, in basis points.
    pub base_rate_bps: u32,
    /// Slope of the rate over utilisation, in basis points.
    pub multiplier_bps: u32,
    /// Highest utilisation a borrow may leave behind, in basis points.
    pub utilization_cap_bps: u32,
    /// Interest kept back for priority payouts.
    pub retained_yield: u64,
    /// Interest set aside against bad debt.
    pub bad_debt_reserve: u64,
}

/// Why a call into the lending pool was refused.
#[derive(Clone, Copy, Debug, PartialEq, Eq, Structural)]
pub enum LendingError {
    NotInitialized,
    AlreadyInitialized,
    NotAdmin,
    InsufficientLiquidity,
    InsufficientShares,
    NoOpenLoan,
    LoanAlreadyExists,
    InvalidAmount,
    TransferFailed,
    Unauthorized,
    InsufficientCollateral,
    CollateralNotWhitelisted,
    UtilizationCapExceeded,
}

impl LendingError {
    /// The number under which the error is reported on chain.
    pub open spec fn spec_code(self) -> u32 {
        match self {
            LendingError::NotInitialized => 1,
            LendingError::AlreadyInitialized => 2,
            LendingError::NotAdmin => 3,
            LendingError::InsufficientLiquidity => 4,
            LendingError::InsufficientShares => 5,
            LendingError::NoOpenLoan => 6,
            LendingError::LoanAlreadyExists => 7,
            LendingError::InvalidAmount => 8,
            LendingError::TransferFailed => 9,
            LendingError::Unauthorized => 10,
            LendingError::InsufficientCollateral => 11,
            LendingError::CollateralNotWhitelisted => 12,
            LendingError::UtilizationCapExceeded => 13,
        }
    }

    /// The number under which the error is reported on chain.
    pub fn code(&self) -> (c: u32)
        ensures
            c == self.spec_code(),
            1 <= c <= 13,
    {
        match self {
            LendingError::NotInitialized => 1,
            LendingError::AlreadyInitialized => 2,
            LendingError::NotAdmin => 3,
            LendingError::InsufficientLiquidity => 4,
            LendingError::InsufficientShares => 5,
            LendingError::NoOpenLoan => 6,
            LendingError::LoanAlreadyExists => 7,
            LendingError::InvalidAmount => 8,
            LendingError::TransferFailed => 9,
            LendingError::Unauthorized => 10,
            LendingError::InsufficientCollateral => 11,
            LendingError::CollateralNotWhitelisted => 12,
            LendingError::UtilizationCapExceeded => 13,
        }
    }
}

} // verus!
