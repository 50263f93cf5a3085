//! Share and interest arithmetic of the lending pool.

use vstd::prelude::*;
use crate::math::{amount_mul_div, fit_u64, saturate_u32, mul_div_u64, lemma_u64_product_fits};
use crate::lending::contract::LendingContract;
use crate::lending::types::PoolState;

verus! {

/// Shares permanently locked at the first deposit.
pub const MINIMUM_LIQUIDITY: u64 = 1000;

/// Part of repaid interest that the protocol keeps, in basis points.
pub const PROTOCOL_INTEREST_BPS: u32 = 1000;

/// Part of the protocol's interest that goes to the bad-debt reserve, in
/// basis points.
pub const BAD_DEBT_RESERVE_BPS: u32 = 5000;

/// Seconds in a year of 365 days.
pub const SECONDS_IN_YEAR: u64 = 31_536_000;

/// Shares minted for a deposit of `amount`: one for one while the pool is
/// empty, else in proportion to the shares outstanding.
pub open spec fn spec_shares_for_deposit(pool: PoolState, amount: u64) -> int {
    if pool.total_shares == 0 || pool.total_deposits == 0 {
        amount as int
    } else {
        amount_mul_div(amount as int, pool.total_shares as int, pool.total_deposits as int)
    }
}

/// Underlying tokens that `shares` redeem.
pub open spec fn spec_assets_for_shares(pool: PoolState, shares: u64) -> int {
    if pool.total_shares == 0 {
        0
    } else {
        amount_mul_div(shares as int, pool.total_deposits as int, pool.total_shares as int)
    }
}

/// Simple interest on `principal` at `rate_bps` per year over
/// `elapsed_seconds`; zero where the product leaves 128 bits or the result
/// is no `u64`.
pub open spec fn spec_interest(principal: u64, rate_bps: u32, elapsed_seconds: u64) -> int {
    if principal * rate_bps * elapsed_seconds > u128::MAX {
        0
    } else {
        fit_u64(principal * rate_bps * elapsed_seconds / 315_360_000_000)
    }
}

/// Borrowed part of the deposits in basis points, cut off at the largest
/// `u32`; zero for an empty pool.
pub open spec fn spec_utilization_bps(total_borrowed: u64, total_deposits: u64) -> int {
    if total_deposits == 0 {
        0
    } else {
        saturate_u32(total_borrowed * 10000 / (total_deposits as int))
    }
}

/// The rate at a given utilisation: base plus the multiplier's share of the
/// utilisation, cut off at the largest `u32`.
pub open spec fn spec_dynamic_rate(
    base_rate_bps: u32,
    multiplier_bps: u32,
    utilization_bps: u32,
) -> int {
    saturate_u32(base_rate_bps + utilization_bps * multiplier_bps / 10000)
}

/// Utilisation never exceeds the whole while no more is borrowed than was
/// deposited.
pub proof fn lemma_utilization_at_most_whole(total_borrowed: u64, total_deposits: u64)
    requires
        total_borrowed <= total_deposits,
    ensures
        0 <= spec_utilization_bps(total_borrowed, total_deposits) <= 10000,
{
    if total_deposits != 0 {
        let b = total_borrowed as int;
        let d = total_deposits as int;
        assert(0 <= b * 10000 / d <= 10000) by (nonlinear_arith)
            requires
                0 <= b <= d,
                d > 0,
        ;
    }
}

impl LendingContract {
    /// Shares to mint for a deposit of `amount`.
    pub fn shares_for_deposit(pool: &PoolState, amount: u64) -> (shares: u64)
        ensures
            shares == spec_shares_for_deposit(*pool, amount),
    {
        if pool.total_shares == 0 || pool.total_deposits == 0 {
            amount
        } else {
            mul_div_u64(amount, pool.total_shares, pool.total_deposits)
        }
    }

    /// Underlying tokens that `shares` redeem.
    pub fn assets_for_shares(pool: &PoolState, shares: u64) -> (amount: u64)
        ensures
            amount == spec_assets_for_shares(*pool, shares),
    {
        if pool.total_shares == 0 {
            0
        } else {
            mul_div_u64(shares, pool.total_deposits, pool.total_shares)
        }
    }

    /// Simple interest on `principal` at `rate_bps` over `elapsed_seconds`.
    pub fn calculate_interest(principal: u64, rate_bps: u32, elapsed_seconds: u64) -> (interest:
        u64)
        ensures
            interest == spec_interest(principal, rate_bps, elapsed_seconds),
    {
        if elapsed_seconds == 0 || rate_bps == 0 {
            assert(principal * rate_bps * elapsed_seconds == 0) by (nonlinear_arith)
                requires
                    elapsed_seconds == 0 || rate_bps == 0,
            ;
            return 0;
        }
        proof {
            lemma_u64_product_fits(principal, rate_bps as u64);
        }
        let scaled: u128 = (principal as u128) * (rate_bps as u128);
        let numerator: u128 = match scaled.checked_mul(elapsed_seconds as u128) {
            Some(n) => n,
            None => {
                return 0;
            },
        };
        let quotient: u128 = numerator / 315_360_000_000u128;
        if quotient > u64::MAX as u128 {
            0
        } else {
            quotient as u64
        }
    }

    /// Borrowed part of the deposits in basis points.
    pub fn get_utilization_bps(total_borrowed: u64, total_deposits: u64) -> (bps: u32)
        ensures
            bps == spec_utilization_bps(total_borrowed, total_deposits),
    {
        if total_deposits == 0 {
            return 0;
        }
        proof {
            lemma_u64_product_fits(total_borrowed, 10000);
        }
        let quotient: u128 = (total_borrowed as u128) * 10000u128 / (total_deposits as u128);
        if quotient > u32::MAX as u128 {
            u32::MAX
        } else {
            quotient as u32
        }
    }

    /// The interest rate at `utilization_bps`.
    pub fn calculate_dynamic_rate(base_rate_bps: u32, multiplier_bps: u32, utilization_bps: u32)
        -> (rate: u32)
        ensures
            rate == spec_dynamic_rate(base_rate_bps, multiplier_bps, utilization_bps),
    {
        assert(0 <= utilization_bps * multiplier_bps <= 0xffff_ffff * 0xffff_ffff)
            by (nonlinear_arith)
            requires
                0 <= utilization_bps <= 0xffff_ffff,
                0 <= multiplier_bps <= 0xffff_ffff,
        ;
        let variable: u64 = (utilization_bps as u64) * (multiplier_bps as u64) / 10000;
        let sum: u64 = base_rate_bps as u64 + variable;
        if sum > u32::MAX as u64 {
            u32::MAX
        } else {
            sum as u32
        }
    }
}

} // verus!
