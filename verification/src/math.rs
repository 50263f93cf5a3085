//! Checked integer chains.
//!
//! Amounts are multiplied and divided in 128 bits. A chain whose product
//! leaves 128 bits, whose divisor is zero, or whose quotient does not fit
//! the type it is narrowed to, yields zero: the caller's own checks then
//! reject the zero. Ratios in basis points saturate instead, so that a
//! comparison against a limit reads as it does over the integers.

use vstd::prelude::*;

verus! {

/// One hundred percent in basis points.
pub const BPS_DENOMINATOR: u64 = 10000;

/// `a * b / d` over the integers, rounded down.
pub open spec fn mul_div(a: int, b: int, d: int) -> int {
    a * b / d
}

/// `q` where it is a `u64`, else zero.
pub open spec fn fit_u64(q: int) -> int {
    if 0 <= q <= u64::MAX {
        q
    } else {
        0
    }
}

/// `q` cut off at the largest `u32`.
pub open spec fn saturate_u32(q: int) -> int {
    if q > u32::MAX {
        u32::MAX as int
    } else {
        q
    }
}

/// The value of the chain `a * b / d` on amounts: zero where `d` is zero or
/// the quotient is no `u64`.
pub open spec fn amount_mul_div(a: int, b: int, d: int) -> int {
    if d == 0 {
        0
    } else {
        fit_u64(mul_div(a, b, d))
    }
}

/// `a * b` fits 128 bits for 64-bit factors.
pub proof fn lemma_u64_product_fits(a: u64, b: u64)
    ensures
        0 <= a * b <= u128::MAX,
{
    assert(0 <= a * b <= 0xffff_ffff_ffff_ffff * 0xffff_ffff_ffff_ffff) by (nonlinear_arith)
        requires
            0 <= a <= 0xffff_ffff_ffff_ffff,
            0 <= b <= 0xffff_ffff_ffff_ffff,
    ;
}

/// Computes `a * b / d` on amounts in 128 bits.
pub fn mul_div_u64(a: u64, b: u64, d: u64) -> (r: u64)
    ensures
        r == amount_mul_div(a as int, b as int, d as int),
{
    if d == 0 {
        return 0;
    }
    proof {
        lemma_u64_product_fits(a, b);
    }
    let product: u128 = (a as u128) * (b as u128);
    let quotient: u128 = product / (d as u128);
    if quotient > u64::MAX as u128 {
        0
    } else {
        quotient as u64
    }
}

/// The share of `amount` that `bps` basis points stand for, rounded down.
pub open spec fn bps_of(amount: int, bps: int) -> int {
    amount_mul_div(amount, bps, 10000)
}

/// A share of at most the whole never exceeds the amount.
pub proof fn lemma_bps_of_bounded(amount: int, bps: int)
    requires
        0 <= amount <= u64::MAX,
        0 <= bps <= 10000,
    ensures
        0 <= bps_of(amount, bps) <= amount,
        bps_of(amount, bps) == amount * bps / 10000,
        bps == 10000 ==> bps_of(amount, bps) == amount,
{
    assert(0 <= amount * bps <= amount * 10000) by (nonlinear_arith)
        requires
            0 <= amount,
            0 <= bps <= 10000,
    ;
    assert(0 <= amount * bps / 10000 <= amount) by (nonlinear_arith)
        requires
            0 <= amount * bps <= amount * 10000,
    ;
    if bps == 10000 {
        assert(amount * 10000 / 10000 == amount) by (nonlinear_arith);
    }
}

/// Computes the share of `amount` that `bps` basis points stand for.
pub fn bps_share(amount: u64, bps: u32) -> (r: u64)
    ensures
        r == bps_of(amount as int, bps as int),
{
    mul_div_u64(amount, bps as u64, BPS_DENOMINATOR)
}

} // verus!
