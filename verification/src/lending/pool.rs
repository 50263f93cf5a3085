//! How the pool's accounting moves with each operation, and what holds of
//! it throughout.

use vstd::prelude::*;
use crate::math::{bps_of, lemma_bps_of_bounded};
use crate::lending::pool_math::{
    spec_assets_for_shares, spec_shares_for_deposit, spec_utilization_bps, BAD_DEBT_RESERVE_BPS,
    MINIMUM_LIQUIDITY, PROTOCOL_INTEREST_BPS,
};
use crate::lending::types::PoolState;

verus! {

/// The pool's accounting is sound: no more is borrowed than was deposited,
/// no more shares are out than tokens are held, and shares are out exactly
/// when tokens are held, the locked ones among them.
pub open spec fn pool_wf(pool: PoolState) -> bool {
    &&& pool.total_borrowed <= pool.total_deposits
    &&& pool.total_shares <= pool.total_deposits
    &&& (pool.total_shares == 0 <==> pool.total_deposits == 0)
    &&& (pool.total_shares > 0 ==> pool.total_shares >= MINIMUM_LIQUIDITY)
}

/// The shares that are locked for good: none before the first deposit, the
/// minimum liquidity after it.
pub open spec fn locked_shares(pool: PoolState) -> int {
    if pool.total_shares == 0 {
        0
    } else {
        MINIMUM_LIQUIDITY as int
    }
}

/// What is deposited and not lent out.
pub open spec fn pool_liquidity(pool: PoolState) -> int {
    if pool.total_borrowed >= pool.total_deposits {
        0
    } else {
        pool.total_deposits - pool.total_borrowed
    }
}

/// The shares credited to who deposits `amount`: those minted, less the
/// locked ones at the first deposit.
pub open spec fn credited_shares(pool: PoolState, amount: u64) -> int {
    if pool.total_shares == 0 {
        spec_shares_for_deposit(pool, amount) - MINIMUM_LIQUIDITY
    } else {
        spec_shares_for_deposit(pool, amount)
    }
}

/// The pool after a deposit of `amount`.
pub open spec fn pool_after_deposit(pool: PoolState, amount: u64) -> PoolState {
    PoolState {
        total_deposits: (pool.total_deposits + amount) as u64,
        total_shares: (pool.total_shares + spec_shares_for_deposit(pool, amount)) as u64,
        ..pool
    }
}

/// The pool after `shares` were redeemed.
pub open spec fn pool_after_withdraw(pool: PoolState, shares: u64) -> PoolState {
    PoolState {
        total_deposits: (pool.total_deposits - spec_assets_for_shares(pool, shares)) as u64,
        total_shares: (pool.total_shares - shares) as u64,
        ..pool
    }
}

/// The pool after `amount` was lent out.
pub open spec fn pool_after_borrow(pool: PoolState, amount: u64) -> PoolState {
    PoolState { total_borrowed: (pool.total_borrowed + amount) as u64, ..pool }
}

/// The protocol's part of repaid interest: a tenth.
pub open spec fn protocol_share(interest: u64) -> int {
    bps_of(interest as int, PROTOCOL_INTEREST_BPS as int)
}

/// The part of the protocol's interest that goes to the bad-debt reserve:
/// half of it.
pub open spec fn reserve_share(interest: u64) -> int {
    bps_of(protocol_share(interest), BAD_DEBT_RESERVE_BPS as int)
}

/// The part of the protocol's interest that is retained for priority
/// payouts: what does not go to the reserve.
pub open spec fn retained_share(interest: u64) -> int {
    protocol_share(interest) - reserve_share(interest)
}

/// The depositors' part of repaid interest: what the protocol does not keep.
pub open spec fn pool_share(interest: u64) -> int {
    interest - protocol_share(interest)
}

/// The pool after a loan of `principal` was repaid with `interest`.
pub open spec fn pool_after_repay(pool: PoolState, principal: u64, interest: u64) -> PoolState {
    PoolState {
        total_borrowed: (pool.total_borrowed - principal) as u64,
        total_deposits: (pool.total_deposits + pool_share(interest)) as u64,
        retained_yield: (pool.retained_yield + retained_share(interest)) as u64,
        bad_debt_reserve: (pool.bad_debt_reserve + reserve_share(interest)) as u64,
        ..pool
    }
}

/// The four parts of repaid interest are not negative and sum to the
/// interest.
pub proof fn lemma_interest_split(interest: u64)
    ensures
        0 <= protocol_share(interest) <= interest,
        0 <= reserve_share(interest) <= protocol_share(interest),
        0 <= retained_share(interest),
        0 <= pool_share(interest) <= interest,
        pool_share(interest) + retained_share(interest) + reserve_share(interest) == interest,
        protocol_share(interest) == interest * 1000 / 10000,
        reserve_share(interest) == protocol_share(interest) * 5000 / 10000,
{
    lemma_bps_of_bounded(interest as int, PROTOCOL_INTEREST_BPS as int);
    lemma_bps_of_bounded(protocol_share(interest), BAD_DEBT_RESERVE_BPS as int);
}

/// In a sound pool that holds tokens, a deposit mints no more shares than
/// tokens come in.
pub proof fn lemma_minted_at_most_amount(pool: PoolState, amount: u64)
    requires
        pool_wf(pool),
    ensures
        0 <= spec_shares_for_deposit(pool, amount) <= amount,
        pool.total_shares > 0 ==> spec_shares_for_deposit(pool, amount) == amount
            * pool.total_shares / (pool.total_deposits as int),
{
    if pool.total_shares > 0 {
        let a = amount as int;
        let s = pool.total_shares as int;
        let d = pool.total_deposits as int;
        assert(0 <= a * s / d <= a) by (nonlinear_arith)
            requires
                0 <= a,
                0 < s <= d,
        ;
    }
}

/// In a sound pool, shares redeem no more than the pool holds, and less
/// where some shares stay behind.
pub proof fn lemma_redeemed_bounds(pool: PoolState, shares: u64)
    requires
        pool_wf(pool),
        shares <= pool.total_shares,
    ensures
        0 <= spec_assets_for_shares(pool, shares) <= pool.total_deposits,
        pool.total_shares > 0 ==> spec_assets_for_shares(pool, shares) == shares
            * pool.total_deposits / (pool.total_shares as int),
        shares < pool.total_shares ==> spec_assets_for_shares(pool, shares)
            < pool.total_deposits,
        pool.total_shares - shares <= pool.total_deposits - spec_assets_for_shares(pool, shares),
{
    if pool.total_shares > 0 {
        let x = shares as int;
        let s = pool.total_shares as int;
        let d = pool.total_deposits as int;
        assert(0 <= x * d / s <= d) by (nonlinear_arith)
            requires
                0 <= x <= s,
                0 < s <= d,
        ;
        if x < s {
            assert(x * d / s < d) by (nonlinear_arith)
                requires
                    0 <= x < s,
                    0 < s <= d,
            ;
        }
        assert(x * d / s <= x + d - s) by (nonlinear_arith)
            requires
                0 <= x <= s,
                0 < s <= d,
        ;
    }
}

/// A deposit that is accepted leaves a sound pool behind.
pub proof fn lemma_deposit_keeps_pool_wf(pool: PoolState, amount: u64)
    requires
        pool_wf(pool),
        amount > 0,
        pool.total_deposits + amount <= u64::MAX,
        pool.total_shares == 0 ==> amount > MINIMUM_LIQUIDITY,
    ensures
        pool_wf(pool_after_deposit(pool, amount)),
        pool.total_shares + spec_shares_for_deposit(pool, amount) <= u64::MAX,
{
    lemma_minted_at_most_amount(pool, amount);
}

/// A withdrawal that is accepted leaves a sound pool behind.
pub proof fn lemma_withdraw_keeps_pool_wf(pool: PoolState, shares: u64)
    requires
        pool_wf(pool),
        shares + locked_shares(pool) <= pool.total_shares,
        spec_assets_for_shares(pool, shares) <= pool_liquidity(pool),
    ensures
        pool_wf(pool_after_withdraw(pool, shares)),
{
    lemma_redeemed_bounds(pool, shares);
}

/// After a loan within what is deposited and not lent out, utilisation is at
/// most the whole.
pub proof fn lemma_borrow_keeps_pool_wf(pool: PoolState, amount: u64)
    requires
        pool_wf(pool),
        amount <= pool_liquidity(pool),
    ensures
        pool_wf(pool_after_borrow(pool, amount)),
        spec_utilization_bps(
            pool_after_borrow(pool, amount).total_borrowed,
            pool.total_deposits,
        ) <= 10000,
{
    crate::lending::pool_math::lemma_utilization_at_most_whole(
        (pool.total_borrowed + amount) as u64,
        pool.total_deposits,
    );
}

/// A repayment that fits leaves a sound pool behind.
pub proof fn lemma_repay_keeps_pool_wf(pool: PoolState, principal: u64, interest: u64)
    requires
        pool_wf(pool),
        0 < principal <= pool.total_borrowed,
        pool.total_deposits + pool_share(interest) <= u64::MAX,
        pool.retained_yield + retained_share(interest) <= u64::MAX,
        pool.bad_debt_reserve + reserve_share(interest) <= u64::MAX,
    ensures
        pool_wf(pool_after_repay(pool, principal, interest)),
{
    lemma_interest_split(interest);
}

} // verus!
