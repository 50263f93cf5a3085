//! What holds of the pool across operations.

use vstd::prelude::*;
use crate::address::Address;
use crate::lending::contract::{share_measure, LendingContract};
use crate::store::{lemma_measure_at_bounded, nonnegative_on};
use crate::lending::pool::{
    credited_shares, lemma_interest_split, lemma_minted_at_most_amount, locked_shares,
    pool_after_borrow, pool_after_deposit, pool_after_repay, pool_after_withdraw, pool_liquidity,
    pool_wf,
};
use crate::lending::pool_math::{spec_assets_for_shares, spec_shares_for_deposit, MINIMUM_LIQUIDITY};
use crate::lending::types::PoolState;

verus! {

/// In a well-formed state no more is borrowed than was deposited, and shares
/// are outstanding exactly when tokens are held.
pub proof fn lemma_pool_accounting(state: LendingContract)
    requires
        state.wf(),
    ensures
        state.pool.total_borrowed <= state.pool.total_deposits,
        state.pool.total_shares == 0 <==> state.pool.total_deposits == 0,
        pool_liquidity(state.pool) == state.pool.total_deposits - state.pool.total_borrowed,
{
}

/// Depositing and then redeeming what was credited gives the deposit back,
/// less the shares locked at the first deposit, while nothing is lent out
/// and no interest has accrued, that is while as many shares are out as
/// tokens are held.
pub proof fn lemma_deposit_then_withdraw(pool: PoolState, amount: u64)
    requires
        pool_wf(pool),
        pool.total_borrowed == 0,
        pool.total_shares == pool.total_deposits,
        pool.total_deposits + amount <= u64::MAX,
        credited_shares(pool, amount) > 0,
    ensures
        ({
            let credited = credited_shares(pool, amount) as u64;
            let after = pool_after_deposit(pool, amount);
            &&& credited == amount - (if pool.total_shares == 0 {
                MINIMUM_LIQUIDITY as int
            } else {
                0
            })
            &&& spec_assets_for_shares(after, credited) == credited
            &&& spec_assets_for_shares(after, credited) <= pool_liquidity(after)
            &&& pool_after_withdraw(after, credited).total_deposits == pool.total_deposits
                + locked_shares(after) - locked_shares(pool)
        }),
{
    lemma_minted_at_most_amount(pool, amount);
    let credited = credited_shares(pool, amount);
    let after = pool_after_deposit(pool, amount);
    let s = after.total_shares as int;
    if pool.total_shares == 0 {
        assert(spec_shares_for_deposit(pool, amount) == amount);
    } else {
        let a = amount as int;
        let d = pool.total_deposits as int;
        assert(a * d / d == a) by (nonlinear_arith)
            requires
                d > 0,
        ;
    }
    assert(after.total_shares == after.total_deposits);
    assert(credited * s / s == credited) by (nonlinear_arith)
        requires
            s > 0,
    ;
}

/// A deposit into a pool in which nothing is lent out and no interest has
/// accrued can be withdrawn again at once: the shares it credited are
/// accepted for redemption and redeem the deposit, less the shares locked at
/// the first deposit.
pub proof fn lemma_deposit_can_be_withdrawn(
    before: LendingContract,
    after: LendingContract,
    depositor: Address,
    amount: u64,
)
    requires
        before.wf(),
        before.pool.total_borrowed == 0,
        before.pool.total_shares == before.pool.total_deposits,
        before.pool.total_deposits + amount <= u64::MAX,
        before.deposit_error(amount, true) is None,
        after.config == before.config,
        after.pool == pool_after_deposit(before.pool, amount),
        after.shares@ == before.shares@.insert(
            depositor,
            (before.shares_of(depositor) + credited_shares(before.pool, amount)) as u64,
        ),
    ensures
        after.withdraw_error(depositor, credited_shares(before.pool, amount) as u64, true)
            is None,
        spec_assets_for_shares(after.pool, credited_shares(before.pool, amount) as u64) == amount
            - (if before.pool.total_shares == 0 {
            MINIMUM_LIQUIDITY as int
        } else {
            0
        }),
{
    lemma_deposit_then_withdraw(before.pool, amount);
    lemma_minted_at_most_amount(before.pool, amount);
    assert(nonnegative_on(before.shares.entries@, share_measure()));
    lemma_measure_at_bounded(before.shares.entries@, depositor, share_measure());
}

/// Borrowing and repaying at the same ledger time leaves the pool's
/// accounting and the open loans as they were, costs no interest and
/// returns the collateral in full; and the repayment is accepted.
pub proof fn lemma_borrow_then_repay(
    before: LendingContract,
    after: LendingContract,
    borrower: Address,
    amount: u64,
    collateral_token: Address,
    collateral_amount: u64,
    duration_seconds: u64,
    now: u64,
)
    requires
        before.wf(),
        before.borrow_error(borrower, amount, collateral_token, collateral_amount, true, true)
            is None,
        now + duration_seconds <= u64::MAX,
        after.config == before.config,
        after.pool == pool_after_borrow(before.pool, amount),
        after.loans@ == before.loans@.insert(
            borrower,
            before.loan_made(
                borrower,
                amount,
                collateral_token,
                collateral_amount,
                duration_seconds,
                now,
            ),
        ),
    ensures
        ({
            let loan = after.loans@[borrower];
            &&& after.repay_error(borrower, true, true) is None
            &&& after.repay_fits(borrower, now)
            &&& LendingContract::interest_due(loan, now) == 0
            &&& pool_after_repay(after.pool, loan.principal, 0) == before.pool
            &&& after.loans@.remove(borrower) == before.loans@
            &&& loan.collateral_amount == collateral_amount
            &&& loan.principal == amount
        }),
{
    let loan = before.loan_made(
        borrower,
        amount,
        collateral_token,
        collateral_amount,
        duration_seconds,
        now,
    );
    assert(loan.principal * loan.interest_rate_bps * 0 == 0) by (nonlinear_arith);
    lemma_interest_split(0);
    assert(after.loans@.remove(borrower) =~= before.loans@);
}

} // verus!
