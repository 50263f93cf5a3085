//! Deposits into the pool, withdrawals from it and payouts of retained
//! yield.

use vstd::prelude::*;
use crate::address::Address;
use crate::store::{lemma_measure_at_bounded, nonnegative_on};
use crate::lending::contract::{share_measure, LendingContract};
use crate::lending::pool::{
    credited_shares, lemma_deposit_keeps_pool_wf, lemma_minted_at_most_amount,
    lemma_redeemed_bounds, lemma_withdraw_keeps_pool_wf, locked_shares, pool_after_deposit,
    pool_after_withdraw, pool_liquidity,
};
use crate::lending::pool_math::{spec_assets_for_shares, MINIMUM_LIQUIDITY};
use crate::lending::types::{
    DepositEvent, LendingError, PoolState, PriorityWithdrawEvent, WithdrawEvent,
};

verus! {

impl LendingContract {
    /// The share balance of `owner`.
    pub open spec fn shares_of(&self, owner: Address) -> u64 {
        if self.shares@.contains_key(owner) {
            self.shares@[owner]
        } else {
            0
        }
    }

    /// Why a deposit is refused, if it is. The checks come in this order:
    /// the pool must be initialised; the amount must be above zero; the
    /// token contract must have moved it; the first deposit must mint more
    /// than the shares that are locked; and the depositor must be credited
    /// at least one share.
    pub open spec fn deposit_error(&self, amount: u64, transfer_ok: bool) -> Option<LendingError> {
        if self.config is None {
            Some(LendingError::NotInitialized)
        } else if amount == 0 {
            Some(LendingError::InvalidAmount)
        } else if !transfer_ok {
            Some(LendingError::TransferFailed)
        } else if credited_shares(self.pool, amount) <= 0 {
            Some(LendingError::InvalidAmount)
        } else {
            None
        }
    }

    /// Why a withdrawal is refused, if it is. The checks come in this order:
    /// the pool must be initialised; the shares must be above zero and no
    /// more than the depositor holds; they must redeem at least one token
    /// and no more than is deposited and not lent out; and the token
    /// contract must have moved what they redeem.
    pub open spec fn withdraw_error(&self, depositor: Address, shares: u64, transfer_ok: bool)
        -> Option<LendingError> {
        if self.config is None {
            Some(LendingError::NotInitialized)
        } else if shares == 0 {
            Some(LendingError::InvalidAmount)
        } else if shares > self.shares_of(depositor) {
            Some(LendingError::InsufficientShares)
        } else if spec_assets_for_shares(self.pool, shares) == 0 {
            Some(LendingError::InvalidAmount)
        } else if spec_assets_for_shares(self.pool, shares) > pool_liquidity(self.pool) {
            Some(LendingError::InsufficientLiquidity)
        } else if !transfer_ok {
            Some(LendingError::TransferFailed)
        } else {
            None
        }
    }

    /// Why a priority withdrawal is refused, if it is: the pool is not
    /// initialised, the amount is zero or more than the retained yield, or
    /// the token contract did not move it.
    pub open spec fn withdraw_priority_error(&self, amount: u64, transfer_ok: bool) -> Option<
        LendingError,
    > {
        if self.config is None {
            Some(LendingError::NotInitialized)
        } else if amount == 0 {
            Some(LendingError::InvalidAmount)
        } else if amount > self.pool.retained_yield {
            Some(LendingError::InsufficientLiquidity)
        } else if !transfer_ok {
            Some(LendingError::TransferFailed)
        } else {
            None
        }
    }

    /// The share balance of `owner`.
    pub fn get_shares_of(&self, owner: Address) -> (shares: u64)
        requires
            self.wf(),
        ensures
            shares == self.shares_of(owner),
            shares + locked_shares(self.pool) <= self.pool.total_shares,
    {
        proof {
            assert(nonnegative_on(self.shares.entries@, share_measure()));
            lemma_measure_at_bounded(self.shares.entries@, owner, share_measure());
        }
        match self.shares.get(&owner) {
            Some(shares) => shares,
            None => 0,
        }
    }

    /// Why a deposit is refused, if it is.
    pub fn check_deposit(&self, amount: u64, transfer_ok: bool) -> (r: Option<LendingError>)
        requires
            self.wf(),
        ensures
            r == self.deposit_error(amount, transfer_ok),
    {
        if self.config.is_none() {
            return Some(LendingError::NotInitialized);
        }
        if amount == 0 {
            return Some(LendingError::InvalidAmount);
        }
        if !transfer_ok {
            return Some(LendingError::TransferFailed);
        }
        proof {
            lemma_minted_at_most_amount(self.pool, amount);
        }
        let minted = Self::shares_for_deposit(&self.pool, amount);
        if self.pool.total_shares == 0 {
            if minted <= MINIMUM_LIQUIDITY {
                return Some(LendingError::InvalidAmount);
            }
        } else if minted == 0 {
            return Some(LendingError::InvalidAmount);
        }
        None
    }

    /// Deposits `amount` for `depositor` and credits the shares it mints.
    /// `transfer_ok` says whether the token contract carried out the
    /// transfer that `deposit_transfer` names. The first deposit sets the
    /// minimum liquidity aside: those shares are minted and credited to
    /// nobody. Where the call is refused nothing changes.
    ///
    /// What is deposited must remain a `u64`.
    pub fn deposit(&mut self, depositor: Address, amount: u64, transfer_ok: bool) -> (r: Result<
        DepositEvent,
        LendingError,
    >)
        requires
            old(self).wf(),
            old(self).deposit_error(amount, transfer_ok) is None ==> old(self).pool.total_deposits
                + amount <= u64::MAX,
        ensures
            final(self).wf(),
            match r {
                Ok(event) => {
                    let credited = credited_shares(old(self).pool, amount);
                    &&& old(self).deposit_error(amount, transfer_ok) is None
                    &&& final(self).pool == pool_after_deposit(old(self).pool, amount)
                    &&& final(self).shares@ == old(self).shares@.insert(
                        depositor,
                        (old(self).shares_of(depositor) + credited) as u64,
                    )
                    &&& event == (DepositEvent {
                        depositor,
                        amount,
                        shares_minted: credited as u64,
                    })
                    &&& final(self).config == old(self).config
                    &&& final(self).loans == old(self).loans
                    &&& final(self).next_loan_id == old(self).next_loan_id
                    &&& final(self).whitelist == old(self).whitelist
                },
                Err(e) => {
                    &&& old(self).deposit_error(amount, transfer_ok) == Some(e)
                    &&& *final(self) == *old(self)
                },
            },
    {
        match self.check_deposit(amount, transfer_ok) {
            Some(e) => {
                return Err(e);
            },
            None => {},
        }
        proof {
            lemma_minted_at_most_amount(self.pool, amount);
            lemma_deposit_keeps_pool_wf(self.pool, amount);
        }
        let minted = Self::shares_for_deposit(&self.pool, amount);
        let shares: u64 = if self.pool.total_shares == 0 {
            minted - MINIMUM_LIQUIDITY
        } else {
            minted
        };
        let existing = self.get_shares_of(depositor);
        self.pool.total_deposits = self.pool.total_deposits + amount;
        self.pool.total_shares = self.pool.total_shares + minted;
        self.shares.set(depositor, existing + shares);
        Ok(DepositEvent { depositor, amount, shares_minted: shares })
    }

    /// Redeems `shares` of `depositor` for the tokens they stand for.
    /// `transfer_ok` says whether the token contract carried out the
    /// transfer that `withdraw_transfer` names. Where the call is refused
    /// nothing changes.
    pub fn withdraw(&mut self, depositor: Address, shares: u64, transfer_ok: bool) -> (r: Result<
        WithdrawEvent,
        LendingError,
    >)
        requires
            old(self).wf(),
        ensures
            final(self).wf(),
            match r {
                Ok(event) => {
                    &&& old(self).withdraw_error(depositor, shares, transfer_ok) is None
                    &&& final(self).pool == pool_after_withdraw(old(self).pool, shares)
                    &&& final(self).shares@ == old(self).shares@.insert(
                        depositor,
                        (old(self).shares_of(depositor) - shares) as u64,
                    )
                    &&& event == (WithdrawEvent {
                        depositor,
                        shares_burned: shares,
                        amount: spec_assets_for_shares(old(self).pool, shares) as u64,
                    })
                    &&& final(self).config == old(self).config
                    &&& final(self).loans == old(self).loans
                    &&& final(self).next_loan_id == old(self).next_loan_id
                    &&& final(self).whitelist == old(self).whitelist
                },
                Err(e) => {
                    &&& old(self).withdraw_error(depositor, shares, transfer_ok) == Some(e)
                    &&& *final(self) == *old(self)
                },
            },
    {
        if self.config.is_none() {
            return Err(LendingError::NotInitialized);
        }
        if shares == 0 {
            return Err(LendingError::InvalidAmount);
        }
        let depositor_shares = self.get_shares_of(depositor);
        if shares > depositor_shares {
            return Err(LendingError::InsufficientShares);
        }
        proof {
            lemma_redeemed_bounds(self.pool, shares);
        }
        let amount = Self::assets_for_shares(&self.pool, shares);
        if amount == 0 {
            return Err(LendingError::InvalidAmount);
        }
        let available = self.pool.total_deposits.saturating_sub(self.pool.total_borrowed);
        if amount > available {
            return Err(LendingError::InsufficientLiquidity);
        }
        if !transfer_ok {
            return Err(LendingError::TransferFailed);
        }
        proof {
            lemma_withdraw_keeps_pool_wf(self.pool, shares);
        }
        self.pool.total_deposits = self.pool.total_deposits - amount;
        self.pool.total_shares = self.pool.total_shares - shares;
        self.shares.set(depositor, depositor_shares - shares);
        Ok(WithdrawEvent { depositor, shares_burned: shares, amount })
    }

    /// Pays `amount` out of the retained yield to `caller`. `transfer_ok`
    /// says whether the token contract carried out the transfer that
    /// `priority_transfer` names. Deposits are never touched. Where the call
    /// is refused nothing changes.
    pub fn withdraw_priority(&mut self, caller: Address, amount: u64, transfer_ok: bool) -> (r:
        Result<PriorityWithdrawEvent, LendingError>)
        requires
            old(self).wf(),
        ensures
            final(self).wf(),
            match r {
                Ok(event) => {
                    &&& old(self).withdraw_priority_error(amount, transfer_ok) is None
                    &&& final(self).pool == (PoolState {
                        retained_yield: (old(self).pool.retained_yield - amount) as u64,
                        ..old(self).pool
                    })
                    &&& event == (PriorityWithdrawEvent { caller, amount })
                    &&& final(self).config == old(self).config
                    &&& final(self).shares == old(self).shares
                    &&& final(self).loans == old(self).loans
                    &&& final(self).next_loan_id == old(self).next_loan_id
                    &&& final(self).whitelist == old(self).whitelist
                },
                Err(e) => {
                    &&& old(self).withdraw_priority_error(amount, transfer_ok) == Some(e)
                    &&& *final(self) == *old(self)
                },
            },
    {
        if self.config.is_none() {
            return Err(LendingError::NotInitialized);
        }
        if amount == 0 {
            return Err(LendingError::InvalidAmount);
        }
        if amount > self.pool.retained_yield {
            return Err(LendingError::InsufficientLiquidity);
        }
        if !transfer_ok {
            return Err(LendingError::TransferFailed);
        }
        self.pool.retained_yield = self.pool.retained_yield - amount;
        Ok(PriorityWithdrawEvent { caller, amount })
    }

    /// What is deposited and not lent out.
    pub fn available_liquidity(&self) -> (r: Result<u64, LendingError>)
        ensures
            match r {
                Ok(amount) => self.config is Some && amount == pool_liquidity(self.pool),
                Err(e) => self.config is None && e == LendingError::NotInitialized,
            },
    {
        if self.config.is_none() {
            return Err(LendingError::NotInitialized);
        }
        Ok(self.pool.total_deposits.saturating_sub(self.pool.total_borrowed))
    }
}

} // verus!
