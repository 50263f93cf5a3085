//! Loans from the pool and their repayment.

use vstd::prelude::*;
use crate::address::Address;
use crate::store::{index_of, lemma_entry_in_map, lemma_measure_at_bounded, measure_at, nonnegative_on};
use crate::lending::contract::{principal_measure, LendingContract};
use crate::lending::pool::{
    lemma_borrow_keeps_pool_wf, lemma_interest_split, lemma_repay_keeps_pool_wf,
    pool_after_borrow, pool_after_repay, pool_liquidity, pool_share, reserve_share,
    retained_share,
};
use crate::lending::pool_math::{
    spec_dynamic_rate, spec_interest, spec_utilization_bps, BAD_DEBT_RESERVE_BPS,
    PROTOCOL_INTEREST_BPS,
};
use crate::lending::types::{
    BorrowEvent, CollateralDepositEvent, LendingError, LoanRecord, RepayEvent,
};
use crate::math::bps_share;

verus! {

impl LendingContract {
    /// The interest due at `now` on `loan`.
    pub open spec fn interest_due(loan: LoanRecord, now: u64) -> int {
        spec_interest(
            loan.principal,
            loan.interest_rate_bps,
            if now >= loan.borrow_time {
                (now - loan.borrow_time) as u64
            } else {
                0
            },
        )
    }

    /// Why a loan is refused, if it is. The checks come in this order: the
    /// pool must be initialised; the amount and the collateral must be above
    /// zero; the collateral token must be accepted; the borrower must have
    /// no open loan; the collateral must cover the amount at the collateral
    /// ratio; the amount must not exceed what is deposited and not lent out;
    /// the utilisation after the loan must not exceed the cap; and the token
    /// contracts must have moved the collateral in and then the loan out.
    pub open spec fn borrow_error(
        &self,
        borrower: Address,
        amount: u64,
        collateral_token: Address,
        collateral_amount: u64,
        collateral_transfer_ok: bool,
        loan_transfer_ok: bool,
    ) -> Option<LendingError> {
        if self.config is None {
            Some(LendingError::NotInitialized)
        } else if amount == 0 || collateral_amount == 0 {
            Some(LendingError::InvalidAmount)
        } else if !self.whitelisted(collateral_token) {
            Some(LendingError::CollateralNotWhitelisted)
        } else if self.loans@.contains_key(borrower) {
            Some(LendingError::LoanAlreadyExists)
        } else if collateral_amount < amount * self.collateral_ratio() / 10000 {
            Some(LendingError::InsufficientCollateral)
        } else if amount > pool_liquidity(self.pool) {
            Some(LendingError::InsufficientLiquidity)
        } else if spec_utilization_bps(
            (self.pool.total_borrowed + amount) as u64,
            self.pool.total_deposits,
        ) > self.pool.utilization_cap_bps {
            Some(LendingError::UtilizationCapExceeded)
        } else if !collateral_transfer_ok || !loan_transfer_ok {
            Some(LendingError::TransferFailed)
        } else {
            None
        }
    }

    /// The loan that a borrow at `now` records.
    pub open spec fn loan_made(
        &self,
        borrower: Address,
        amount: u64,
        collateral_token: Address,
        collateral_amount: u64,
        duration_seconds: u64,
        now: u64,
    ) -> LoanRecord {
        LoanRecord {
            loan_id: self.next_loan_id,
            borrower,
            principal: amount,
            collateral_amount,
            collateral_token,
            borrow_time: now,
            due_date: (now + duration_seconds) as u64,
            interest_rate_bps: spec_dynamic_rate(
                self.pool.base_rate_bps,
                self.pool.multiplier_bps,
                spec_utilization_bps(
                    (self.pool.total_borrowed + amount) as u64,
                    self.pool.total_deposits,
                ) as u32,
            ) as u32,
        }
    }

    /// Why a repayment is refused, if it is: the pool is not initialised,
    /// the borrower has no open loan, or the token contracts did not move
    /// the repayment in and then the collateral out.
    pub open spec fn repay_error(
        &self,
        borrower: Address,
        repayment_transfer_ok: bool,
        collateral_transfer_ok: bool,
    ) -> Option<LendingError> {
        if self.config is None {
            Some(LendingError::NotInitialized)
        } else if !self.loans@.contains_key(borrower) {
            Some(LendingError::NoOpenLoan)
        } else if !repayment_transfer_ok || !collateral_transfer_ok {
            Some(LendingError::TransferFailed)
        } else {
            None
        }
    }

    /// Whether the repayment of `borrower`'s loan at `now` stays within 64
    /// bits: the sum repaid and the three balances that the interest goes
    /// to.
    pub open spec fn repay_fits(&self, borrower: Address, now: u64) -> bool {
        let loan = self.loans@[borrower];
        let interest = Self::interest_due(loan, now) as u64;
        &&& loan.principal + interest <= u64::MAX
        &&& self.pool.total_deposits + pool_share(interest) <= u64::MAX
        &&& self.pool.retained_yield + retained_share(interest) <= u64::MAX
        &&& self.pool.bad_debt_reserve + reserve_share(interest) <= u64::MAX
    }

    /// Why a loan is refused, if it is.
    pub fn check_borrow(
        &self,
        borrower: Address,
        amount: u64,
        collateral_token: Address,
        collateral_amount: u64,
        collateral_transfer_ok: bool,
        loan_transfer_ok: bool,
    ) -> (r: Option<LendingError>)
        requires
            self.wf(),
        ensures
            r == self.borrow_error(
                borrower,
                amount,
                collateral_token,
                collateral_amount,
                collateral_transfer_ok,
                loan_transfer_ok,
            ),
    {
        let config = match self.config {
            Some(c) => c,
            None => {
                return Some(LendingError::NotInitialized);
            },
        };
        if amount == 0 || collateral_amount == 0 {
            return Some(LendingError::InvalidAmount);
        }
        if !self.is_whitelisted(collateral_token) {
            return Some(LendingError::CollateralNotWhitelisted);
        }
        if self.loans.contains(&borrower) {
            return Some(LendingError::LoanAlreadyExists);
        }
        proof {
            crate::math::lemma_u64_product_fits(amount, config.collateral_ratio_bps as u64);
        }
        let required: u128 = (amount as u128) * (config.collateral_ratio_bps as u128) / 10000;
        if (collateral_amount as u128) < required {
            return Some(LendingError::InsufficientCollateral);
        }
        let available = self.pool.total_deposits.saturating_sub(self.pool.total_borrowed);
        if amount > available {
            return Some(LendingError::InsufficientLiquidity);
        }
        let utilization = Self::get_utilization_bps(
            self.pool.total_borrowed + amount,
            self.pool.total_deposits,
        );
        if utilization > self.pool.utilization_cap_bps {
            return Some(LendingError::UtilizationCapExceeded);
        }
        if !collateral_transfer_ok || !loan_transfer_ok {
            return Some(LendingError::TransferFailed);
        }
        None
    }

    /// Whether what `borrower` has to pay at `now` to repay its loan, if it
    /// has one, is a `u64`.
    pub fn check_repayment_fits(&self, borrower: Address, now: u64) -> (ok: bool)
        requires
            self.wf(),
        ensures
            ok == (self.loans@.contains_key(borrower) ==> self.loans@[borrower].principal
                + Self::interest_due(self.loans@[borrower], now) <= u64::MAX),
    {
        match self.loans.get(&borrower) {
            None => true,
            Some(loan) => {
                let elapsed = now.saturating_sub(loan.borrow_time);
                let interest = Self::calculate_interest(
                    loan.principal,
                    loan.interest_rate_bps,
                    elapsed,
                );
                loan.principal.checked_add(interest).is_some()
            },
        }
    }

    /// Lends `amount` to `borrower` against collateral, at the ledger time
    /// `now`, for `duration_seconds`. The loan's rate is the one at the
    /// utilisation that it leaves behind. `collateral_transfer_ok` and
    /// `loan_transfer_ok` say whether the token contracts carried out the
    /// two transfers that `borrow_transfers` names. Where the call is
    /// refused nothing changes.
    ///
    /// The due date and the number after the loan's must remain `u64`s.
    pub fn borrow(
        &mut self,
        borrower: Address,
        amount: u64,
        collateral_token: Address,
        collateral_amount: u64,
        duration_seconds: u64,
        now: u64,
        collateral_transfer_ok: bool,
        loan_transfer_ok: bool,
    ) -> (r: Result<(BorrowEvent, CollateralDepositEvent), LendingError>)
        requires
            old(self).wf(),
            old(self).borrow_error(
                borrower,
                amount,
                collateral_token,
                collateral_amount,
                collateral_transfer_ok,
                loan_transfer_ok,
            ) is None ==> now + duration_seconds <= u64::MAX && old(self).next_loan_id < u64::MAX,
        ensures
            final(self).wf(),
            match r {
                Ok(events) => {
                    let loan = old(self).loan_made(
                        borrower,
                        amount,
                        collateral_token,
                        collateral_amount,
                        duration_seconds,
                        now,
                    );
                    &&& old(self).borrow_error(
                        borrower,
                        amount,
                        collateral_token,
                        collateral_amount,
                        collateral_transfer_ok,
                        loan_transfer_ok,
                    ) is None
                    &&& final(self).pool == pool_after_borrow(old(self).pool, amount)
                    &&& final(self).loans@ == old(self).loans@.insert(borrower, loan)
                    &&& final(self).next_loan_id == old(self).next_loan_id + 1
                    &&& spec_utilization_bps(
                        final(self).pool.total_borrowed,
                        final(self).pool.total_deposits,
                    ) <= final(self).pool.utilization_cap_bps
                    &&& events.0 == (BorrowEvent {
                        loan_id: loan.loan_id,
                        borrower,
                        amount,
                        collateral_amount,
                        due_date: loan.due_date,
                    })
                    &&& events.1 == (CollateralDepositEvent {
                        loan_id: loan.loan_id,
                        borrower,
                        collateral_token,
                        amount: collateral_amount,
                    })
                    &&& final(self).config == old(self).config
                    &&& final(self).shares == old(self).shares
                    &&& final(self).whitelist == old(self).whitelist
                },
                Err(e) => {
                    &&& old(self).borrow_error(
                        borrower,
                        amount,
                        collateral_token,
                        collateral_amount,
                        collateral_transfer_ok,
                        loan_transfer_ok,
                    ) == Some(e)
                    &&& *final(self) == *old(self)
                },
            },
    {
        match self.check_borrow(
            borrower,
            amount,
            collateral_token,
            collateral_amount,
            collateral_transfer_ok,
            loan_transfer_ok,
        ) {
            Some(e) => {
                return Err(e);
            },
            None => {},
        }
        let new_borrowed: u64 = self.pool.total_borrowed + amount;
        let utilization = Self::get_utilization_bps(new_borrowed, self.pool.total_deposits);
        let rate = Self::calculate_dynamic_rate(
            self.pool.base_rate_bps,
            self.pool.multiplier_bps,
            utilization,
        );
        let loan_id = self.next_loan_id;
        let due_date: u64 = now + duration_seconds;
        let loan = LoanRecord {
            loan_id,
            borrower,
            principal: amount,
            collateral_amount,
            collateral_token,
            borrow_time: now,
            due_date,
            interest_rate_bps: rate,
        };
        proof {
            lemma_borrow_keeps_pool_wf(self.pool, amount);
        }
        self.pool.total_borrowed = new_borrowed;
        self.next_loan_id = loan_id + 1;
        self.loans.set(borrower, loan);
        proof {
            assert(measure_at(old(self).loans.entries@, borrower, principal_measure()) == 0);
            assert forall|a: Address, b: Address|
                self.loans@.contains_key(a) && self.loans@.contains_key(b) && a != b implies (
            #[trigger] self.loans@[a]).loan_id != (#[trigger] self.loans@[b]).loan_id by {
                if a != borrower {
                    assert(old(self).loans@.contains_key(a));
                }
                if b != borrower {
                    assert(old(self).loans@.contains_key(b));
                }
            }
            assert forall|b: Address| #[trigger] self.loans@.contains_key(b) implies self.loans@[b].borrower
                == b && self.loans@[b].loan_id < self.next_loan_id && self.loans@[b].principal
                > 0 by {
                if b != borrower {
                    assert(old(self).loans@.contains_key(b));
                }
            }
        }
        Ok(
            (
                BorrowEvent { loan_id, borrower, amount, collateral_amount, due_date },
                CollateralDepositEvent {
                    loan_id,
                    borrower,
                    collateral_token,
                    amount: collateral_amount,
                },
            ),
        )
    }

    /// Repays the loan of `borrower` in full at the ledger time `now`:
    /// principal and interest come in, the collateral goes back, and the
    /// interest is split between the depositors, the retained yield and the
    /// bad-debt reserve. `repayment_transfer_ok` and `collateral_transfer_ok`
    /// say whether the token contracts carried out the two transfers that
    /// `repay_transfers` names. Where the call is refused nothing changes.
    ///
    /// The sum to be repaid must be a `u64`, and where the repayment is
    /// accepted the balances that the interest goes to must remain `u64`s.
    pub fn repay(
        &mut self,
        borrower: Address,
        now: u64,
        repayment_transfer_ok: bool,
        collateral_transfer_ok: bool,
    ) -> (r: Result<RepayEvent, LendingError>)
        requires
            old(self).wf(),
            old(self).config is Some && old(self).loans@.contains_key(borrower) ==> old(
                self,
            ).loans@[borrower].principal + Self::interest_due(old(self).loans@[borrower], now)
                <= u64::MAX,
            old(self).repay_error(borrower, repayment_transfer_ok, collateral_transfer_ok)
                is None ==> old(self).repay_fits(borrower, now),
        ensures
            final(self).wf(),
            match r {
                Ok(event) => {
                    let loan = old(self).loans@[borrower];
                    let interest = Self::interest_due(loan, now) as u64;
                    &&& old(self).repay_error(
                        borrower,
                        repayment_transfer_ok,
                        collateral_transfer_ok,
                    ) is None
                    &&& final(self).pool == pool_after_repay(
                        old(self).pool,
                        loan.principal,
                        interest,
                    )
                    &&& final(self).loans@ == old(self).loans@.remove(borrower)
                    &&& event == (RepayEvent {
                        loan_id: loan.loan_id,
                        borrower,
                        principal: loan.principal,
                        interest,
                        total_amount: (loan.principal + interest) as u64,
                        collateral_returned: loan.collateral_amount,
                    })
                    &&& final(self).config == old(self).config
                    &&& final(self).shares == old(self).shares
                    &&& final(self).next_loan_id == old(self).next_loan_id
                    &&& final(self).whitelist == old(self).whitelist
                },
                Err(e) => {
                    &&& old(self).repay_error(
                        borrower,
                        repayment_transfer_ok,
                        collateral_transfer_ok,
                    ) == Some(e)
                    &&& *final(self) == *old(self)
                },
            },
    {
        if self.config.is_none() {
            return Err(LendingError::NotInitialized);
        }
        let loan = match self.loans.get(&borrower) {
            Some(l) => l,
            None => {
                return Err(LendingError::NoOpenLoan);
            },
        };
        let elapsed = now.saturating_sub(loan.borrow_time);
        let interest = Self::calculate_interest(loan.principal, loan.interest_rate_bps, elapsed);
        let total_repayment: u64 = loan.principal + interest;
        if !repayment_transfer_ok {
            return Err(LendingError::TransferFailed);
        }
        if !collateral_transfer_ok {
            return Err(LendingError::TransferFailed);
        }
        proof {
            lemma_interest_split(interest);
            assert(nonnegative_on(self.loans.entries@, principal_measure()));
            lemma_measure_at_bounded(self.loans.entries@, borrower, principal_measure());
            lemma_repay_keeps_pool_wf(self.pool, loan.principal, interest);
        }
        let protocol = bps_share(interest, PROTOCOL_INTEREST_BPS);
        let reserve = bps_share(protocol, BAD_DEBT_RESERVE_BPS);
        let retained = protocol.saturating_sub(reserve);
        let for_pool: u64 = interest - protocol;
        self.pool.total_borrowed = self.pool.total_borrowed - loan.principal;
        self.pool.total_deposits = self.pool.total_deposits + for_pool;
        self.pool.retained_yield = self.pool.retained_yield + retained;
        self.pool.bad_debt_reserve = self.pool.bad_debt_reserve + reserve;
        self.loans.remove(&borrower);
        proof {
            assert forall|a: Address, b: Address|
                self.loans@.contains_key(a) && self.loans@.contains_key(b) && a != b implies (
            #[trigger] self.loans@[a]).loan_id != (#[trigger] self.loans@[b]).loan_id by {
                assert(old(self).loans@.contains_key(a));
                assert(old(self).loans@.contains_key(b));
            }
            assert forall|b: Address| #[trigger] self.loans@.contains_key(b) implies self.loans@[b].borrower
                == b && self.loans@[b].loan_id < self.next_loan_id && self.loans@[b].principal
                > 0 by {
                assert(old(self).loans@.contains_key(b));
            }
        }
        Ok(
            RepayEvent {
                loan_id: loan.loan_id,
                borrower,
                principal: loan.principal,
                interest,
                total_amount: total_repayment,
                collateral_returned: loan.collateral_amount,
            },
        )
    }

    /// What `borrower` has to pay at `now` to repay its loan: principal and
    /// interest.
    ///
    /// The sum must be a `u64`.
    pub fn get_repayment_amount(&self, borrower: Address, now: u64) -> (r: Result<
        u64,
        LendingError,
    >)
        requires
            self.wf(),
            self.loans@.contains_key(borrower) ==> self.loans@[borrower].principal
                + Self::interest_due(self.loans@[borrower], now) <= u64::MAX,
        ensures
            match r {
                Ok(total) => self.loans@.contains_key(borrower) && total
                    == self.loans@[borrower].principal + Self::interest_due(
                    self.loans@[borrower],
                    now,
                ),
                Err(e) => !self.loans@.contains_key(borrower) && e == LendingError::NoOpenLoan,
            },
    {
        match self.loans.get(&borrower) {
            Some(loan) => {
                let elapsed = now.saturating_sub(loan.borrow_time);
                let interest = Self::calculate_interest(
                    loan.principal,
                    loan.interest_rate_bps,
                    elapsed,
                );
                Ok(loan.principal + interest)
            },
            None => Err(LendingError::NoOpenLoan),
        }
    }

    /// The open loan of `borrower`, if it has one.
    pub fn get_loan(&self, borrower: Address) -> (r: Option<LoanRecord>)
        requires
            self.wf(),
        ensures
            r == (if self.loans@.contains_key(borrower) {
                Some(self.loans@[borrower])
            } else {
                None
            }),
    {
        self.loans.get(&borrower)
    }

    /// The open loan with the number `loan_id`, if there is one.
    pub fn get_loan_by_id(&self, loan_id: u64) -> (r: Option<LoanRecord>)
        requires
            self.wf(),
        ensures
            match r {
                Some(loan) => loan.loan_id == loan_id && self.loans@.contains_key(loan.borrower)
                    && self.loans@[loan.borrower] == loan,
                None => forall|b: Address| #[trigger]
                    self.loans@.contains_key(b) ==> self.loans@[b].loan_id != loan_id,
            },
    {
        let mut i: usize = 0;
        while i < self.loans.entries.len()
            invariant
                i <= self.loans.entries@.len(),
                self.wf(),
                forall|j: int| 0 <= j < i ==> (#[trigger] self.loans.entries@[j]).1.loan_id != loan_id,
            decreases self.loans.entries@.len() - i,
        {
            let loan = self.loans.entries[i].1;
            if loan.loan_id == loan_id {
                proof {
                    lemma_entry_in_map(self.loans.entries@, i as int);
                }
                return Some(loan);
            }
            i += 1;
        }
        proof {
            assert forall|b: Address| #[trigger] self.loans@.contains_key(b) implies self.loans@[b].loan_id
                != loan_id by {
                let j = index_of(self.loans.entries@, b);
                assert(self.loans.entries@[j].1.loan_id != loan_id);
            }
        }
        None
    }

    /// The rate at the pool's present utilisation.
    pub fn get_current_interest_rate(&self) -> (r: Result<u32, LendingError>)
        ensures
            match r {
                Ok(rate) => self.config is Some && rate == spec_dynamic_rate(
                    self.pool.base_rate_bps,
                    self.pool.multiplier_bps,
                    spec_utilization_bps(self.pool.total_borrowed, self.pool.total_deposits) as u32,
                ),
                Err(e) => self.config is None && e == LendingError::NotInitialized,
            },
    {
        if self.config.is_none() {
            return Err(LendingError::NotInitialized);
        }
        let utilization = Self::get_utilization_bps(
            self.pool.total_borrowed,
            self.pool.total_deposits,
        );
        Ok(
            Self::calculate_dynamic_rate(
                self.pool.base_rate_bps,
                self.pool.multiplier_bps,
                utilization,
            ),
        )
    }
}

} // verus!
