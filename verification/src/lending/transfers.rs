//! The token transfers that the pool's operations ask of the host.
//!
//! An operation is told whether the token contracts carried out its
//! transfers; which transfers those are is stated here.

use vstd::prelude::*;
use crate::address::{Address, Party, Transfer};
use crate::lending::contract::LendingContract;
use crate::lending::pool::lemma_interest_split;
use crate::lending::pool_math::{spec_assets_for_shares, BAD_DEBT_RESERVE_BPS, PROTOCOL_INTEREST_BPS};
use crate::math::bps_share;

verus! {

impl LendingContract {
    /// The transfer of a deposit: `amount` of the pool's token from the
    /// depositor to the pool. There is none before the pool is initialised.
    pub fn deposit_transfer(&self, depositor: Address, amount: u64) -> (transfer: Option<Transfer>)
        ensures
            transfer == (match self.config {
                Some(config) => Some(
                    Transfer {
                        token: config.token,
                        from: Party::Holder(depositor),
                        to: Party::Contract,
                        amount: amount as i128,
                    },
                ),
                None => None,
            }),
    {
        match self.config {
            Some(config) => Some(
                Transfer {
                    token: config.token,
                    from: Party::Holder(depositor),
                    to: Party::Contract,
                    amount: amount as i128,
                },
            ),
            None => None,
        }
    }

    /// The transfer of a withdrawal: what `shares` redeem, of the pool's
    /// token, from the pool to the depositor.
    pub fn withdraw_transfer(&self, depositor: Address, shares: u64) -> (transfer: Option<Transfer>)
        ensures
            transfer == (match self.config {
                Some(config) => Some(
                    Transfer {
                        token: config.token,
                        from: Party::Contract,
                        to: Party::Holder(depositor),
                        amount: spec_assets_for_shares(self.pool, shares) as i128,
                    },
                ),
                None => None,
            }),
    {
        match self.config {
            Some(config) => Some(
                Transfer {
                    token: config.token,
                    from: Party::Contract,
                    to: Party::Holder(depositor),
                    amount: Self::assets_for_shares(&self.pool, shares) as i128,
                },
            ),
            None => None,
        }
    }

    /// The transfers of a loan, in this order: the collateral from the
    /// borrower to the pool, and the amount of the pool's token from the
    /// pool to the borrower.
    pub fn borrow_transfers(
        &self,
        borrower: Address,
        amount: u64,
        collateral_token: Address,
        collateral_amount: u64,
    ) -> (transfers: Option<(Transfer, Transfer)>)
        ensures
            transfers == (match self.config {
                Some(config) => Some(
                    (
                        Transfer {
                            token: collateral_token,
                            from: Party::Holder(borrower),
                            to: Party::Contract,
                            amount: collateral_amount as i128,
                        },
                        Transfer {
                            token: config.token,
                            from: Party::Contract,
                            to: Party::Holder(borrower),
                            amount: amount as i128,
                        },
                    ),
                ),
                None => None,
            }),
    {
        match self.config {
            Some(config) => Some(
                (
                    Transfer {
                        token: collateral_token,
                        from: Party::Holder(borrower),
                        to: Party::Contract,
                        amount: collateral_amount as i128,
                    },
                    Transfer {
                        token: config.token,
                        from: Party::Contract,
                        to: Party::Holder(borrower),
                        amount: amount as i128,
                    },
                ),
            ),
            None => None,
        }
    }

    /// Whether the repayment of `borrower`'s loan at `now`, if it has one,
    /// stays within 64 bits.
    pub fn check_repay_fits(&self, borrower: Address, now: u64) -> (ok: bool)
        requires
            self.wf(),
        ensures
            ok == (self.loans@.contains_key(borrower) ==> self.repay_fits(borrower, now)),
    {
        match self.loans.get(&borrower) {
            None => true,
            Some(loan) => {
                let elapsed = now.saturating_sub(loan.borrow_time);
                let interest = Self::calculate_interest(
                    loan.principal,
                    loan.interest_rate_bps,
                    elapsed,
                );
                proof {
                    lemma_interest_split(interest);
                }
                let protocol = bps_share(interest, PROTOCOL_INTEREST_BPS);
                let reserve = bps_share(protocol, BAD_DEBT_RESERVE_BPS);
                let retained: u64 = protocol - reserve;
                let for_pool: u64 = interest - protocol;
                loan.principal.checked_add(interest).is_some()
                    && self.pool.total_deposits.checked_add(for_pool).is_some()
                    && self.pool.retained_yield.checked_add(retained).is_some()
                    && self.pool.bad_debt_reserve.checked_add(reserve).is_some()
            },
        }
    }

    /// The transfers of a repayment at `now`, in this order: principal and
    /// interest, of the pool's token, from the borrower to the pool, and the
    /// loan's collateral from the pool to the borrower. There are none
    /// before the pool is initialised and for a borrower without a loan.
    ///
    /// The sum repaid must be a `u64`.
    pub fn repay_transfers(&self, borrower: Address, now: u64) -> (transfers: Option<
        (Transfer, Transfer),
    >)
        requires
            self.wf(),
            self.loans@.contains_key(borrower) ==> self.loans@[borrower].principal
                + Self::interest_due(self.loans@[borrower], now) <= u64::MAX,
        ensures
            transfers == (if self.config is Some && self.loans@.contains_key(borrower) {
                let loan = self.loans@[borrower];
                Some(
                    (
                        Transfer {
                            token: self.config.unwrap().token,
                            from: Party::Holder(borrower),
                            to: Party::Contract,
                            amount: (loan.principal + Self::interest_due(loan, now)) as i128,
                        },
                        Transfer {
                            token: loan.collateral_token,
                            from: Party::Contract,
                            to: Party::Holder(borrower),
                            amount: loan.collateral_amount as i128,
                        },
                    ),
                )
            } else {
                None
            }),
    {
        let config = match self.config {
            Some(config) => config,
            None => {
                return None;
            },
        };
        let loan = match self.loans.get(&borrower) {
            Some(loan) => loan,
            None => {
                return None;
            },
        };
        let elapsed = now.saturating_sub(loan.borrow_time);
        let interest = Self::calculate_interest(loan.principal, loan.interest_rate_bps, elapsed);
        let total: u64 = loan.principal + interest;
        Some(
            (
                Transfer {
                    token: config.token,
                    from: Party::Holder(borrower),
                    to: Party::Contract,
                    amount: total as i128,
                },
                Transfer {
                    token: loan.collateral_token,
                    from: Party::Contract,
                    to: Party::Holder(borrower),
                    amount: loan.collateral_amount as i128,
                },
            ),
        )
    }

    /// The transfer of a priority withdrawal: `amount` of the pool's token
    /// from the pool to the caller.
    pub fn priority_transfer(&self, caller: Address, amount: u64) -> (transfer: Option<Transfer>)
        ensures
            transfer == (match self.config {
                Some(config) => Some(
                    Transfer {
                        token: config.token,
                        from: Party::Contract,
                        to: Party::Holder(caller),
                        amount: amount as i128,
                    },
                ),
                None => None,
            }),
    {
        match self.config {
            Some(config) => Some(
                Transfer {
                    token: config.token,
                    from: Party::Contract,
                    to: Party::Holder(caller),
                    amount: amount as i128,
                },
            ),
            None => None,
        }
    }
}

} // verus!
