//! The state of the borrowing vault and its operations.

use vstd::prelude::*;
use crate::address::{Address, Party, Transfer};
use crate::math::saturate_u32;
use crate::store::Store;
use crate::borrowing::types::{BorrowingConfig, BorrowingError, Loan};

verus! {

/// The collateral ratio in force before the vault is initialised, in basis
/// points.
pub const DEFAULT_COLLATERAL_RATIO_BPS: u32 = 15000;

/// The liquidation threshold in force before the vault is initialised, in
/// basis points.
pub const DEFAULT_LIQUIDATION_THRESHOLD_BPS: u32 = 12000;

/// The liquidation bonus in force before the vault is initialised, in basis
/// points.
pub const DEFAULT_LIQUIDATION_BONUS_BPS: u32 = 500;

/// The health factor of a loan without debt, in basis points.
pub const DEBT_FREE_HEALTH_FACTOR: u32 = 10000;

/// The share of `amount` that `bps` basis points stand for, rounded down:
/// zero for a negative amount, and where the product leaves 128 bits or the
/// share is no `i128`.
pub open spec fn signed_bps_of(amount: i128, bps: u32) -> int {
    if amount < 0 || amount * bps > u128::MAX || amount * bps / 10000 > i128::MAX {
        0
    } else {
        amount * bps / 10000
    }
}

/// The health factor of a loan: its collateral in basis points of its debt,
/// cut off at the largest `u32`. A loan without debt has the factor 10000; a
/// negative collateral or debt, or a product that leaves 128 bits, gives
/// zero.
pub open spec fn spec_health_factor(collateral: i128, debt: i128) -> int {
    if debt == 0 {
        10000
    } else if collateral < 0 || debt < 0 || collateral * 10000 > u128::MAX {
        0
    } else {
        saturate_u32(collateral * 10000 / (debt as int))
    }
}

/// Computes the share of `amount` that `bps` basis points stand for.
pub fn signed_bps_share(amount: i128, bps: u32) -> (r: i128)
    ensures
        r == signed_bps_of(amount, bps),
{
    if amount < 0 {
        return 0;
    }
    match (amount as u128).checked_mul(bps as u128) {
        Some(product) => {
            let quotient: u128 = product / 10000;
            if quotient > i128::MAX as u128 {
                0
            } else {
                quotient as i128
            }
        },
        None => 0,
    }
}

/// Computes the health factor of a loan.
pub fn health_factor(collateral: i128, debt: i128) -> (r: u32)
    ensures
        r == spec_health_factor(collateral, debt),
{
    if debt == 0 {
        return DEBT_FREE_HEALTH_FACTOR;
    }
    if collateral < 0 || debt < 0 {
        return 0;
    }
    match (collateral as u128).checked_mul(10000) {
        Some(product) => {
            let quotient: u128 = product / (debt as u128);
            if quotient > u32::MAX as u128 {
                u32::MAX
            } else {
                quotient as u32
            }
        },
        None => 0,
    }
}

/// Everything the borrowing vault keeps.
///
/// Loans are numbered from one in the order of their creation and are never
/// removed: loan `n` stands at position `n - 1`.
#[derive(Clone, Debug, PartialEq, Eq)]
pub struct BorrowingContract {
    /// What the vault was initialised with, once it was.
    pub config: Option<BorrowingConfig>,
    /// The tokens accepted as collateral.
    pub whitelist: Store<Address, bool>,
    /// Whether all lending is paused.
    pub global_pause: bool,
    /// Whether lending against a collateral token is paused, by token.
    pub vault_pause: Store<Address, bool>,
    pub loans: Vec<Loan>,
}

impl BorrowingContract {
    /// The state is well formed: the stores hold each key once.
    pub open spec fn wf(&self) -> bool {
        &&& self.whitelist.wf()
        &&& self.vault_pause.wf()
    }

    /// Whether a loan with the number `loan_id` exists.
    pub open spec fn has_loan(&self, loan_id: u64) -> bool {
        1 <= loan_id <= self.loans@.len()
    }

    /// The loan with the number `loan_id`.
    pub open spec fn loan_at(&self, loan_id: u64) -> Loan {
        self.loans@[loan_id - 1]
    }

    /// Whether the loans other than `loan_id` are the same in `self` and in
    /// `before`, and as many.
    pub open spec fn other_loans_kept(&self, before: &Self, loan_id: u64) -> bool {
        &&& self.loans@.len() == before.loans@.len()
        &&& forall|i: int|
            0 <= i < self.loans@.len() && i != loan_id - 1 ==> self.loans@[i] == before.loans@[i]
    }

    /// Whether everything but the loans is the same in `self` and in
    /// `before`.
    pub open spec fn settings_kept(&self, before: &Self) -> bool {
        &&& self.config == before.config
        &&& self.whitelist == before.whitelist
        &&& self.global_pause == before.global_pause
        &&& self.vault_pause == before.vault_pause
    }

    /// The collateral ratio in force, in basis points.
    pub open spec fn collateral_ratio(&self) -> u32 {
        match self.config {
            Some(config) => config.collateral_ratio_bps,
            None => DEFAULT_COLLATERAL_RATIO_BPS,
        }
    }

    /// The liquidation threshold in force, in basis points.
    pub open spec fn liquidation_threshold(&self) -> u32 {
        match self.config {
            Some(config) => config.liquidation_threshold_bps,
            None => DEFAULT_LIQUIDATION_THRESHOLD_BPS,
        }
    }

    /// The liquidation bonus in force, in basis points.
    pub open spec fn liquidation_bonus(&self) -> u32 {
        match self.config {
            Some(config) => config.liquidation_bonus_bps,
            None => DEFAULT_LIQUIDATION_BONUS_BPS,
        }
    }

    /// Whether `token` is accepted as collateral.
    pub open spec fn whitelisted(&self, token: Address) -> bool {
        self.whitelist@.contains_key(token) && self.whitelist@[token]
    }

    /// Whether lending against `token` is paused.
    pub open spec fn vault_paused(&self, token: Address) -> bool {
        self.vault_pause@.contains_key(token) && self.vault_pause@[token]
    }

    /// Why a loan is not made, if it is not. The checks come in this order:
    /// the collateral token must be accepted; lending must not be paused, in
    /// all or for that token; and the collateral must cover the principal at
    /// the collateral ratio.
    pub open spec fn create_loan_error(
        &self,
        principal: i128,
        collateral_token: Address,
        collateral_amount: i128,
    ) -> Option<BorrowingError> {
        if !self.whitelisted(collateral_token) {
            Some(BorrowingError::CollateralNotWhitelisted)
        } else if self.global_pause || self.vault_paused(collateral_token) {
            Some(BorrowingError::Paused)
        } else if collateral_amount < signed_bps_of(principal, self.collateral_ratio()) {
            Some(BorrowingError::InsufficientCollateral)
        } else {
            None
        }
    }

    /// What a liquidator gets for liquidating `amount`: the amount and the
    /// bonus on it.
    pub open spec fn liquidator_reward(&self, amount: i128) -> int {
        amount + signed_bps_of(amount, self.liquidation_bonus())
    }

    /// Why a liquidation is refused, if it is. The checks come in this
    /// order: the loan must exist and be active; the amount must be above
    /// zero and no more than the debt; the health factor must be below the
    /// liquidation threshold; and the collateral must cover the liquidator's
    /// reward.
    pub open spec fn liquidate_error(&self, loan_id: u64, liquidate_amount: i128) -> Option<
        BorrowingError,
    > {
        if !self.has_loan(loan_id) {
            Some(BorrowingError::LoanNotFound)
        } else {
            let loan = self.loan_at(loan_id);
            let debt = loan.principal - loan.amount_repaid;
            if !loan.is_active {
                Some(BorrowingError::LoanNotActive)
            } else if liquidate_amount <= 0 || liquidate_amount > debt {
                Some(BorrowingError::InvalidAmount)
            } else if spec_health_factor(loan.collateral_amount, debt as i128)
                >= self.liquidation_threshold() {
                Some(BorrowingError::LoanHealthy)
            } else if self.liquidator_reward(liquidate_amount) > loan.collateral_amount {
                Some(BorrowingError::InvalidAmount)
            } else {
                None
            }
        }
    }

    /// Whether the debt of the loan `loan_id`, if it exists, is an `i128`.
    pub open spec fn debt_fits(&self, loan_id: u64) -> bool {
        self.has_loan(loan_id) ==> i128::MIN <= self.loan_at(loan_id).principal - self.loan_at(
            loan_id,
        ).amount_repaid <= i128::MAX
    }

    /// Whether the debt of the loan `loan_id`, if it exists and is active, is
    /// an `i128`.
    pub open spec fn active_debt_fits(&self, loan_id: u64) -> bool {
        self.has_loan(loan_id) && self.loan_at(loan_id).is_active ==> self.debt_fits(loan_id)
    }

    /// Why `caller` may not change the vault's settings, if it may not.
    pub open spec fn admin_error(&self, caller: Address) -> Option<BorrowingError> {
        if self.config.unwrap().admin != caller {
            Some(BorrowingError::Unauthorized)
        } else {
            None
        }
    }

    /// A vault that is not initialised and holds nothing.
    pub fn new() -> (c: Self)
        ensures
            c.wf(),
            c.config is None,
            !c.global_pause,
            c.loans@.len() == 0,
            c.whitelist@ == Map::<Address, bool>::empty(),
            c.vault_pause@ == Map::<Address, bool>::empty(),
    {
        BorrowingContract {
            config: None,
            whitelist: Store::new(),
            global_pause: false,
            vault_pause: Store::new(),
            loans: Vec::new(),
        }
    }

    /// Whether the state is well formed. A state that was put together
    /// outside this module, from storage say, is checked so before it is
    /// operated on.
    pub fn is_well_formed(&self) -> (ok: bool)
        ensures
            ok == self.wf(),
    {
        self.whitelist.check_wf() && self.vault_pause.check_wf()
    }

    /// Initialises the vault: names the administrator and sets the three
    /// ratios. It can be done once.
    pub fn initialize(
        &mut self,
        admin: Address,
        collateral_ratio_bps: u32,
        liquidation_threshold_bps: u32,
        liquidation_bonus_bps: u32,
    ) -> (r: Result<(), BorrowingError>)
        ensures
            final(self).whitelist == old(self).whitelist,
            final(self).global_pause == old(self).global_pause,
            final(self).vault_pause == old(self).vault_pause,
            final(self).loans == old(self).loans,
            match r {
                Ok(_) => old(self).config is None && final(self).config == Some(
                    BorrowingConfig {
                        admin,
                        collateral_ratio_bps,
                        liquidation_threshold_bps,
                        liquidation_bonus_bps,
                    },
                ),
                Err(e) => e == BorrowingError::AlreadyInitialized && old(self).config is Some
                    && final(self).config == old(self).config,
            },
    {
        if self.config.is_some() {
            return Err(BorrowingError::AlreadyInitialized);
        }
        self.config = Some(
            BorrowingConfig {
                admin,
                collateral_ratio_bps,
                liquidation_threshold_bps,
                liquidation_bonus_bps,
            },
        );
        Ok(())
    }

    /// Where the loan `loan_id` stands, if it exists.
    pub fn loan_index(&self, loan_id: u64) -> (r: Option<usize>)
        ensures
            match r {
                Some(i) => self.has_loan(loan_id) && i == loan_id - 1,
                None => !self.has_loan(loan_id),
            },
    {
        if loan_id == 0 {
            return None;
        }
        let index: u64 = loan_id - 1;
        if index < self.loans.len() as u64 {
            Some(index as usize)
        } else {
            None
        }
    }

    /// The transfer that a new loan asks of the host: the collateral from
    /// the borrower to the vault.
    pub fn collateral_transfer(
        borrower: Address,
        collateral_token: Address,
        collateral_amount: i128,
    ) -> (transfer: Transfer)
        ensures
            transfer == (Transfer {
                token: collateral_token,
                from: Party::Holder(borrower),
                to: Party::Contract,
                amount: collateral_amount,
            }),
    {
        Transfer {
            token: collateral_token,
            from: Party::Holder(borrower),
            to: Party::Contract,
            amount: collateral_amount,
        }
    }

    /// Where the loan `loan_id`, which exists, stands.
    fn existing_loan_index(&self, loan_id: u64) -> (i: usize)
        requires
            self.has_loan(loan_id),
        ensures
            i == loan_id - 1,
            i < self.loans@.len(),
    {
        let count = self.loans.len();
        assert(loan_id - 1 < count);
        (loan_id - 1) as usize
    }

    /// Makes a loan of `principal` to `borrower` against
    /// `collateral_amount` of `collateral_token`, and returns its number.
    /// The host then carries out the transfer that `collateral_transfer`
    /// names. Where
    /// the call is refused nothing changes.
    ///
    /// The loan's number must be a `u64`.
    pub fn create_loan(
        &mut self,
        borrower: Address,
        principal: i128,
        interest_rate: u32,
        due_date: u64,
        collateral_token: Address,
        collateral_amount: i128,
    ) -> (r: Result<u64, BorrowingError>)
        requires
            old(self).wf(),
            old(self).loans@.len() < u64::MAX,
        ensures
            final(self).wf(),
            final(self).settings_kept(old(self)),
            match r {
                Ok(loan_id) => {
                    &&& old(self).create_loan_error(principal, collateral_token, collateral_amount)
                        is None
                    &&& loan_id == old(self).loans@.len() + 1
                    &&& final(self).loans@ == old(self).loans@.push(
                        Loan {
                            borrower,
                            principal,
                            interest_rate,
                            due_date,
                            amount_repaid: 0,
                            collateral_amount,
                            collateral_token,
                            is_active: true,
                        },
                    )
                },
                Err(e) => {
                    &&& old(self).create_loan_error(principal, collateral_token, collateral_amount)
                        == Some(e)
                    &&& final(self).loans == old(self).loans
                },
            },
    {
        if !self.is_whitelisted(collateral_token) {
            return Err(BorrowingError::CollateralNotWhitelisted);
        }
        if self.is_global_paused() || self.is_vault_paused(collateral_token) {
            return Err(BorrowingError::Paused);
        }
        let required = signed_bps_share(principal, self.get_collateral_ratio());
        if collateral_amount < required {
            return Err(BorrowingError::InsufficientCollateral);
        }
        let loan_id: u64 = self.loans.len() as u64 + 1;
        self.loans.push(
            Loan {
                borrower,
                principal,
                interest_rate,
                due_date,
                amount_repaid: 0,
                collateral_amount,
                collateral_token,
                is_active: true,
            },
        );
        Ok(loan_id)
    }

    /// Adds `amount` to what was repaid of the loan `loan_id`. Once the
    /// principal is covered the loan is closed, and the transfer that gives
    /// the loan's collateral back to the borrower is handed to the host.
    ///
    /// The loan must exist, and what was repaid must remain an `i128`.
    pub fn repay_loan(&mut self, loan_id: u64, amount: i128) -> (released: Option<Transfer>)
        requires
            old(self).has_loan(loan_id),
            i128::MIN <= old(self).loan_at(loan_id).amount_repaid + amount <= i128::MAX,
        ensures
            final(self).settings_kept(old(self)),
            final(self).other_loans_kept(old(self), loan_id),
            ({
                let loan = old(self).loan_at(loan_id);
                let repaid = (loan.amount_repaid + amount) as i128;
                if repaid >= loan.principal {
                    &&& final(self).loan_at(loan_id) == (Loan {
                        amount_repaid: repaid,
                        is_active: false,
                        ..loan
                    })
                    &&& released == Some(
                        Transfer {
                            token: loan.collateral_token,
                            from: Party::Contract,
                            to: Party::Holder(loan.borrower),
                            amount: loan.collateral_amount,
                        },
                    )
                } else {
                    &&& final(self).loan_at(loan_id) == (Loan { amount_repaid: repaid, ..loan })
                    &&& released is None
                }
            }),
    {
        let index = self.existing_loan_index(loan_id);
        let repaid: i128 = self.loans[index].amount_repaid + amount;
        self.loans[index].amount_repaid = repaid;
        if repaid >= self.loans[index].principal {
            self.loans[index].is_active = false;
            Some(
                Transfer {
                    token: self.loans[index].collateral_token,
                    from: Party::Contract,
                    to: Party::Holder(self.loans[index].borrower),
                    amount: self.loans[index].collateral_amount,
                },
            )
        } else {
            None
        }
    }

    /// The loan with the number `loan_id`, which must exist.
    pub fn get_loan(&self, loan_id: u64) -> (loan: Loan)
        requires
            self.has_loan(loan_id),
        ensures
            loan == self.loan_at(loan_id),
    {
        self.loans[self.existing_loan_index(loan_id)]
    }

    /// Checks that `caller` is the administrator of the initialised vault.
    fn require_admin(&self, caller: &Address) -> (r: Result<(), BorrowingError>)
        requires
            self.config is Some,
        ensures
            r == (match self.admin_error(*caller) {
                Some(e) => Err::<(), BorrowingError>(e),
                None => Ok(()),
            }),
    {
        if self.config.unwrap().admin != *caller {
            Err(BorrowingError::Unauthorized)
        } else {
            Ok(())
        }
    }

    /// Accepts `token` as collateral. The vault must be initialised.
    pub fn whitelist_collateral(&mut self, admin: Address, token: Address) -> (r: Result<
        (),
        BorrowingError,
    >)
        requires
            old(self).wf(),
            old(self).config is Some,
        ensures
            final(self).wf(),
            final(self).config == old(self).config,
            final(self).global_pause == old(self).global_pause,
            final(self).vault_pause == old(self).vault_pause,
            final(self).loans == old(self).loans,
            match r {
                Ok(_) => old(self).admin_error(admin) is None && final(self).whitelist@ == old(
                    self,
                ).whitelist@.insert(token, true),
                Err(e) => old(self).admin_error(admin) == Some(e) && final(self).whitelist == old(
                    self,
                ).whitelist,
            },
    {
        match self.require_admin(&admin) {
            Err(e) => {
                return Err(e);
            },
            Ok(_) => {},
        }
        self.whitelist.set(token, true);
        Ok(())
    }

    /// Whether `token` is accepted as collateral.
    pub fn is_whitelisted(&self, token: Address) -> (r: bool)
        requires
            self.wf(),
        ensures
            r == self.whitelisted(token),
    {
        match self.whitelist.get(&token) {
            Some(flag) => flag,
            None => false,
        }
    }

    /// Pauses all lending, or resumes it. The vault must be initialised.
    pub fn set_global_pause(&mut self, admin: Address, paused: bool) -> (r: Result<
        (),
        BorrowingError,
    >)
        requires
            old(self).config is Some,
        ensures
            final(self).config == old(self).config,
            final(self).whitelist == old(self).whitelist,
            final(self).vault_pause == old(self).vault_pause,
            final(self).loans == old(self).loans,
            match r {
                Ok(_) => old(self).admin_error(admin) is None && final(self).global_pause
                    == paused,
                Err(e) => old(self).admin_error(admin) == Some(e) && final(self).global_pause
                    == old(self).global_pause,
            },
    {
        match self.require_admin(&admin) {
            Err(e) => {
                return Err(e);
            },
            Ok(_) => {},
        }
        self.global_pause = paused;
        Ok(())
    }

    /// Whether all lending is paused.
    pub fn is_global_paused(&self) -> (r: bool)
        ensures
            r == self.global_pause,
    {
        self.global_pause
    }

    /// Pauses lending against `token`, or resumes it. The vault must be
    /// initialised.
    pub fn set_vault_pause(&mut self, admin: Address, token: Address, paused: bool) -> (r: Result<
        (),
        BorrowingError,
    >)
        requires
            old(self).wf(),
            old(self).config is Some,
        ensures
            final(self).wf(),
            final(self).config == old(self).config,
            final(self).whitelist == old(self).whitelist,
            final(self).global_pause == old(self).global_pause,
            final(self).loans == old(self).loans,
            match r {
                Ok(_) => old(self).admin_error(admin) is None && final(self).vault_pause@ == old(
                    self,
                ).vault_pause@.insert(token, paused),
                Err(e) => old(self).admin_error(admin) == Some(e) && final(self).vault_pause
                    == old(self).vault_pause,
            },
    {
        match self.require_admin(&admin) {
            Err(e) => {
                return Err(e);
            },
            Ok(_) => {},
        }
        self.vault_pause.set(token, paused);
        Ok(())
    }

    /// Whether lending against `token` is paused.
    pub fn is_vault_paused(&self, token: Address) -> (r: bool)
        requires
            self.wf(),
        ensures
            r == self.vault_paused(token),
    {
        match self.vault_pause.get(&token) {
            Some(flag) => flag,
            None => false,
        }
    }

    /// The collateral ratio in force, in basis points.
    pub fn get_collateral_ratio(&self) -> (r: u32)
        ensures
            r == self.collateral_ratio(),
    {
        match self.config {
            Some(config) => config.collateral_ratio_bps,
            None => DEFAULT_COLLATERAL_RATIO_BPS,
        }
    }

    /// The liquidation threshold in force, in basis points.
    pub fn get_liquidation_threshold(&self) -> (r: u32)
        ensures
            r == self.liquidation_threshold(),
    {
        match self.config {
            Some(config) => config.liquidation_threshold_bps,
            None => DEFAULT_LIQUIDATION_THRESHOLD_BPS,
        }
    }

    /// The liquidation bonus in force, in basis points.
    pub fn get_liquidation_bonus(&self) -> (r: u32)
        ensures
            r == self.liquidation_bonus(),
    {
        match self.config {
            Some(config) => config.liquidation_bonus_bps,
            None => DEFAULT_LIQUIDATION_BONUS_BPS,
        }
    }

    /// Liquidates `liquidate_amount` of the debt of an unhealthy loan and
    /// hands the host the transfer of the liquidator's reward out of the
    /// loan's collateral: the amount and the bonus on it. The loan is closed once its principal is
    /// covered. Where the call is refused nothing changes.
    ///
    /// The debt of an active loan must be an `i128`.
    pub fn liquidate(&mut self, liquidator: Address, loan_id: u64, liquidate_amount: i128) -> (r:
        Result<Transfer, BorrowingError>)
        requires
            old(self).active_debt_fits(loan_id),
        ensures
            final(self).settings_kept(old(self)),
            match r {
                Ok(released) => {
                    let loan = old(self).loan_at(loan_id);
                    let repaid = (loan.amount_repaid + liquidate_amount) as i128;
                    let reward = old(self).liquidator_reward(liquidate_amount);
                    &&& old(self).liquidate_error(loan_id, liquidate_amount) is None
                    &&& released == (Transfer {
                        token: loan.collateral_token,
                        from: Party::Contract,
                        to: Party::Holder(liquidator),
                        amount: reward as i128,
                    })
                    &&& final(self).other_loans_kept(old(self), loan_id)
                    &&& final(self).loan_at(loan_id) == (Loan {
                        collateral_amount: (loan.collateral_amount - reward) as i128,
                        amount_repaid: repaid,
                        is_active: repaid < loan.principal,
                        ..loan
                    })
                },
                Err(e) => {
                    &&& old(self).liquidate_error(loan_id, liquidate_amount) == Some(e)
                    &&& final(self).loans == old(self).loans
                },
            },
    {
        let index = match self.loan_index(loan_id) {
            Some(i) => i,
            None => {
                return Err(BorrowingError::LoanNotFound);
            },
        };
        let loan = self.loans[index];
        if !loan.is_active {
            return Err(BorrowingError::LoanNotActive);
        }
        let debt: i128 = loan.principal - loan.amount_repaid;
        if liquidate_amount <= 0 || liquidate_amount > debt {
            return Err(BorrowingError::InvalidAmount);
        }
        let factor = health_factor(loan.collateral_amount, debt);
        if factor >= self.get_liquidation_threshold() {
            return Err(BorrowingError::LoanHealthy);
        }
        let bonus = signed_bps_share(liquidate_amount, self.get_liquidation_bonus());
        let reward: i128 = match liquidate_amount.checked_add(bonus) {
            Some(sum) => sum,
            None => {
                return Err(BorrowingError::InvalidAmount);
            },
        };
        if reward > loan.collateral_amount {
            return Err(BorrowingError::InvalidAmount);
        }
        let repaid: i128 = loan.amount_repaid + liquidate_amount;
        self.loans[index].collateral_amount = loan.collateral_amount - reward;
        self.loans[index].amount_repaid = repaid;
        if repaid >= loan.principal {
            self.loans[index].is_active = false;
        }
        Ok(
            Transfer {
                token: loan.collateral_token,
                from: Party::Contract,
                to: Party::Holder(liquidator),
                amount: reward,
            },
        )
    }

    /// The health factor of the loan `loan_id`.
    ///
    /// The loan's debt must be an `i128`.
    pub fn get_health_factor(&self, loan_id: u64) -> (r: Result<u32, BorrowingError>)
        requires
            self.debt_fits(loan_id),
        ensures
            match r {
                Ok(factor) => self.has_loan(loan_id) && factor == spec_health_factor(
                    self.loan_at(loan_id).collateral_amount,
                    (self.loan_at(loan_id).principal - self.loan_at(loan_id).amount_repaid) as i128,
                ),
                Err(e) => !self.has_loan(loan_id) && e == BorrowingError::LoanNotFound,
            },
    {
        match self.loan_index(loan_id) {
            Some(i) => {
                let loan = self.loans[i];
                Ok(health_factor(loan.collateral_amount, loan.principal - loan.amount_repaid))
            },
            None => Err(BorrowingError::LoanNotFound),
        }
    }
}

} // verus!
