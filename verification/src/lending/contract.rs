//! The state of the lending pool, its initialisation and its settings.

use vstd::prelude::*;
use crate::address::Address;
use crate::store::{index_of, lemma_entry_in_map, total_of, Store};
use crate::lending::pool::{locked_shares, pool_wf};
use crate::lending::pool_math::MINIMUM_LIQUIDITY;
use crate::lending::types::{LendingConfig, LendingError, LoanRecord, PoolState};

verus! {

/// The collateral ratio in force before the pool is initialised, in basis
/// points.
pub const DEFAULT_COLLATERAL_RATIO_BPS: u32 = 15000;

/// How a share balance counts towards the shares outstanding.
pub open spec fn share_measure() -> spec_fn(u64) -> int {
    |shares: u64| shares as int
}

/// How a loan counts towards what is lent out.
pub open spec fn principal_measure() -> spec_fn(LoanRecord) -> int {
    |loan: LoanRecord| loan.principal as int
}

/// Everything the lending pool keeps.
#[derive(Clone, Debug, PartialEq, Eq)]
pub struct LendingContract {
    /// What the pool was initialised with, once it was.
    pub config: Option<LendingConfig>,
    pub pool: PoolState,
    /// Share balances, by depositor.
    pub shares: Store<Address, u64>,
    /// Open loans, by borrower: at most one each.
    pub loans: Store<Address, LoanRecord>,
    /// The number that the next loan gets.
    pub next_loan_id: u64,
    /// The tokens accepted as collateral.
    pub whitelist: Store<Address, bool>,
}

impl LendingContract {
    /// The state is well formed: the pool's accounting is sound; the share
    /// balances and the locked shares sum to the shares outstanding; the
    /// principals of the open loans sum to what is lent out; every loan is
    /// held under its borrower, lends something and has a number of its own
    /// below the next one; and nothing is held before the pool is
    /// initialised.
    pub open spec fn wf(&self) -> bool {
        &&& self.shares.wf()
        &&& self.loans.wf()
        &&& self.whitelist.wf()
        &&& pool_wf(self.pool)
        &&& total_of(self.shares.entries@, share_measure()) + locked_shares(self.pool)
            == self.pool.total_shares
        &&& total_of(self.loans.entries@, principal_measure()) == self.pool.total_borrowed
        &&& (self.config is None ==> self.pool.total_deposits == 0)
        &&& self.next_loan_id >= 1
        &&& forall|b: Address| #[trigger]
            self.loans@.contains_key(b) ==> self.loans@[b].borrower == b && self.loans@[b].loan_id
                < self.next_loan_id && self.loans@[b].principal > 0
        &&& forall|a: Address, b: Address|
            self.loans@.contains_key(a) && self.loans@.contains_key(b) && a != b ==> (
            #[trigger] self.loans@[a]).loan_id != (#[trigger] self.loans@[b]).loan_id
    }

    /// The collateral ratio in force, in basis points.
    pub open spec fn collateral_ratio(&self) -> u32 {
        match self.config {
            Some(config) => config.collateral_ratio_bps,
            None => DEFAULT_COLLATERAL_RATIO_BPS,
        }
    }

    /// Whether `token` is accepted as collateral.
    pub open spec fn whitelisted(&self, token: Address) -> bool {
        self.whitelist@.contains_key(token) && self.whitelist@[token]
    }

    /// Why `caller` may not act as the administrator, if it may not.
    pub open spec fn admin_error(&self, caller: Address) -> Option<LendingError> {
        match self.config {
            Some(config) => if config.admin == caller {
                None
            } else {
                Some(LendingError::NotAdmin)
            },
            None => Some(LendingError::NotAdmin),
        }
    }

    /// A pool that is not initialised and holds nothing.
    pub fn new() -> (c: Self)
        ensures
            c.wf(),
            c.config is None,
            c.next_loan_id == 1,
            c.shares@ == Map::<Address, u64>::empty(),
            c.loans@ == Map::<Address, LoanRecord>::empty(),
            c.whitelist@ == Map::<Address, bool>::empty(),
    {
        LendingContract {
            config: None,
            pool: PoolState {
                total_deposits: 0,
                total_shares: 0,
                total_borrowed: 0,
                base_rate_bps: 0,
                multiplier_bps: 0,
                utilization_cap_bps: 0,
                retained_yield: 0,
                bad_debt_reserve: 0,
            },
            shares: Store::new(),
            loans: Store::new(),
            next_loan_id: 1,
            whitelist: Store::new(),
        }
    }

    /// The sum of the share balances.
    fn total_shares_held(&self) -> (total: u128)
        ensures
            total == total_of(self.shares.entries@, share_measure()),
    {
        let mut total: u128 = 0;
        let mut i: usize = 0;
        while i < self.shares.entries.len()
            invariant
                i <= self.shares.entries@.len(),
                total == total_of(self.shares.entries@.subrange(0, i as int), share_measure()),
                total <= i * u64::MAX,
            decreases self.shares.entries@.len() - i,
        {
            assert(self.shares.entries@.subrange(0, i + 1).drop_last()
                =~= self.shares.entries@.subrange(0, i as int));
            assert(i * u64::MAX + u64::MAX <= u64::MAX * u64::MAX) by (nonlinear_arith)
                requires
                    i < u64::MAX,
            ;
            total = total + self.shares.entries[i].1 as u128;
            i += 1;
        }
        assert(self.shares.entries@.subrange(0, self.shares.entries@.len() as int)
            =~= self.shares.entries@);
        total
    }

    /// The sum of the principals of the open loans.
    fn total_principal_lent(&self) -> (total: u128)
        ensures
            total == total_of(self.loans.entries@, principal_measure()),
    {
        let mut total: u128 = 0;
        let mut i: usize = 0;
        while i < self.loans.entries.len()
            invariant
                i <= self.loans.entries@.len(),
                total == total_of(self.loans.entries@.subrange(0, i as int), principal_measure()),
                total <= i * u64::MAX,
            decreases self.loans.entries@.len() - i,
        {
            assert(self.loans.entries@.subrange(0, i + 1).drop_last()
                =~= self.loans.entries@.subrange(0, i as int));
            assert(i * u64::MAX + u64::MAX <= u64::MAX * u64::MAX) by (nonlinear_arith)
                requires
                    i < u64::MAX,
            ;
            total = total + self.loans.entries[i].1.principal as u128;
            i += 1;
        }
        assert(self.loans.entries@.subrange(0, self.loans.entries@.len() as int)
            =~= self.loans.entries@);
        total
    }

    /// Whether every loan is held under its borrower, lends something and
    /// has a number of its own below the next one.
    fn loans_consistent(&self) -> (ok: bool)
        requires
            self.loans.wf(),
        ensures
            ok == ((forall|b: Address| #[trigger]
                self.loans@.contains_key(b) ==> self.loans@[b].borrower == b
                    && self.loans@[b].loan_id < self.next_loan_id && self.loans@[b].principal > 0)
                && (forall|a: Address, b: Address|
                self.loans@.contains_key(a) && self.loans@.contains_key(b) && a != b ==> (
                #[trigger] self.loans@[a]).loan_id != (#[trigger] self.loans@[b]).loan_id)),
    {
        let ghost entries = self.loans.entries@;
        let mut i: usize = 0;
        while i < self.loans.entries.len()
            invariant
                i <= entries.len(),
                entries == self.loans.entries@,
                self.loans.wf(),
                forall|k: int|
                    0 <= k < i ==> (#[trigger] entries[k]).1.borrower == entries[k].0
                        && entries[k].1.loan_id < self.next_loan_id && entries[k].1.principal > 0,
                forall|a: int, b: int|
                    0 <= a < b < i ==> (#[trigger] entries[a]).1.loan_id != (
                    #[trigger] entries[b]).1.loan_id,
            decreases entries.len() - i,
        {
            let loan = self.loans.entries[i].1;
            proof {
                lemma_entry_in_map(entries, i as int);
            }
            if !(loan.borrower == self.loans.entries[i].0) || loan.loan_id >= self.next_loan_id
                || loan.principal == 0 {
                return false;
            }
            let mut j: usize = 0;
            while j < i
                invariant
                    j <= i < entries.len(),
                    entries == self.loans.entries@,
                    self.loans.wf(),
                    loan == entries[i as int].1,
                    forall|a: int|
                        0 <= a < j ==> (#[trigger] entries[a]).1.loan_id != loan.loan_id,
                decreases i - j,
            {
                if self.loans.entries[j].1.loan_id == loan.loan_id {
                    proof {
                        lemma_entry_in_map(entries, i as int);
                        lemma_entry_in_map(entries, j as int);
                        assert(entries[j as int].0 != entries[i as int].0);
                    }
                    return false;
                }
                j += 1;
            }
            i += 1;
        }
        proof {
            assert forall|b: Address| #[trigger] self.loans@.contains_key(b) implies self.loans@[b].borrower
                == b && self.loans@[b].loan_id < self.next_loan_id && self.loans@[b].principal
                > 0 by {
                let k = index_of(entries, b);
                lemma_entry_in_map(entries, k);
            }
            assert forall|a: Address, b: Address|
                self.loans@.contains_key(a) && self.loans@.contains_key(b) && a != b implies (
            #[trigger] self.loans@[a]).loan_id != (#[trigger] self.loans@[b]).loan_id by {
                let x = index_of(entries, a);
                let y = index_of(entries, b);
                lemma_entry_in_map(entries, x);
                lemma_entry_in_map(entries, y);
                if x < y {
                    assert(entries[x].1.loan_id != entries[y].1.loan_id);
                } else {
                    assert(entries[y].1.loan_id != entries[x].1.loan_id);
                }
            }
        }
        true
    }

    /// Whether the state is well formed. A state that was put together
    /// outside this module, from storage say, is checked so before it is
    /// operated on.
    pub fn is_well_formed(&self) -> (ok: bool)
        ensures
            ok == self.wf(),
    {
        if !self.shares.check_wf() || !self.loans.check_wf() || !self.whitelist.check_wf() {
            return false;
        }
        let pool = self.pool;
        let pool_ok = pool.total_borrowed <= pool.total_deposits && pool.total_shares
            <= pool.total_deposits && (pool.total_shares == 0) == (pool.total_deposits == 0) && (
        pool.total_shares == 0 || pool.total_shares >= MINIMUM_LIQUIDITY);
        if !pool_ok {
            return false;
        }
        let locked: u128 = if pool.total_shares == 0 {
            0
        } else {
            MINIMUM_LIQUIDITY as u128
        };
        let held = self.total_shares_held();
        if held > u64::MAX as u128 || held + locked != pool.total_shares as u128 {
            return false;
        }
        if self.total_principal_lent() != pool.total_borrowed as u128 {
            return false;
        }
        if self.config.is_none() && pool.total_deposits != 0 {
            return false;
        }
        if self.next_loan_id < 1 {
            return false;
        }
        self.loans_consistent()
    }

    /// Initialises the pool: names the administrator and the token and sets
    /// the rates, with nothing deposited. It can be done once.
    pub fn initialize(
        &mut self,
        admin: Address,
        token: Address,
        base_rate_bps: u32,
        multiplier_bps: u32,
        collateral_ratio_bps: u32,
        utilization_cap_bps: u32,
    ) -> (r: Result<(), LendingError>)
        requires
            old(self).wf(),
        ensures
            final(self).wf(),
            final(self).shares == old(self).shares,
            final(self).loans == old(self).loans,
            final(self).whitelist == old(self).whitelist,
            final(self).next_loan_id == old(self).next_loan_id,
            match r {
                Ok(_) => {
                    &&& old(self).config is None
                    &&& final(self).config == Some(
                        LendingConfig { admin, token, collateral_ratio_bps },
                    )
                    &&& final(self).pool == (PoolState {
                        total_deposits: 0,
                        total_shares: 0,
                        total_borrowed: 0,
                        base_rate_bps,
                        multiplier_bps,
                        utilization_cap_bps,
                        retained_yield: 0,
                        bad_debt_reserve: 0,
                    })
                },
                Err(e) => {
                    &&& e == LendingError::AlreadyInitialized
                    &&& old(self).config is Some
                    &&& final(self).config == old(self).config
                    &&& final(self).pool == old(self).pool
                },
            },
    {
        if self.config.is_some() {
            return Err(LendingError::AlreadyInitialized);
        }
        self.config = Some(LendingConfig { admin, token, collateral_ratio_bps });
        self.pool = PoolState {
            total_deposits: 0,
            total_shares: 0,
            total_borrowed: 0,
            base_rate_bps,
            multiplier_bps,
            utilization_cap_bps,
            retained_yield: 0,
            bad_debt_reserve: 0,
        };
        Ok(())
    }

    /// Checks that `caller` is the administrator.
    pub fn require_admin(&self, caller: &Address) -> (r: Result<(), LendingError>)
        ensures
            r == (match self.admin_error(*caller) {
                Some(e) => Err::<(), LendingError>(e),
                None => Ok(()),
            }),
    {
        match self.config {
            None => Err(LendingError::NotAdmin),
            Some(config) => {
                if config.admin != *caller {
                    Err(LendingError::NotAdmin)
                } else {
                    Ok(())
                }
            },
        }
    }

    /// The pool's accounting state.
    pub fn get_pool_state(&self) -> (r: Result<PoolState, LendingError>)
        ensures
            r == (if self.config is Some {
                Ok::<PoolState, LendingError>(self.pool)
            } else {
                Err(LendingError::NotInitialized)
            }),
    {
        if self.config.is_none() {
            return Err(LendingError::NotInitialized);
        }
        Ok(self.pool)
    }

    /// Accepts `token` as collateral.
    pub fn whitelist_collateral(&mut self, admin: Address, token: Address) -> (r: Result<
        (),
        LendingError,
    >)
        requires
            old(self).wf(),
        ensures
            final(self).wf(),
            final(self).config == old(self).config,
            final(self).pool == old(self).pool,
            final(self).shares == old(self).shares,
            final(self).loans == old(self).loans,
            final(self).next_loan_id == old(self).next_loan_id,
            match r {
                Ok(_) => old(self).admin_error(admin) is None && final(self).whitelist@ == old(
                    self,
                ).whitelist@.insert(token, true),
                Err(e) => old(self).admin_error(admin) == Some(e) && final(self).whitelist == old(
                    self,
                ).whitelist,
            },
    {
        match self.require_admin(&admin) {
            Err(e) => {
                return Err(e);
            },
            Ok(_) => {},
        }
        self.whitelist.set(token, true);
        Ok(())
    }

    /// Stops accepting `token` as collateral.
    pub fn remove_collateral(&mut self, admin: Address, token: Address) -> (r: Result<
        (),
        LendingError,
    >)
        requires
            old(self).wf(),
        ensures
            final(self).wf(),
            final(self).config == old(self).config,
            final(self).pool == old(self).pool,
            final(self).shares == old(self).shares,
            final(self).loans == old(self).loans,
            final(self).next_loan_id == old(self).next_loan_id,
            match r {
                Ok(_) => old(self).admin_error(admin) is None && final(self).whitelist@ == old(
                    self,
                ).whitelist@.remove(token),
                Err(e) => old(self).admin_error(admin) == Some(e) && final(self).whitelist == old(
                    self,
                ).whitelist,
            },
    {
        match self.require_admin(&admin) {
            Err(e) => {
                return Err(e);
            },
            Ok(_) => {},
        }
        self.whitelist.remove(&token);
        Ok(())
    }

    /// Whether `token` is accepted as collateral.
    pub fn is_whitelisted(&self, token: Address) -> (r: bool)
        requires
            self.wf(),
        ensures
            r == self.whitelisted(token),
    {
        match self.whitelist.get(&token) {
            Some(flag) => flag,
            None => false,
        }
    }

    /// The collateral ratio in force, in basis points.
    pub fn get_collateral_ratio_bps(&self) -> (r: u32)
        ensures
            r == self.collateral_ratio(),
    {
        match self.config {
            Some(config) => config.collateral_ratio_bps,
            None => DEFAULT_COLLATERAL_RATIO_BPS,
        }
    }
}

} // verus!
