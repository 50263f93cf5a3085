//! What an owner does with a plan's funds and flags.

use vstd::prelude::*;
use crate::address::{Address, Party, Transfer};
use crate::inheritance::claim::{add_id, with_id};
use crate::inheritance::contract::InheritanceContract;
use crate::inheritance::events::{
    PlanDeactivatedEvent, VaultDepositEvent, VaultLendableChangedEvent, VaultWithdrawEvent,
};
use crate::inheritance::plan::available_liquidity;
use crate::inheritance::types::{InheritanceError, InheritancePlan};

verus! {

impl InheritanceContract {
    /// Why a deposit is refused, if it is: the amount is zero, the plan does
    /// not exist, the caller does not own it, it is not active, the owner's
    /// balance does not cover the amount, or the token contract did not move
    /// it.
    pub open spec fn deposit_error(
        &self,
        owner: Address,
        plan_id: u64,
        amount: u64,
        balance: i128,
        transfer_ok: bool,
    ) -> Option<InheritanceError> {
        if amount == 0 {
            Some(InheritanceError::InvalidTotalAmount)
        } else if self.owner_error(owner, plan_id) is Some {
            self.owner_error(owner, plan_id)
        } else if !self.plan_at(plan_id).is_active {
            Some(InheritanceError::PlanNotActive)
        } else if balance < amount {
            Some(InheritanceError::InsufficientBalance)
        } else if !transfer_ok {
            Some(InheritanceError::FeeTransferFailed)
        } else {
            None
        }
    }

    /// Why a withdrawal is refused, if it is: the amount is zero, the plan
    /// does not exist, the caller does not own it, the amount exceeds what
    /// the plan holds that is not lent out, or the token contract did not
    /// move it.
    pub open spec fn withdraw_error(
        &self,
        owner: Address,
        plan_id: u64,
        amount: u64,
        transfer_ok: bool,
    ) -> Option<InheritanceError> {
        if amount == 0 {
            Some(InheritanceError::InvalidTotalAmount)
        } else if self.owner_error(owner, plan_id) is Some {
            self.owner_error(owner, plan_id)
        } else if amount > available_liquidity(self.plan_at(plan_id)) {
            Some(InheritanceError::InsufficientLiquidity)
        } else if !transfer_ok {
            Some(InheritanceError::FeeTransferFailed)
        } else {
            None
        }
    }

    /// Why a deactivation is refused, if it is: the plan does not exist, the
    /// caller does not own it, or it was deactivated before.
    pub open spec fn deactivate_error(&self, owner: Address, plan_id: u64) -> Option<
        InheritanceError,
    > {
        if self.owner_error(owner, plan_id) is Some {
            self.owner_error(owner, plan_id)
        } else if !self.plan_at(plan_id).is_active {
            Some(InheritanceError::PlanAlreadyDeactivated)
        } else {
            None
        }
    }

    /// The transfer of a deposit: `amount` of `token` from the owner to the
    /// vault.
    pub fn deposit_transfer(owner: Address, token: Address, amount: u64) -> (transfer: Transfer)
        ensures
            transfer == (Transfer {
                token,
                from: Party::Holder(owner),
                to: Party::Contract,
                amount: amount as i128,
            }),
    {
        Transfer { token, from: Party::Holder(owner), to: Party::Contract, amount: amount as i128 }
    }

    /// The transfer of a withdrawal: `amount` of `token` from the vault to
    /// the owner.
    pub fn withdraw_transfer(owner: Address, token: Address, amount: u64) -> (transfer: Transfer)
        ensures
            transfer == (Transfer {
                token,
                from: Party::Contract,
                to: Party::Holder(owner),
                amount: amount as i128,
            }),
    {
        Transfer { token, from: Party::Contract, to: Party::Holder(owner), amount: amount as i128 }
    }

    /// Says whether the plan's funds may be lent out.
    pub fn set_lendable(&mut self, owner: Address, plan_id: u64, is_lendable: bool) -> (r: Result<
        VaultLendableChangedEvent,
        InheritanceError,
    >)
        requires
            old(self).wf(),
        ensures
            final(self).wf(),
            old(self).solvent() ==> final(self).solvent(),
            match r {
                Ok(event) => {
                    &&& old(self).owner_error(owner, plan_id) is None
                    &&& final(self).registers_kept(old(self))
                    &&& final(self).other_plans_kept(old(self), plan_id)
                    &&& final(self).plan_at(plan_id) == (InheritancePlan {
                        is_lendable,
                        ..old(self).plan_at(plan_id)
                    })
                    &&& final(self).trigger_at(plan_id) == old(self).trigger_at(plan_id)
                    &&& event == (VaultLendableChangedEvent { plan_id, is_lendable })
                },
                Err(e) => {
                    &&& old(self).owner_error(owner, plan_id) == Some(e)
                    &&& *final(self) == *old(self)
                },
            },
    {
        let index = match self.owned_plan_index(&owner, plan_id) {
            Ok(i) => i,
            Err(e) => {
                return Err(e);
            },
        };
        self.plans[index].plan.is_lendable = is_lendable;
        proof {
            self.lemma_plan_changed(old(self), plan_id);
        }
        Ok(VaultLendableChangedEvent { plan_id, is_lendable })
    }

    /// Why a deposit is refused, if it is.
    pub fn check_deposit(
        &self,
        owner: Address,
        plan_id: u64,
        amount: u64,
        balance: i128,
        transfer_ok: bool,
    ) -> (r: Option<InheritanceError>)
        ensures
            r == self.deposit_error(owner, plan_id, amount, balance, transfer_ok),
    {
        if amount == 0 {
            return Some(InheritanceError::InvalidTotalAmount);
        }
        let index = match self.owned_plan_index(&owner, plan_id) {
            Ok(i) => i,
            Err(e) => {
                return Some(e);
            },
        };
        if !self.plans[index].plan.is_active {
            return Some(InheritanceError::PlanNotActive);
        }
        if balance < amount as i128 {
            return Some(InheritanceError::InsufficientBalance);
        }
        if !transfer_ok {
            return Some(InheritanceError::FeeTransferFailed);
        }
        None
    }

    /// Adds `amount` to what an active plan holds. `balance` is the owner's
    /// token balance; `transfer_ok` says whether the token contract carried
    /// out the transfer that `deposit_transfer` names. Where the call is
    /// refused nothing changes.
    ///
    /// What the plan holds must remain a `u64`.
    pub fn deposit(
        &mut self,
        owner: Address,
        plan_id: u64,
        amount: u64,
        balance: i128,
        transfer_ok: bool,
    ) -> (r: Result<VaultDepositEvent, InheritanceError>)
        requires
            old(self).wf(),
            old(self).deposit_error(owner, plan_id, amount, balance, transfer_ok) is None ==> old(
                self,
            ).plan_at(plan_id).total_amount + amount <= u64::MAX,
        ensures
            final(self).wf(),
            old(self).solvent() ==> final(self).solvent(),
            match r {
                Ok(event) => {
                    let plan = old(self).plan_at(plan_id);
                    &&& old(self).deposit_error(owner, plan_id, amount, balance, transfer_ok)
                        is None
                    &&& final(self).registers_kept(old(self))
                    &&& final(self).other_plans_kept(old(self), plan_id)
                    &&& final(self).plan_at(plan_id) == (InheritancePlan {
                        total_amount: (plan.total_amount + amount) as u64,
                        ..plan
                    })
                    &&& final(self).trigger_at(plan_id) == old(self).trigger_at(plan_id)
                    &&& event == (VaultDepositEvent { plan_id, amount })
                },
                Err(e) => {
                    &&& old(self).deposit_error(owner, plan_id, amount, balance, transfer_ok)
                        == Some(e)
                    &&& *final(self) == *old(self)
                },
            },
    {
        match self.check_deposit(owner, plan_id, amount, balance, transfer_ok) {
            Some(e) => {
                return Err(e);
            },
            None => {},
        }
        let index = self.plan_index(plan_id).unwrap();
        let total_amount = self.plans[index].plan.total_amount;
        self.plans[index].plan.total_amount = total_amount + amount;
        proof {
            self.lemma_plan_changed(old(self), plan_id);
        }
        Ok(VaultDepositEvent { plan_id, amount })
    }

    /// Takes `amount` out of what a plan holds and is not lent out.
    /// `transfer_ok` says whether the token contract carried out the
    /// transfer that `withdraw_transfer` names. Where the call is refused
    /// nothing changes.
    pub fn withdraw(&mut self, owner: Address, plan_id: u64, amount: u64, transfer_ok: bool) -> (r:
        Result<VaultWithdrawEvent, InheritanceError>)
        requires
            old(self).wf(),
        ensures
            final(self).wf(),
            old(self).solvent() ==> final(self).solvent(),
            match r {
                Ok(event) => {
                    let plan = old(self).plan_at(plan_id);
                    &&& old(self).withdraw_error(owner, plan_id, amount, transfer_ok) is None
                    &&& final(self).registers_kept(old(self))
                    &&& final(self).other_plans_kept(old(self), plan_id)
                    &&& final(self).plan_at(plan_id) == (InheritancePlan {
                        total_amount: (plan.total_amount - amount) as u64,
                        ..plan
                    })
                    &&& final(self).trigger_at(plan_id) == old(self).trigger_at(plan_id)
                    &&& event == (VaultWithdrawEvent { plan_id, amount })
                },
                Err(e) => {
                    &&& old(self).withdraw_error(owner, plan_id, amount, transfer_ok) == Some(e)
                    &&& *final(self) == *old(self)
                },
            },
    {
        if amount == 0 {
            return Err(InheritanceError::InvalidTotalAmount);
        }
        let index = match self.owned_plan_index(&owner, plan_id) {
            Ok(i) => i,
            Err(e) => {
                return Err(e);
            },
        };
        let total_amount = self.plans[index].plan.total_amount;
        let available = total_amount.saturating_sub(self.plans[index].plan.total_loaned);
        if amount > available {
            return Err(InheritanceError::InsufficientLiquidity);
        }
        if !transfer_ok {
            return Err(InheritanceError::FeeTransferFailed);
        }
        self.plans[index].plan.total_amount = total_amount - amount;
        proof {
            self.lemma_plan_changed(old(self), plan_id);
        }
        Ok(VaultWithdrawEvent { plan_id, amount })
    }

    /// Deactivates a plan at the ledger time `now`, for good, and lists it
    /// among the deactivated plans. Where the call is refused nothing
    /// changes.
    pub fn deactivate_inheritance_plan(&mut self, owner: Address, plan_id: u64, now: u64) -> (r:
        Result<PlanDeactivatedEvent, InheritanceError>)
        requires
            old(self).wf(),
        ensures
            final(self).wf(),
            old(self).solvent() ==> final(self).solvent(),
            match r {
                Ok(event) => {
                    let plan = old(self).plan_at(plan_id);
                    &&& old(self).deactivate_error(owner, plan_id) is None
                    &&& final(self).other_plans_kept(old(self), plan_id)
                    &&& final(self).plan_at(plan_id) == (InheritancePlan {
                        is_active: false,
                        ..plan
                    })
                    &&& final(self).trigger_at(plan_id) == old(self).trigger_at(plan_id)
                    &&& final(self).deactivated_plans@ == with_id(
                        old(self).deactivated_plans@,
                        plan_id,
                    )
                    &&& final(self).claimed_plans == old(self).claimed_plans
                    &&& final(self).admin == old(self).admin
                    &&& final(self).version == old(self).version
                    &&& final(self).claims == old(self).claims
                    &&& final(self).kyc == old(self).kyc
                    &&& event == (PlanDeactivatedEvent {
                        plan_id,
                        owner,
                        total_amount: plan.total_amount,
                        deactivated_at: now,
                    })
                },
                Err(e) => {
                    &&& old(self).deactivate_error(owner, plan_id) == Some(e)
                    &&& *final(self) == *old(self)
                },
            },
    {
        let index = match self.owned_plan_index(&owner, plan_id) {
            Ok(i) => i,
            Err(e) => {
                return Err(e);
            },
        };
        if !self.plans[index].plan.is_active {
            return Err(InheritanceError::PlanAlreadyDeactivated);
        }
        self.plans[index].plan.is_active = false;
        add_id(&mut self.deactivated_plans, plan_id);
        proof {
            self.lemma_plan_changed(old(self), plan_id);
        }
        Ok(
            PlanDeactivatedEvent {
                plan_id,
                owner,
                total_amount: self.plans[index].plan.total_amount,
                deactivated_at: now,
            },
        )
    }
}

} // verus!
