//! The trigger lifecycle: freezing a plan's lending when its inheritance
//! fires, recalling what is lent out, and writing off what cannot be
//! recalled.

use vstd::prelude::*;
use crate::address::Address;
use crate::inheritance::contract::InheritanceContract;
use crate::inheritance::events::{
    InheritanceTriggeredEvent, LiquidationFallbackEvent, LoanFreezeEvent, LoanRecallEvent,
};
use crate::inheritance::plan::{available_liquidity, plan_solvent, plan_wf};
use crate::inheritance::types::{InheritanceError, InheritancePlan, InheritanceTriggerInfo};

verus! {

/// The record that a trigger at `now` makes for a plan with `total_loaned`
/// lent out.
pub open spec fn fresh_trigger(now: u64, total_loaned: u64) -> InheritanceTriggerInfo {
    InheritanceTriggerInfo {
        triggered_at: now,
        loan_freeze_active: true,
        recall_attempted: false,
        liquidation_triggered: false,
        original_loaned: total_loaned,
        recalled_amount: 0,
        settled_amount: 0,
    }
}

impl InheritanceContract {
    /// Why a trigger is refused, if it is: the caller is not the
    /// administrator, the plan does not exist or is not active, or its
    /// inheritance was triggered before.
    pub open spec fn trigger_error(&self, admin: Address, plan_id: u64) -> Option<
        InheritanceError,
    > {
        if self.admin_error(admin) is Some {
            self.admin_error(admin)
        } else if !self.has_plan(plan_id) {
            Some(InheritanceError::PlanNotFound)
        } else if !self.plan_at(plan_id).is_active {
            Some(InheritanceError::PlanNotActive)
        } else if self.trigger_at(plan_id) is Some {
            Some(InheritanceError::InheritanceAlreadyTriggered)
        } else {
            None
        }
    }

    /// Why the administrator may not settle the loans of a plan, if it may
    /// not: the caller is not the administrator, the plan does not exist, its
    /// inheritance was not triggered, or nothing is lent out.
    pub open spec fn settlement_error(&self, admin: Address, plan_id: u64) -> Option<
        InheritanceError,
    > {
        if self.admin_error(admin) is Some {
            self.admin_error(admin)
        } else if !self.has_plan(plan_id) {
            Some(InheritanceError::PlanNotFound)
        } else if self.trigger_at(plan_id) is None {
            Some(InheritanceError::InheritanceNotTriggered)
        } else if self.plan_at(plan_id).total_loaned == 0 {
            Some(InheritanceError::NoOutstandingLoans)
        } else {
            None
        }
    }

    /// Why a recall is refused, if it is: the loans cannot be settled, or the
    /// amount is zero or more than is lent out.
    pub open spec fn recall_error(&self, admin: Address, plan_id: u64, recall_amount: u64)
        -> Option<InheritanceError> {
        if self.settlement_error(admin, plan_id) is Some {
            self.settlement_error(admin, plan_id)
        } else if recall_amount == 0 || recall_amount > self.plan_at(plan_id).total_loaned {
            Some(InheritanceError::LoanRecallFailed)
        } else {
            None
        }
    }

    /// Why the administrator may not settle the loans of a plan, if it may
    /// not.
    pub fn check_settlement(&self, admin: Address, plan_id: u64) -> (r: Option<InheritanceError>)
        ensures
            r == self.settlement_error(admin, plan_id),
    {
        match self.require_admin(&admin) {
            Err(e) => {
                return Some(e);
            },
            Ok(_) => {},
        }
        let index = match self.plan_index(plan_id) {
            Some(i) => i,
            None => {
                return Some(InheritanceError::PlanNotFound);
            },
        };
        if self.plans[index].trigger.is_none() {
            return Some(InheritanceError::InheritanceNotTriggered);
        }
        if self.plans[index].plan.total_loaned == 0 {
            return Some(InheritanceError::NoOutstandingLoans);
        }
        None
    }

    /// Why a recall is refused, if it is.
    pub fn check_recall(&self, admin: Address, plan_id: u64, recall_amount: u64) -> (r: Option<
        InheritanceError,
    >)
        ensures
            r == self.recall_error(admin, plan_id, recall_amount),
    {
        match self.check_settlement(admin, plan_id) {
            Some(e) => {
                return Some(e);
            },
            None => {},
        }
        let index = self.plan_index(plan_id).unwrap();
        if recall_amount == 0 || recall_amount > self.plans[index].plan.total_loaned {
            return Some(InheritanceError::LoanRecallFailed);
        }
        None
    }

    /// Triggers the inheritance of a plan at the ledger time `now`: the plan
    /// stops being lendable and a trigger record is made that notes what is
    /// lent out. Where the call is refused nothing changes.
    pub fn trigger_inheritance(&mut self, admin: Address, plan_id: u64, now: u64) -> (r: Result<
        (InheritanceTriggeredEvent, LoanFreezeEvent),
        InheritanceError,
    >)
        requires
            old(self).wf(),
        ensures
            final(self).wf(),
            old(self).solvent() ==> final(self).solvent(),
            match r {
                Ok(events) => {
                    let plan = old(self).plan_at(plan_id);
                    &&& old(self).trigger_error(admin, plan_id) is None
                    &&& final(self).registers_kept(old(self))
                    &&& final(self).other_plans_kept(old(self), plan_id)
                    &&& final(self).plan_at(plan_id) == (InheritancePlan {
                        is_lendable: false,
                        ..plan
                    })
                    &&& final(self).trigger_at(plan_id) == Some(
                        fresh_trigger(now, plan.total_loaned),
                    )
                    &&& events.0 == (InheritanceTriggeredEvent {
                        plan_id,
                        triggered_at: now,
                        outstanding_loans: plan.total_loaned,
                    })
                    &&& events.1 == (LoanFreezeEvent { plan_id, frozen_at: now })
                },
                Err(e) => {
                    &&& old(self).trigger_error(admin, plan_id) == Some(e)
                    &&& *final(self) == *old(self)
                },
            },
    {
        match self.require_admin(&admin) {
            Err(e) => {
                return Err(e);
            },
            Ok(_) => {},
        }
        let index = match self.plan_index(plan_id) {
            Some(i) => i,
            None => {
                return Err(InheritanceError::PlanNotFound);
            },
        };
        if !self.plans[index].plan.is_active {
            return Err(InheritanceError::PlanNotActive);
        }
        if self.plans[index].trigger.is_some() {
            return Err(InheritanceError::InheritanceAlreadyTriggered);
        }
        let total_loaned = self.plans[index].plan.total_loaned;
        self.plans[index].plan.is_lendable = false;
        self.plans[index].trigger = Some(
            InheritanceTriggerInfo {
                triggered_at: now,
                loan_freeze_active: true,
                recall_attempted: false,
                liquidation_triggered: false,
                original_loaned: total_loaned,
                recalled_amount: 0,
                settled_amount: 0,
            },
        );
        proof {
            self.lemma_plan_changed(old(self), plan_id);
        }
        Ok(
            (
                InheritanceTriggeredEvent {
                    plan_id,
                    triggered_at: now,
                    outstanding_loans: total_loaned,
                },
                LoanFreezeEvent { plan_id, frozen_at: now },
            ),
        )
    }

    /// Records that `recall_amount` of what a triggered plan had lent out
    /// has come back. No tokens move. Where the call is refused nothing
    /// changes.
    ///
    /// The sum of what was recalled must remain a `u64`.
    pub fn recall_loan(&mut self, admin: Address, plan_id: u64, recall_amount: u64) -> (r: Result<
        LoanRecallEvent,
        InheritanceError,
    >)
        requires
            old(self).wf(),
            old(self).recall_error(admin, plan_id, recall_amount) is None ==> old(
                self,
            ).trigger_at(plan_id).unwrap().recalled_amount + recall_amount <= u64::MAX,
        ensures
            final(self).wf(),
            old(self).solvent() ==> final(self).solvent(),
            match r {
                Ok(event) => {
                    let plan = old(self).plan_at(plan_id);
                    let info = old(self).trigger_at(plan_id).unwrap();
                    &&& old(self).recall_error(admin, plan_id, recall_amount) is None
                    &&& final(self).registers_kept(old(self))
                    &&& final(self).other_plans_kept(old(self), plan_id)
                    &&& final(self).plan_at(plan_id) == (InheritancePlan {
                        total_loaned: (plan.total_loaned - recall_amount) as u64,
                        ..plan
                    })
                    &&& final(self).trigger_at(plan_id) == Some(
                        InheritanceTriggerInfo {
                            recall_attempted: true,
                            recalled_amount: (info.recalled_amount + recall_amount) as u64,
                            ..info
                        },
                    )
                    &&& event == (LoanRecallEvent {
                        plan_id,
                        recalled_amount: recall_amount,
                        remaining_loaned: (plan.total_loaned - recall_amount) as u64,
                    })
                },
                Err(e) => {
                    &&& old(self).recall_error(admin, plan_id, recall_amount) == Some(e)
                    &&& *final(self) == *old(self)
                },
            },
    {
        match self.check_recall(admin, plan_id, recall_amount) {
            Some(e) => {
                return Err(e);
            },
            None => {},
        }
        let index = self.plan_index(plan_id).unwrap();
        let total_loaned = self.plans[index].plan.total_loaned;
        let info = self.plans[index].trigger.unwrap();
        let remaining: u64 = total_loaned - recall_amount;
        self.plans[index].plan.total_loaned = remaining;
        self.plans[index].trigger = Some(
            InheritanceTriggerInfo {
                triggered_at: info.triggered_at,
                loan_freeze_active: info.loan_freeze_active,
                recall_attempted: true,
                liquidation_triggered: info.liquidation_triggered,
                original_loaned: info.original_loaned,
                recalled_amount: info.recalled_amount + recall_amount,
                settled_amount: info.settled_amount,
            },
        );
        proof {
            self.lemma_plan_changed(old(self), plan_id);
        }
        Ok(LoanRecallEvent { plan_id, recalled_amount: recall_amount, remaining_loaned: remaining })
    }

    /// Writes off what a triggered plan still has lent out: the plan holds
    /// that much less and nothing of it is lent out any more. Where the call
    /// is refused nothing changes.
    ///
    /// The sum of what was written off must remain a `u64`.
    pub fn liquidation_fallback(&mut self, admin: Address, plan_id: u64) -> (r: Result<
        LiquidationFallbackEvent,
        InheritanceError,
    >)
        requires
            old(self).wf(),
            old(self).settlement_error(admin, plan_id) is None ==> old(self).trigger_at(
                plan_id,
            ).unwrap().settled_amount + old(self).plan_at(plan_id).total_loaned <= u64::MAX,
        ensures
            final(self).wf(),
            old(self).solvent() ==> final(self).solvent(),
            match r {
                Ok(event) => {
                    let plan = old(self).plan_at(plan_id);
                    let info = old(self).trigger_at(plan_id).unwrap();
                    &&& old(self).settlement_error(admin, plan_id) is None
                    &&& final(self).registers_kept(old(self))
                    &&& final(self).other_plans_kept(old(self), plan_id)
                    &&& final(self).plan_at(plan_id) == (InheritancePlan {
                        total_amount: available_liquidity(plan) as u64,
                        total_loaned: 0,
                        ..plan
                    })
                    &&& final(self).trigger_at(plan_id) == Some(
                        InheritanceTriggerInfo {
                            liquidation_triggered: true,
                            settled_amount: (info.settled_amount + plan.total_loaned) as u64,
                            ..info
                        },
                    )
                    &&& event == (LiquidationFallbackEvent {
                        plan_id,
                        settled_amount: plan.total_loaned,
                        claimable_amount: available_liquidity(plan) as u64,
                    })
                    &&& plan_solvent(final(self).plan_at(plan_id))
                },
                Err(e) => {
                    &&& old(self).settlement_error(admin, plan_id) == Some(e)
                    &&& *final(self) == *old(self)
                },
            },
    {
        match self.check_settlement(admin, plan_id) {
            Some(e) => {
                return Err(e);
            },
            None => {},
        }
        let index = self.plan_index(plan_id).unwrap();
        let info = self.plans[index].trigger.unwrap();
        let unrecoverable = self.plans[index].plan.total_loaned;
        let claimable = self.plans[index].plan.total_amount.saturating_sub(unrecoverable);
        self.plans[index].plan.total_amount = claimable;
        self.plans[index].plan.total_loaned = 0;
        self.plans[index].trigger = Some(
            InheritanceTriggerInfo {
                triggered_at: info.triggered_at,
                loan_freeze_active: info.loan_freeze_active,
                recall_attempted: info.recall_attempted,
                liquidation_triggered: true,
                original_loaned: info.original_loaned,
                recalled_amount: info.recalled_amount,
                settled_amount: info.settled_amount + unrecoverable,
            },
        );
        proof {
            self.lemma_plan_changed(old(self), plan_id);
        }
        Ok(
            LiquidationFallbackEvent {
                plan_id,
                settled_amount: unrecoverable,
                claimable_amount: claimable,
            },
        )
    }

    /// The trigger record of a plan, if its inheritance was triggered.
    pub fn get_inheritance_trigger(&self, plan_id: u64) -> (r: Option<InheritanceTriggerInfo>)
        ensures
            r == (if self.has_plan(plan_id) {
                self.trigger_at(plan_id)
            } else {
                None
            }),
    {
        match self.plan_index(plan_id) {
            Some(i) => self.plans[i].trigger,
            None => None,
        }
    }

    /// What a plan holds that is not lent out.
    pub fn get_claimable_amount(&self, plan_id: u64) -> (r: Result<u64, InheritanceError>)
        ensures
            match r {
                Ok(amount) => self.has_plan(plan_id) && amount == available_liquidity(
                    self.plan_at(plan_id),
                ),
                Err(e) => !self.has_plan(plan_id) && e == InheritanceError::PlanNotFound,
            },
    {
        match self.plan_index(plan_id) {
            Some(i) => Ok(
                self.plans[i].plan.total_amount.saturating_sub(self.plans[i].plan.total_loaned),
            ),
            None => Err(InheritanceError::PlanNotFound),
        }
    }

    /// Where one plan changed and kept its beneficiaries and their total,
    /// the state stays well formed; where it also has no more lent out than
    /// it holds, the state stays solvent.
    pub proof fn lemma_plan_changed(&self, before: &Self, plan_id: u64)
        requires
            before.wf(),
            before.has_plan(plan_id),
            self.other_plans_kept(before, plan_id),
            self.claims == before.claims,
            self.kyc == before.kyc,
            self.plan_at(plan_id).beneficiaries == before.plan_at(plan_id).beneficiaries,
            self.plan_at(plan_id).total_allocation_bp == before.plan_at(
                plan_id,
            ).total_allocation_bp,
        ensures
            self.wf(),
            before.solvent() && plan_solvent(self.plan_at(plan_id)) ==> self.solvent(),
    {
        assert forall|k: int| 0 <= k < self.plans@.len() implies plan_wf(
            (#[trigger] self.plans@[k]).plan,
        ) by {
            assert(plan_wf(before.plans@[k].plan));
        }
        if before.solvent() && plan_solvent(self.plan_at(plan_id)) {
            assert forall|k: int| 0 <= k < self.plans@.len() implies plan_solvent(
                (#[trigger] self.plans@[k]).plan,
            ) by {
                assert(plan_solvent(before.plans@[k].plan));
            }
        }
    }
}

} // verus!
