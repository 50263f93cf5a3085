//! Adding beneficiaries to a plan and removing them.

use vstd::prelude::*;
use crate::address::Address;
use crate::inheritance::contract::InheritanceContract;
use crate::inheritance::events::{BeneficiaryAddedEvent, BeneficiaryRemovedEvent};
use crate::inheritance::plan::{
    lemma_allocation_at_most_sum, lemma_allocation_sum_push, lemma_allocation_sum_swap_remove,
    plan_solvent, plan_wf, FULL_ALLOCATION_BP, MAX_BENEFICIARIES,
};
use crate::inheritance::types::{BeneficiaryInput, InheritanceError, InheritancePlan, PlanView};
use crate::inheritance::validation::{beneficiary_error, hashable, spec_beneficiary};
use crate::digest::spec_hash_string;

verus! {

impl InheritanceContract {
    /// Why a beneficiary is not added, if it is not. The checks come in this
    /// order: the plan must exist and the caller own it; it must name fewer
    /// than ten beneficiaries; the share must be above zero; with it the
    /// shares must not exceed the whole; and the beneficiary must be stated
    /// in full, with a claim code of at most six digits.
    pub open spec fn add_beneficiary_error(
        &self,
        owner: Address,
        plan_id: u64,
        input: BeneficiaryInput,
    ) -> Option<InheritanceError> {
        if self.owner_error(owner, plan_id) is Some {
            self.owner_error(owner, plan_id)
        } else if self.plan_at(plan_id).beneficiaries@.len() >= MAX_BENEFICIARIES {
            Some(InheritanceError::TooManyBeneficiaries)
        } else if input.allocation_bp == 0 {
            Some(InheritanceError::InvalidAllocation)
        } else if self.plan_at(plan_id).total_allocation_bp + input.allocation_bp
            > FULL_ALLOCATION_BP {
            Some(InheritanceError::AllocationExceedsLimit)
        } else {
            beneficiary_error(
                input.name@,
                input.email@,
                input.claim_code,
                input.bank_account@,
                input.allocation_bp,
            )
        }
    }

    /// Why a beneficiary is not removed, if it is not: the plan does not
    /// exist, the caller does not own it, or no beneficiary stands at
    /// `index`.
    pub open spec fn remove_beneficiary_error(&self, owner: Address, plan_id: u64, index: u32)
        -> Option<InheritanceError> {
        if self.owner_error(owner, plan_id) is Some {
            self.owner_error(owner, plan_id)
        } else if index >= self.plan_at(plan_id).beneficiaries@.len() {
            Some(InheritanceError::InvalidBeneficiaryIndex)
        } else {
            None
        }
    }

    /// Adds the beneficiary stated in `input` at the end of a plan's list.
    /// Where the call is refused nothing changes.
    ///
    /// The name and the email must be short enough to be hashed.
    pub fn add_beneficiary(&mut self, owner: Address, plan_id: u64, input: BeneficiaryInput) -> (r:
        Result<BeneficiaryAddedEvent, InheritanceError>)
        requires
            old(self).wf(),
            hashable(input.name@),
            hashable(input.email@),
        ensures
            final(self).wf(),
            old(self).solvent() ==> final(self).solvent(),
            match r {
                Ok(event) => {
                    let plan = old(self).plan_at(plan_id);
                    let added = spec_beneficiary(
                        input.name@,
                        input.email@,
                        input.claim_code,
                        input.bank_account@,
                        input.allocation_bp,
                    );
                    &&& old(self).add_beneficiary_error(owner, plan_id, input) is None
                    &&& final(self).registers_kept(old(self))
                    &&& final(self).other_plans_kept(old(self), plan_id)
                    &&& final(self).plan_at(plan_id)@ == (PlanView {
                        beneficiaries: plan@.beneficiaries.push(added),
                        total_allocation_bp: (plan.total_allocation_bp
                            + input.allocation_bp) as u32,
                        ..plan@
                    })
                    &&& final(self).trigger_at(plan_id) == old(self).trigger_at(plan_id)
                    &&& event == (BeneficiaryAddedEvent {
                        plan_id,
                        hashed_email: spec_hash_string(input.email@),
                        allocation_bp: input.allocation_bp,
                    })
                },
                Err(e) => {
                    &&& old(self).add_beneficiary_error(owner, plan_id, input) == Some(e)
                    &&& *final(self) == *old(self)
                },
            },
    {
        let index = match self.owned_plan_index(&owner, plan_id) {
            Ok(i) => i,
            Err(e) => {
                return Err(e);
            },
        };
        if self.plans[index].plan.beneficiaries.len() >= MAX_BENEFICIARIES {
            return Err(InheritanceError::TooManyBeneficiaries);
        }
        if input.allocation_bp == 0 {
            return Err(InheritanceError::InvalidAllocation);
        }
        assert(plan_wf(self.plans@[index as int].plan));
        let new_total: u64 = self.plans[index].plan.total_allocation_bp as u64
            + input.allocation_bp as u64;
        if new_total > FULL_ALLOCATION_BP as u64 {
            return Err(InheritanceError::AllocationExceedsLimit);
        }
        let BeneficiaryInput { name, email, claim_code, bank_account, allocation_bp } = input;
        let beneficiary = match Self::create_beneficiary(
            &name,
            &email,
            claim_code,
            bank_account,
            allocation_bp,
        ) {
            Ok(b) => b,
            Err(e) => {
                return Err(e);
            },
        };
        let hashed_email = beneficiary.hashed_email;
        proof {
            lemma_allocation_sum_push(self.plans@[index as int].plan.beneficiaries@, beneficiary);
        }
        self.plans[index].plan.beneficiaries.push(beneficiary);
        self.plans[index].plan.total_allocation_bp = new_total as u32;
        proof {
            let before = old(self).plan_at(plan_id);
            let after = self.plan_at(plan_id);
            assert(after@.beneficiaries =~= before@.beneficiaries.push(beneficiary@));
            assert forall|k: int| 0 <= k < self.plans@.len() implies plan_wf(
                (#[trigger] self.plans@[k]).plan,
            ) by {
                assert(plan_wf(old(self).plans@[k].plan));
            }
            if old(self).solvent() {
                assert forall|k: int| 0 <= k < self.plans@.len() implies plan_solvent(
                    (#[trigger] self.plans@[k]).plan,
                ) by {
                    assert(plan_solvent(old(self).plans@[k].plan));
                }
            }
        }
        Ok(BeneficiaryAddedEvent { plan_id, hashed_email, allocation_bp })
    }

    /// Removes the beneficiary at `index` from a plan: the last beneficiary
    /// takes its place, so the order of those that remain may change. The
    /// shares that remain sum to less than the whole until the owner adds
    /// beneficiaries again. Where the call is refused nothing changes.
    pub fn remove_beneficiary(&mut self, owner: Address, plan_id: u64, index: u32) -> (r: Result<
        BeneficiaryRemovedEvent,
        InheritanceError,
    >)
        requires
            old(self).wf(),
        ensures
            final(self).wf(),
            old(self).solvent() ==> final(self).solvent(),
            match r {
                Ok(event) => {
                    let plan = old(self).plan_at(plan_id);
                    let removed = plan.beneficiaries@[index as int];
                    &&& old(self).remove_beneficiary_error(owner, plan_id, index) is None
                    &&& final(self).registers_kept(old(self))
                    &&& final(self).other_plans_kept(old(self), plan_id)
                    &&& final(self).plan_at(plan_id) == (InheritancePlan {
                        beneficiaries: final(self).plan_at(plan_id).beneficiaries,
                        total_allocation_bp: (plan.total_allocation_bp
                            - removed.allocation_bp) as u32,
                        ..plan
                    })
                    &&& final(self).plan_at(plan_id).beneficiaries@ == plan.beneficiaries@.update(
                        index as int,
                        plan.beneficiaries@.last(),
                    ).drop_last()
                    &&& final(self).trigger_at(plan_id) == old(self).trigger_at(plan_id)
                    &&& event == (BeneficiaryRemovedEvent {
                        plan_id,
                        index,
                        allocation_bp: removed.allocation_bp,
                    })
                },
                Err(e) => {
                    &&& old(self).remove_beneficiary_error(owner, plan_id, index) == Some(e)
                    &&& *final(self) == *old(self)
                },
            },
    {
        let plan_index = match self.owned_plan_index(&owner, plan_id) {
            Ok(i) => i,
            Err(e) => {
                return Err(e);
            },
        };
        assert(plan_wf(self.plans@[plan_index as int].plan));
        if index as usize >= self.plans[plan_index].plan.beneficiaries.len() {
            return Err(InheritanceError::InvalidBeneficiaryIndex);
        }
        proof {
            let bs = self.plans@[plan_index as int].plan.beneficiaries@;
            lemma_allocation_at_most_sum(bs, index as int);
            lemma_allocation_sum_swap_remove(bs, index as int);
        }
        let removed = self.plans[plan_index].plan.beneficiaries.swap_remove(index as usize);
        let total = self.plans[plan_index].plan.total_allocation_bp;
        self.plans[plan_index].plan.total_allocation_bp = total - removed.allocation_bp;
        proof {
            assert forall|k: int| 0 <= k < self.plans@.len() implies plan_wf(
                (#[trigger] self.plans@[k]).plan,
            ) by {
                assert(plan_wf(old(self).plans@[k].plan));
                if k == plan_index {
                    let before = old(self).plans@[k].plan.beneficiaries@;
                    let after = self.plans@[k].plan.beneficiaries@;
                    assert forall|j: int| 0 <= j < after.len() implies (
                    #[trigger] after[j]).allocation_bp > 0 by {
                        if j == index {
                            assert(after[j] == before.last());
                        } else {
                            assert(after[j] == before[j]);
                        }
                    }
                }
            }
            if old(self).solvent() {
                assert forall|k: int| 0 <= k < self.plans@.len() implies plan_solvent(
                    (#[trigger] self.plans@[k]).plan,
                ) by {
                    assert(plan_solvent(old(self).plans@[k].plan));
                }
            }
        }
        Ok(BeneficiaryRemovedEvent { plan_id, index, allocation_bp: removed.allocation_bp })
    }
}

} // verus!
