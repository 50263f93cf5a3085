//! Claiming a beneficiary's share of a plan.

use vstd::prelude::*;
use crate::digest::{
    claim_key, spec_claim_key, spec_hash_claim_code, spec_hash_string, MAX_CLAIM_CODE,
};
use crate::math::{bps_of, bps_share, lemma_bps_of_bounded};
use crate::inheritance::contract::InheritanceContract;
use crate::inheritance::events::ClaimSuccessEvent;
use crate::inheritance::plan::{
    available_liquidity, claim_time_valid, find_beneficiary, is_claim_time_valid,
    lemma_allocation_at_most_sum, locate_beneficiary, plan_solvent, plan_wf,
};
use crate::inheritance::types::{ClaimRecord, InheritanceError, InheritancePlan};
use crate::inheritance::validation::hashable;

verus! {

/// What the beneficiary at `index` of `plan` is paid: its share of what the
/// plan holds, rounded down.
pub open spec fn claim_payout(plan: InheritancePlan, index: int) -> int {
    bps_of(plan.total_amount as int, plan.beneficiaries@[index].allocation_bp as int)
}

/// `ids` with `id` added at the end, unless it is there already.
pub open spec fn with_id(ids: Seq<u64>, id: u64) -> Seq<u64> {
    if ids.contains(id) {
        ids
    } else {
        ids.push(id)
    }
}

/// Whether `id` is among `ids`.
pub fn ids_contain(ids: &Vec<u64>, id: u64) -> (found: bool)
    ensures
        found == ids@.contains(id),
{
    let mut i: usize = 0;
    while i < ids.len()
        invariant
            i <= ids@.len(),
            forall|j: int| 0 <= j < i ==> ids@[j] != id,
        decreases ids@.len() - i,
    {
        if ids[i] == id {
            return true;
        }
        i += 1;
    }
    false
}

/// Adds `id` to `ids` unless it is there already.
pub fn add_id(ids: &mut Vec<u64>, id: u64)
    ensures
        final(ids)@ == with_id(old(ids)@, id),
{
    if !ids_contain(ids, id) {
        ids.push(id);
    }
}

impl InheritanceContract {
    /// Why a claim is refused, if it is. The checks come in this order: the
    /// plan must exist and be active; unless its inheritance was triggered,
    /// the time that its distribution method asks for must have passed; the
    /// claim code must have at most six digits; the claim must not have been
    /// made before; a beneficiary must carry both the email and the code;
    /// and, unless the inheritance was triggered, the payout must not exceed
    /// what the plan holds that is not lent out.
    pub open spec fn claim_error(
        &self,
        plan_id: u64,
        email: Seq<char>,
        claim_code: u32,
        now: u64,
    ) -> Option<InheritanceError> {
        if !self.has_plan(plan_id) {
            Some(InheritanceError::PlanNotFound)
        } else {
            let plan = self.plan_at(plan_id);
            let triggered = self.trigger_at(plan_id) is Some;
            let hashed_email = spec_hash_string(email);
            let found = find_beneficiary(
                plan.beneficiaries@,
                hashed_email,
                spec_hash_claim_code(claim_code),
            );
            if !plan.is_active {
                Some(InheritanceError::PlanNotActive)
            } else if !triggered && !claim_time_valid(
                plan.distribution_method,
                plan.created_at,
                now,
            ) {
                Some(InheritanceError::ClaimNotAllowedYet)
            } else if claim_code > MAX_CLAIM_CODE {
                Some(InheritanceError::InvalidClaimCodeRange)
            } else if self.claims@.contains_key(spec_claim_key(plan_id, hashed_email)) {
                Some(InheritanceError::AlreadyClaimed)
            } else if found is None {
                Some(InheritanceError::BeneficiaryNotFound)
            } else if !triggered && claim_payout(plan, found.unwrap()) > available_liquidity(
                plan,
            ) {
                Some(InheritanceError::InsufficientLiquidity)
            } else {
                None
            }
        }
    }

    /// The position of the beneficiary that a claim names.
    pub open spec fn claimant(&self, plan_id: u64, email: Seq<char>, claim_code: u32) -> int {
        find_beneficiary(
            self.plan_at(plan_id).beneficiaries@,
            spec_hash_string(email),
            spec_hash_claim_code(claim_code),
        ).unwrap()
    }

    /// Whether the time gate of a claim at `now` can be evaluated: the plan
    /// was not created after `now`.
    pub open spec fn clock_consistent(&self, plan_id: u64, now: u64) -> bool {
        self.has_plan(plan_id) && self.plan_at(plan_id).is_active && self.trigger_at(plan_id)
            is None ==> self.plan_at(plan_id).created_at <= now
    }

    /// What a successful claim leaves behind: the claim is recorded under its
    /// key, the plan holds the payout less, and the plan is listed as
    /// claimed.
    pub open spec fn claim_applied(
        &self,
        before: &Self,
        plan_id: u64,
        email: Seq<char>,
        claim_code: u32,
        now: u64,
    ) -> bool {
        let plan = before.plan_at(plan_id);
        let index = before.claimant(plan_id, email, claim_code);
        let payout = claim_payout(plan, index);
        &&& self.claims@ == before.claims@.insert(
            spec_claim_key(plan_id, spec_hash_string(email)),
            ClaimRecord { plan_id, beneficiary_index: index as u32, claimed_at: now },
        )
        &&& self.other_plans_kept(before, plan_id)
        &&& self.plan_at(plan_id) == (InheritancePlan {
            total_amount: (plan.total_amount - payout) as u64,
            ..plan
        })
        &&& self.trigger_at(plan_id) == before.trigger_at(plan_id)
        &&& self.claimed_plans@ == with_id(before.claimed_plans@, plan_id)
        &&& self.deactivated_plans == before.deactivated_plans
        &&& self.admin == before.admin
        &&& self.version == before.version
        &&& self.kyc == before.kyc
    }

    /// Claims the share of the beneficiary who holds `email` and
    /// `claim_code`, at the ledger time `now`.
    ///
    /// A claim can be made once for a plan and an email. It pays the
    /// beneficiary's share of what the plan holds at that moment; the payout
    /// is settled off chain against the event returned. Where the call is
    /// refused nothing changes.
    ///
    /// The email must be short enough to be hashed, and a plan whose time
    /// gate is consulted must not have been created after `now`.
    pub fn claim_inheritance_plan(
        &mut self,
        plan_id: u64,
        email: &String,
        claim_code: u32,
        now: u64,
    ) -> (r: Result<ClaimSuccessEvent, InheritanceError>)
        requires
            old(self).wf(),
            hashable(email@),
            old(self).clock_consistent(plan_id, now),
        ensures
            final(self).wf(),
            match r {
                Ok(event) => {
                    &&& old(self).claim_error(plan_id, email@, claim_code, now) is None
                    &&& final(self).claim_applied(old(self), plan_id, email@, claim_code, now)
                    &&& event == (ClaimSuccessEvent {
                        plan_id,
                        hashed_email: spec_hash_string(email@),
                        payout: claim_payout(
                            old(self).plan_at(plan_id),
                            old(self).claimant(plan_id, email@, claim_code),
                        ) as u64,
                    })
                    &&& final(self).claims@.contains_key(
                        spec_claim_key(plan_id, spec_hash_string(email@)),
                    )
                    &&& (old(self).solvent() && event.payout <= available_liquidity(
                        old(self).plan_at(plan_id),
                    ) ==> final(self).solvent())
                },
                Err(e) => {
                    &&& old(self).claim_error(plan_id, email@, claim_code, now) == Some(e)
                    &&& *final(self) == *old(self)
                },
            },
    {
        let index = match self.plan_index(plan_id) {
            Some(i) => i,
            None => {
                return Err(InheritanceError::PlanNotFound);
            },
        };
        if !self.plans[index].plan.is_active {
            return Err(InheritanceError::PlanNotActive);
        }
        let triggered = self.plans[index].trigger.is_some();
        if !triggered && !is_claim_time_valid(
            self.plans[index].plan.distribution_method,
            self.plans[index].plan.created_at,
            now,
        ) {
            return Err(InheritanceError::ClaimNotAllowedYet);
        }
        let hashed_email = Self::hash_string(email);
        let hashed_claim_code = match Self::hash_claim_code(claim_code) {
            Ok(d) => d,
            Err(e) => {
                return Err(e);
            },
        };
        let key = claim_key(plan_id, &hashed_email);
        if self.claims.contains(&key) {
            return Err(InheritanceError::AlreadyClaimed);
        }
        let position = match locate_beneficiary(
            &self.plans[index].plan.beneficiaries,
            &hashed_email,
            &hashed_claim_code,
        ) {
            Some(p) => p,
            None => {
                return Err(InheritanceError::BeneficiaryNotFound);
            },
        };
        let total_amount = self.plans[index].plan.total_amount;
        let total_loaned = self.plans[index].plan.total_loaned;
        let allocation_bp = self.plans[index].plan.beneficiaries[position].allocation_bp;
        proof {
            let plan = self.plans@[index as int].plan;
            assert(plan_wf(plan));
            lemma_allocation_at_most_sum(plan.beneficiaries@, position as int);
            lemma_bps_of_bounded(total_amount as int, allocation_bp as int);
        }
        let base_payout = bps_share(total_amount, allocation_bp);
        let available = total_amount.saturating_sub(total_loaned);
        if !triggered && base_payout > available {
            return Err(InheritanceError::InsufficientLiquidity);
        }
        self.claims.set(
            key,
            ClaimRecord { plan_id, beneficiary_index: position as u32, claimed_at: now },
        );
        self.plans[index].plan.total_amount = total_amount.saturating_sub(base_payout);
        add_id(&mut self.claimed_plans, plan_id);
        proof {
            assert forall|k: int| 0 <= k < self.plans@.len() implies plan_wf(
                (#[trigger] self.plans@[k]).plan,
            ) by {
                assert(plan_wf(old(self).plans@[k].plan));
            }
            if old(self).solvent() && base_payout <= available_liquidity(
                old(self).plan_at(plan_id),
            ) {
                assert forall|k: int| 0 <= k < self.plans@.len() implies plan_solvent(
                    (#[trigger] self.plans@[k]).plan,
                ) by {
                    assert(plan_solvent(old(self).plans@[k].plan));
                }
            }
        }
        Ok(ClaimSuccessEvent { plan_id, hashed_email, payout: base_payout })
    }
}

} // verus!
