//! Reading plans.

use vstd::prelude::*;
use crate::address::Address;
use crate::digest::copy_bytes;
use crate::inheritance::claim::ids_contain;
use crate::inheritance::contract::InheritanceContract;
use crate::inheritance::plan::PlanRecord;
use crate::inheritance::types::{Beneficiary, InheritanceError, InheritancePlan, PlanView};

verus! {

/// Which plans a listing keeps.
#[derive(Clone, Copy, Debug, PartialEq, Eq)]
pub enum PlanFilter {
    /// Every plan.
    All,
    /// The active plans.
    Active,
    /// The plans that were deactivated.
    Inactive,
    /// The plans of one owner.
    OwnedBy(Address),
    /// The active plans of one owner.
    ActiveOwnedBy(Address),
    /// The deactivated plans of one owner.
    InactiveOwnedBy(Address),
}

impl PlanFilter {
    /// Whether the filter keeps `plan`.
    pub open spec fn keeps(self, plan: InheritancePlan) -> bool {
        match self {
            PlanFilter::All => true,
            PlanFilter::Active => plan.is_active,
            PlanFilter::Inactive => !plan.is_active,
            PlanFilter::OwnedBy(owner) => plan.owner == owner,
            PlanFilter::ActiveOwnedBy(owner) => plan.owner == owner && plan.is_active,
            PlanFilter::InactiveOwnedBy(owner) => plan.owner == owner && !plan.is_active,
        }
    }

    /// Whether the filter keeps `plan`.
    pub fn accepts(&self, plan: &InheritancePlan) -> (kept: bool)
        ensures
            kept == self.keeps(*plan),
    {
        match self {
            PlanFilter::All => true,
            PlanFilter::Active => plan.is_active,
            PlanFilter::Inactive => !plan.is_active,
            PlanFilter::OwnedBy(owner) => plan.owner == *owner,
            PlanFilter::ActiveOwnedBy(owner) => plan.owner == *owner && plan.is_active,
            PlanFilter::InactiveOwnedBy(owner) => plan.owner == *owner && !plan.is_active,
        }
    }
}

/// The plans of `plans` that `filter` keeps, in the order of their numbers.
pub open spec fn select_plans(plans: Seq<PlanRecord>, filter: PlanFilter) -> Seq<PlanView>
    decreases plans.len(),
{
    if plans.len() == 0 {
        seq![]
    } else if filter.keeps(plans.last().plan) {
        select_plans(plans.drop_last(), filter).push(plans.last().plan@)
    } else {
        select_plans(plans.drop_last(), filter)
    }
}

/// The plans that `ids` number, as far as they exist and `filter` keeps
/// them, in the order of `ids`.
pub open spec fn select_by_ids(plans: Seq<PlanRecord>, ids: Seq<u64>, filter: PlanFilter) -> Seq<
    PlanView,
>
    decreases ids.len(),
{
    if ids.len() == 0 {
        seq![]
    } else {
        let id = ids.last();
        let rest = select_by_ids(plans, ids.drop_last(), filter);
        if 1 <= id <= plans.len() && filter.keeps(plans[id - 1].plan) {
            rest.push(plans[id - 1].plan@)
        } else {
            rest
        }
    }
}

/// A list of plans as plain values.
pub open spec fn plans_view(plans: Seq<InheritancePlan>) -> Seq<PlanView> {
    Seq::new(plans.len(), |i: int| plans[i]@)
}

impl Beneficiary {
    /// A copy of the beneficiary.
    pub fn duplicate(&self) -> (copy: Beneficiary)
        ensures
            copy@ == self@,
    {
        Beneficiary {
            hashed_full_name: self.hashed_full_name,
            hashed_email: self.hashed_email,
            hashed_claim_code: self.hashed_claim_code,
            bank_account: copy_bytes(&self.bank_account),
            allocation_bp: self.allocation_bp,
        }
    }
}

impl InheritancePlan {
    /// A copy of the plan.
    pub fn duplicate(&self) -> (copy: InheritancePlan)
        ensures
            copy@ == self@,
    {
        let mut beneficiaries: Vec<Beneficiary> = Vec::new();
        let mut i: usize = 0;
        while i < self.beneficiaries.len()
            invariant
                i <= self.beneficiaries@.len(),
                beneficiaries@.len() == i,
                forall|j: int| 0 <= j < i ==> (#[trigger] beneficiaries@[j])@ == self.beneficiaries@[j]@,
            decreases self.beneficiaries@.len() - i,
        {
            beneficiaries.push(self.beneficiaries[i].duplicate());
            i += 1;
        }
        let copy = InheritancePlan {
            plan_name: self.plan_name.clone(),
            description: self.description.clone(),
            asset_type: self.asset_type.clone(),
            total_amount: self.total_amount,
            distribution_method: self.distribution_method,
            beneficiaries,
            total_allocation_bp: self.total_allocation_bp,
            owner: self.owner,
            created_at: self.created_at,
            is_active: self.is_active,
            is_lendable: self.is_lendable,
            total_loaned: self.total_loaned,
        };
        assert(copy@.beneficiaries =~= self@.beneficiaries);
        copy
    }
}

impl InheritanceContract {
    /// Why `caller` may not list every plan, if it may not. Unlike elsewhere
    /// the refusal does not tell a missing administrator from a wrong one.
    pub open spec fn overseer_error(&self, caller: Address) -> Option<InheritanceError> {
        if self.admin != Some(caller) {
            Some(InheritanceError::Unauthorized)
        } else {
            None
        }
    }

    /// Copies of the plans that `filter` keeps.
    fn collect_plans(&self, filter: PlanFilter) -> (out: Vec<InheritancePlan>)
        ensures
            plans_view(out@) == select_plans(self.plans@, filter),
    {
        let mut out: Vec<InheritancePlan> = Vec::new();
        let mut i: usize = 0;
        assert(plans_view(out@) =~= select_plans(self.plans@.subrange(0, 0), filter));
        while i < self.plans.len()
            invariant
                i <= self.plans@.len(),
                plans_view(out@) == select_plans(self.plans@.subrange(0, i as int), filter),
            decreases self.plans@.len() - i,
        {
            let ghost before = out@;
            assert(self.plans@.subrange(0, i + 1).drop_last() =~= self.plans@.subrange(
                0,
                i as int,
            ));
            if filter.accepts(&self.plans[i].plan) {
                out.push(self.plans[i].plan.duplicate());
                assert(plans_view(out@) =~= plans_view(before).push(self.plans@[i as int].plan@));
            }
            i += 1;
        }
        assert(self.plans@.subrange(0, self.plans@.len() as int) =~= self.plans@);
        out
    }

    /// Copies of the plans that `ids` number, as far as they exist and
    /// `filter` keeps them.
    fn collect_by_ids(&self, ids: &Vec<u64>, filter: PlanFilter) -> (out: Vec<InheritancePlan>)
        ensures
            plans_view(out@) == select_by_ids(self.plans@, ids@, filter),
    {
        let mut out: Vec<InheritancePlan> = Vec::new();
        let mut i: usize = 0;
        assert(plans_view(out@) =~= select_by_ids(self.plans@, ids@.subrange(0, 0), filter));
        while i < ids.len()
            invariant
                i <= ids@.len(),
                plans_view(out@) == select_by_ids(self.plans@, ids@.subrange(0, i as int), filter),
            decreases ids@.len() - i,
        {
            let ghost before = out@;
            assert(ids@.subrange(0, i + 1).drop_last() =~= ids@.subrange(0, i as int));
            match self.plan_index(ids[i]) {
                Some(k) => {
                    if filter.accepts(&self.plans[k].plan) {
                        out.push(self.plans[k].plan.duplicate());
                        assert(plans_view(out@) =~= plans_view(before).push(
                            self.plans@[k as int].plan@,
                        ));
                    }
                },
                None => {},
            }
            i += 1;
        }
        assert(ids@.subrange(0, ids@.len() as int) =~= ids@);
        out
    }

    /// The plan with the number `plan_id`, if it exists.
    pub fn get_plan_details(&self, plan_id: u64) -> (r: Option<InheritancePlan>)
        ensures
            match r {
                Some(plan) => self.has_plan(plan_id) && plan@ == self.plan_at(plan_id)@,
                None => !self.has_plan(plan_id),
            },
    {
        match self.plan_index(plan_id) {
            Some(i) => Some(self.plans[i].plan.duplicate()),
            None => None,
        }
    }

    /// The plan `plan_id` for its owner.
    pub fn get_user_plan(&self, user: Address, plan_id: u64) -> (r: Result<
        InheritancePlan,
        InheritanceError,
    >)
        ensures
            match r {
                Ok(plan) => self.owner_error(user, plan_id) is None && plan@ == self.plan_at(
                    plan_id,
                )@,
                Err(e) => self.owner_error(user, plan_id) == Some(e),
            },
    {
        match self.owned_plan_index(&user, plan_id) {
            Ok(i) => Ok(self.plans[i].plan.duplicate()),
            Err(e) => Err(e),
        }
    }

    /// The plans of `user`, in the order of their creation.
    pub fn get_user_plans(&self, user: Address) -> (r: Vec<InheritancePlan>)
        ensures
            plans_view(r@) == select_plans(self.plans@, PlanFilter::OwnedBy(user)),
    {
        self.collect_plans(PlanFilter::OwnedBy(user))
    }

    /// Every plan, for the administrator.
    pub fn get_all_plans(&self, admin: Address) -> (r: Result<
        Vec<InheritancePlan>,
        InheritanceError,
    >)
        ensures
            match r {
                Ok(plans) => self.admin_error(admin) is None && plans_view(plans@) == select_plans(
                    self.plans@,
                    PlanFilter::All,
                ),
                Err(e) => self.admin_error(admin) == Some(e),
            },
    {
        match self.require_admin(&admin) {
            Err(e) => Err(e),
            Ok(_) => Ok(self.collect_plans(PlanFilter::All)),
        }
    }

    /// The active plans of `user`.
    pub fn get_user_pending_plans(&self, user: Address) -> (r: Vec<InheritancePlan>)
        ensures
            plans_view(r@) == select_plans(self.plans@, PlanFilter::ActiveOwnedBy(user)),
    {
        self.collect_plans(PlanFilter::ActiveOwnedBy(user))
    }

    /// Every active plan, for the administrator.
    pub fn get_all_pending_plans(&self, admin: Address) -> (r: Result<
        Vec<InheritancePlan>,
        InheritanceError,
    >)
        ensures
            match r {
                Ok(plans) => self.admin_error(admin) is None && plans_view(plans@) == select_plans(
                    self.plans@,
                    PlanFilter::Active,
                ),
                Err(e) => self.admin_error(admin) == Some(e),
            },
    {
        match self.require_admin(&admin) {
            Err(e) => Err(e),
            Ok(_) => Ok(self.collect_plans(PlanFilter::Active)),
        }
    }

    /// The deactivated plan `plan_id` for its owner. A plan that is still
    /// active is refused as `PlanNotActive`.
    pub fn get_deactivated_plan(&self, user: Address, plan_id: u64) -> (r: Result<
        InheritancePlan,
        InheritanceError,
    >)
        ensures
            match r {
                Ok(plan) => {
                    &&& self.owner_error(user, plan_id) is None
                    &&& !self.plan_at(plan_id).is_active
                    &&& plan@ == self.plan_at(plan_id)@
                },
                Err(e) => if self.owner_error(user, plan_id) is Some {
                    self.owner_error(user, plan_id) == Some(e)
                } else {
                    self.plan_at(plan_id).is_active && e == InheritanceError::PlanNotActive
                },
            },
    {
        match self.owned_plan_index(&user, plan_id) {
            Ok(i) => {
                if self.plans[i].plan.is_active {
                    Err(InheritanceError::PlanNotActive)
                } else {
                    Ok(self.plans[i].plan.duplicate())
                }
            },
            Err(e) => Err(e),
        }
    }

    /// The deactivated plans of `user`.
    pub fn get_user_deactivated_plans(&self, user: Address) -> (r: Vec<InheritancePlan>)
        ensures
            plans_view(r@) == select_plans(self.plans@, PlanFilter::InactiveOwnedBy(user)),
    {
        self.collect_plans(PlanFilter::InactiveOwnedBy(user))
    }

    /// Every deactivated plan, in the order of deactivation, for the
    /// administrator.
    pub fn get_all_deactivated_plans(&self, admin: Address) -> (r: Result<
        Vec<InheritancePlan>,
        InheritanceError,
    >)
        ensures
            match r {
                Ok(plans) => self.overseer_error(admin) is None && plans_view(plans@)
                    == select_by_ids(self.plans@, self.deactivated_plans@, PlanFilter::Inactive),
                Err(e) => self.overseer_error(admin) == Some(e),
            },
    {
        match self.admin {
            None => Err(InheritanceError::Unauthorized),
            Some(stored) => {
                if stored != admin {
                    Err(InheritanceError::Unauthorized)
                } else {
                    Ok(self.collect_by_ids(&self.deactivated_plans, PlanFilter::Inactive))
                }
            },
        }
    }

    /// The plan `plan_id` for its owner, if a claim was made on it.
    pub fn get_claimed_plan(&self, user: Address, plan_id: u64) -> (r: Result<
        InheritancePlan,
        InheritanceError,
    >)
        ensures
            match r {
                Ok(plan) => {
                    &&& self.owner_error(user, plan_id) is None
                    &&& self.claimed_plans@.contains(plan_id)
                    &&& plan@ == self.plan_at(plan_id)@
                },
                Err(e) => if self.owner_error(user, plan_id) is Some {
                    self.owner_error(user, plan_id) == Some(e)
                } else {
                    !self.claimed_plans@.contains(plan_id) && e == InheritanceError::PlanNotClaimed
                },
            },
    {
        match self.owned_plan_index(&user, plan_id) {
            Ok(i) => {
                if !ids_contain(&self.claimed_plans, plan_id) {
                    Err(InheritanceError::PlanNotClaimed)
                } else {
                    Ok(self.plans[i].plan.duplicate())
                }
            },
            Err(e) => Err(e),
        }
    }

    /// The plans of `user` on which a claim was made, in the order of their
    /// first claim.
    pub fn get_user_claimed_plans(&self, user: Address) -> (r: Vec<InheritancePlan>)
        ensures
            plans_view(r@) == select_by_ids(
                self.plans@,
                self.claimed_plans@,
                PlanFilter::OwnedBy(user),
            ),
    {
        self.collect_by_ids(&self.claimed_plans, PlanFilter::OwnedBy(user))
    }

    /// Every plan on which a claim was made, in the order of their first
    /// claim, for the administrator.
    pub fn get_all_claimed_plans(&self, admin: Address) -> (r: Result<
        Vec<InheritancePlan>,
        InheritanceError,
    >)
        ensures
            match r {
                Ok(plans) => self.admin_error(admin) is None && plans_view(plans@) == select_by_ids(
                    self.plans@,
                    self.claimed_plans@,
                    PlanFilter::All,
                ),
                Err(e) => self.admin_error(admin) == Some(e),
            },
    {
        match self.require_admin(&admin) {
            Err(e) => Err(e),
            Ok(_) => Ok(self.collect_by_ids(&self.claimed_plans, PlanFilter::All)),
        }
    }
}

} // verus!
