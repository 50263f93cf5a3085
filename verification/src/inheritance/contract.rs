//! The state of the inheritance vault and what is asked of it throughout.

use vstd::prelude::*;
use crate::address::Address;
use crate::digest::Digest;
use crate::store::Store;
use crate::inheritance::plan::{check_plan_wf, plan_wf, plan_solvent, PlanRecord};
use crate::inheritance::types::{
    ClaimRecord, InheritanceError, InheritancePlan, InheritanceTriggerInfo, KycStatus,
};

verus! {

/// The version that this code stands for.
pub const CONTRACT_VERSION: u32 = 1;

/// The creation fee in basis points of what the owner pays in.
pub const CREATION_FEE_BP: u32 = 200;

/// Everything the inheritance vault keeps.
///
/// Plans are numbered from one in the order of their creation and are never
/// removed: plan `n` stands at position `n - 1`.
#[derive(Clone, Debug, PartialEq, Eq)]
pub struct InheritanceContract {
    /// Who administers the vault and receives the creation fees.
    pub admin: Option<Address>,
    /// The version recorded by an upgrade or a migration, if any was.
    pub version: Option<u32>,
    pub plans: Vec<PlanRecord>,
    /// The claims made, by claim key.
    pub claims: Store<Digest, ClaimRecord>,
    /// Identity checks, by user.
    pub kyc: Store<Address, KycStatus>,
    /// The plans on which a claim was made, in the order of their first claim.
    pub claimed_plans: Vec<u64>,
    /// The plans that were deactivated, in that order.
    pub deactivated_plans: Vec<u64>,
}

impl InheritanceContract {
    /// The state is well formed: every plan is, the stores hold each key
    /// once, and the next plan number is a `u64`.
    pub open spec fn wf(&self) -> bool {
        &&& self.plans@.len() < u64::MAX
        &&& forall|i: int| 0 <= i < self.plans@.len() ==> plan_wf((#[trigger] self.plans@[i]).plan)
        &&& self.claims.wf()
        &&& self.kyc.wf()
    }

    /// No plan has more lent out than it holds.
    pub open spec fn solvent(&self) -> bool {
        forall|i: int|
            0 <= i < self.plans@.len() ==> plan_solvent((#[trigger] self.plans@[i]).plan)
    }

    /// Whether a plan with the number `plan_id` exists.
    pub open spec fn has_plan(&self, plan_id: u64) -> bool {
        1 <= plan_id <= self.plans@.len()
    }

    /// The plan with the number `plan_id`.
    pub open spec fn plan_at(&self, plan_id: u64) -> InheritancePlan {
        self.plans@[plan_id - 1].plan
    }

    /// The trigger record of the plan with the number `plan_id`.
    pub open spec fn trigger_at(&self, plan_id: u64) -> Option<InheritanceTriggerInfo> {
        self.plans@[plan_id - 1].trigger
    }

    /// Whether the plans other than `plan_id` are the same in `self` and in
    /// `before`, and as many.
    pub open spec fn other_plans_kept(&self, before: &Self, plan_id: u64) -> bool {
        &&& self.plans@.len() == before.plans@.len()
        &&& forall|i: int|
            0 <= i < self.plans@.len() && i != plan_id - 1 ==> self.plans@[i] == before.plans@[i]
    }

    /// Whether everything but the plans is the same in `self` and in
    /// `before`.
    pub open spec fn registers_kept(&self, before: &Self) -> bool {
        &&& self.admin == before.admin
        &&& self.version == before.version
        &&& self.claims == before.claims
        &&& self.kyc == before.kyc
        &&& self.claimed_plans == before.claimed_plans
        &&& self.deactivated_plans == before.deactivated_plans
    }

    /// Why `caller` may not act as the administrator, if it may not.
    pub open spec fn admin_error(&self, caller: Address) -> Option<InheritanceError> {
        match self.admin {
            None => Some(InheritanceError::AdminNotSet),
            Some(admin) => if admin != caller {
                Some(InheritanceError::NotAdmin)
            } else {
                None
            },
        }
    }

    /// Why `caller` may not act on the plan `plan_id` as its owner, if it may
    /// not.
    pub open spec fn owner_error(&self, caller: Address, plan_id: u64) -> Option<
        InheritanceError,
    > {
        if !self.has_plan(plan_id) {
            Some(InheritanceError::PlanNotFound)
        } else if self.plan_at(plan_id).owner != caller {
            Some(InheritanceError::Unauthorized)
        } else {
            None
        }
    }

    /// A vault without administrator, plans or records.
    pub fn new() -> (c: Self)
        ensures
            c.wf(),
            c.solvent(),
            c.admin is None,
            c.version is None,
            c.plans@.len() == 0,
            c.claims@ == Map::<Digest, ClaimRecord>::empty(),
            c.kyc@ == Map::<Address, KycStatus>::empty(),
            c.claimed_plans@.len() == 0,
            c.deactivated_plans@.len() == 0,
    {
        InheritanceContract {
            admin: None,
            version: None,
            plans: Vec::new(),
            claims: Store::new(),
            kyc: Store::new(),
            claimed_plans: Vec::new(),
            deactivated_plans: Vec::new(),
        }
    }

    /// Whether the state is well formed. A state that was put together
    /// outside this module, from storage say, is checked so before it is
    /// operated on.
    pub fn is_well_formed(&self) -> (ok: bool)
        ensures
            ok == self.wf(),
    {
        if self.plans.len() as u64 == u64::MAX {
            return false;
        }
        let mut i: usize = 0;
        while i < self.plans.len()
            invariant
                i <= self.plans@.len(),
                forall|j: int| 0 <= j < i ==> plan_wf((#[trigger] self.plans@[j]).plan),
            decreases self.plans@.len() - i,
        {
            if !check_plan_wf(&self.plans[i].plan) {
                return false;
            }
            i += 1;
        }
        self.claims.check_wf() && self.kyc.check_wf()
    }

    /// Whether no plan has more lent out than it holds.
    pub fn is_solvent(&self) -> (ok: bool)
        ensures
            ok == self.solvent(),
    {
        let mut i: usize = 0;
        while i < self.plans.len()
            invariant
                i <= self.plans@.len(),
                forall|j: int| 0 <= j < i ==> plan_solvent((#[trigger] self.plans@[j]).plan),
            decreases self.plans@.len() - i,
        {
            if self.plans[i].plan.total_loaned > self.plans[i].plan.total_amount {
                return false;
            }
            i += 1;
        }
        true
    }

    /// Checks that `caller` is the administrator.
    pub fn require_admin(&self, caller: &Address) -> (r: Result<(), InheritanceError>)
        ensures
            r == (match self.admin_error(*caller) {
                Some(e) => Err::<(), InheritanceError>(e),
                None => Ok(()),
            }),
    {
        match self.admin {
            None => Err(InheritanceError::AdminNotSet),
            Some(admin) => {
                if admin != *caller {
                    Err(InheritanceError::NotAdmin)
                } else {
                    Ok(())
                }
            },
        }
    }

    /// Where the plan `plan_id` stands, if it exists.
    pub fn plan_index(&self, plan_id: u64) -> (r: Option<usize>)
        ensures
            match r {
                Some(i) => self.has_plan(plan_id) && i == plan_id - 1,
                None => !self.has_plan(plan_id),
            },
    {
        if plan_id == 0 {
            return None;
        }
        let index: u64 = plan_id - 1;
        if index < self.plans.len() as u64 {
            Some(index as usize)
        } else {
            None
        }
    }

    /// Checks that the plan `plan_id` exists and that `caller` owns it.
    pub fn owned_plan_index(&self, caller: &Address, plan_id: u64) -> (r: Result<
        usize,
        InheritanceError,
    >)
        ensures
            match r {
                Ok(i) => self.owner_error(*caller, plan_id) is None && i == plan_id - 1,
                Err(e) => self.owner_error(*caller, plan_id) == Some(e),
            },
    {
        match self.plan_index(plan_id) {
            None => Err(InheritanceError::PlanNotFound),
            Some(i) => {
                if self.plans[i].plan.owner != *caller {
                    Err(InheritanceError::Unauthorized)
                } else {
                    Ok(i)
                }
            },
        }
    }

    /// Names the administrator. It can be done once.
    pub fn initialize_admin(&mut self, admin: Address) -> (r: Result<(), InheritanceError>)
        requires
            old(self).wf(),
        ensures
            final(self).wf(),
            old(self).solvent() ==> final(self).solvent(),
            match r {
                Ok(_) => old(self).admin is None && final(self).admin == Some(admin),
                Err(e) => e == InheritanceError::AdminAlreadyInitialized && old(self).admin
                    is Some && final(self).admin == old(self).admin,
            },
            final(self).version == old(self).version,
            final(self).plans == old(self).plans,
            final(self).claims == old(self).claims,
            final(self).kyc == old(self).kyc,
            final(self).claimed_plans == old(self).claimed_plans,
            final(self).deactivated_plans == old(self).deactivated_plans,
    {
        if self.admin.is_some() {
            return Err(InheritanceError::AdminAlreadyInitialized);
        }
        self.admin = Some(admin);
        Ok(())
    }
}

} // verus!
