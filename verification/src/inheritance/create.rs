//! Creating a plan.

use vstd::prelude::*;
use crate::address::{Party, Transfer};
use crate::digest::copy_bytes;
use crate::math::{bps_of, bps_share, lemma_bps_of_bounded};
use crate::inheritance::contract::{InheritanceContract, CREATION_FEE_BP};
use crate::inheritance::plan::{
    allocation_sum, lemma_allocation_sum_push, plan_wf, plan_solvent, PlanRecord,
    FULL_ALLOCATION_BP,
};
use crate::inheritance::types::{
    Beneficiary, BeneficiaryView, CreateInheritancePlanParams, InheritanceError, InheritancePlan,
    PlanView,
};
use crate::inheritance::validation::{
    beneficiaries_error, beneficiary_error, hashable, plan_inputs_error, spec_beneficiary,
    stated_allocation, BeneficiaryData,
};

verus! {

/// The creation fee on `total_amount`: two percent, rounded down.
pub open spec fn spec_creation_fee(total_amount: u64) -> int {
    bps_of(total_amount as int, CREATION_FEE_BP as int)
}

/// The first reason for which one of the stated beneficiaries is refused, in
/// the order in which they are stated.
pub open spec fn first_beneficiary_error(data: Seq<BeneficiaryData>) -> Option<InheritanceError>
    decreases data.len(),
{
    if data.len() == 0 {
        None
    } else {
        match first_beneficiary_error(data.drop_last()) {
            Some(e) => Some(e),
            None => beneficiary_error(
                data.last().0@,
                data.last().1@,
                data.last().2,
                data.last().3@,
                data.last().4,
            ),
        }
    }
}

/// The beneficiaries that the statements make.
pub open spec fn stated_beneficiaries(data: Seq<BeneficiaryData>) -> Seq<BeneficiaryView> {
    Seq::new(
        data.len(),
        |i: int| spec_beneficiary(data[i].0@, data[i].1@, data[i].2, data[i].3@, data[i].4),
    )
}

/// Whether every stated name and email is short enough to be hashed.
pub open spec fn all_hashable(data: Seq<BeneficiaryData>) -> bool {
    forall|i: int|
        0 <= i < data.len() ==> hashable((#[trigger] data[i]).0@) && hashable(data[i].1@)
}

/// The plan that a creation at `now` stores.
pub open spec fn created_plan(params: CreateInheritancePlanParams, now: u64) -> PlanView {
    PlanView {
        plan_name: params.plan_name@,
        description: params.description@,
        asset_type: "USDC"@,
        total_amount: (params.total_amount - spec_creation_fee(params.total_amount)) as u64,
        distribution_method: params.distribution_method,
        beneficiaries: stated_beneficiaries(params.beneficiaries_data@),
        total_allocation_bp: FULL_ALLOCATION_BP,
        owner: params.owner,
        created_at: now,
        is_active: true,
        is_lendable: params.is_lendable,
        total_loaned: 0,
    }
}

impl InheritanceContract {
    /// Why a creation is refused, if it is. The checks come in this order:
    /// an administrator must be named to receive the fee; something must
    /// remain after the fee; the plan must have a name and a description of
    /// at most 500 bytes; the owner's balance must cover what is paid in; the
    /// fee, where there is one, and then the remainder must have been moved;
    /// the beneficiaries must be one to ten with shares that sum to the
    /// whole; and each of them must be stated in full.
    pub open spec fn create_error(
        &self,
        params: CreateInheritancePlanParams,
        balance: i128,
        fee_transfer_ok: bool,
        net_transfer_ok: bool,
    ) -> Option<InheritanceError> {
        let fee = spec_creation_fee(params.total_amount);
        let inputs = plan_inputs_error(
            params.plan_name@,
            params.description@,
            "USDC"@,
            params.total_amount,
        );
        if self.admin is None {
            Some(InheritanceError::AdminNotSet)
        } else if params.total_amount - fee == 0 {
            Some(InheritanceError::InvalidTotalAmount)
        } else if inputs is Some {
            inputs
        } else if balance < params.total_amount {
            Some(InheritanceError::InsufficientBalance)
        } else if fee > 0 && !fee_transfer_ok {
            Some(InheritanceError::FeeTransferFailed)
        } else if !net_transfer_ok {
            Some(InheritanceError::FeeTransferFailed)
        } else if beneficiaries_error(params.beneficiaries_data@) is Some {
            beneficiaries_error(params.beneficiaries_data@)
        } else {
            first_beneficiary_error(params.beneficiaries_data@)
        }
    }

    /// The creation fee on `total_amount`.
    pub fn creation_fee(total_amount: u64) -> (fee: u64)
        ensures
            fee == spec_creation_fee(total_amount),
            fee == total_amount * 200 / 10000,
            fee <= total_amount,
            fee == 0 <==> total_amount < 50,
            total_amount - fee == 0 <==> total_amount == 0,
    {
        proof {
            lemma_bps_of_bounded(total_amount as int, CREATION_FEE_BP as int);
        }
        bps_share(total_amount, CREATION_FEE_BP)
    }

    /// The transfers that a creation asks of the host, in this order: the
    /// creation fee from the owner to the administrator, where there is a
    /// fee and an administrator to receive it, and then the remainder from
    /// the owner to the vault.
    pub fn creation_transfers(&self, params: &CreateInheritancePlanParams) -> (transfers: (
        Option<Transfer>,
        Transfer,
    ))
        ensures
            transfers.0 == (if self.admin is Some && spec_creation_fee(params.total_amount) > 0 {
                Some(
                    Transfer {
                        token: params.token,
                        from: Party::Holder(params.owner),
                        to: Party::Holder(self.admin.unwrap()),
                        amount: spec_creation_fee(params.total_amount) as i128,
                    },
                )
            } else {
                None
            }),
            transfers.1 == (Transfer {
                token: params.token,
                from: Party::Holder(params.owner),
                to: Party::Contract,
                amount: (params.total_amount - spec_creation_fee(params.total_amount)) as i128,
            }),
    {
        let fee = Self::creation_fee(params.total_amount);
        let fee_transfer = match self.admin {
            Some(admin) => {
                if fee > 0 {
                    Some(
                        Transfer {
                            token: params.token,
                            from: Party::Holder(params.owner),
                            to: Party::Holder(admin),
                            amount: fee as i128,
                        },
                    )
                } else {
                    None
                }
            },
            None => None,
        };
        (
            fee_transfer,
            Transfer {
                token: params.token,
                from: Party::Holder(params.owner),
                to: Party::Contract,
                amount: (params.total_amount - fee) as i128,
            },
        )
    }

    /// Creates a plan for `params.owner` and returns its number.
    ///
    /// The owner pays in `params.total_amount`: the creation fee goes to the
    /// administrator, the remainder into the plan. `balance` is the owner's
    /// token balance; `fee_transfer_ok` and `net_transfer_ok` say whether the
    /// token contract carried out the two transfers that
    /// `creation_transfers` names. Where the call is refused nothing
    /// changes.
    ///
    /// The number after the new plan's must still be a `u64`, and every
    /// stated name and email short enough to be hashed.
    #[verifier::loop_isolation(false)]
    pub fn create_inheritance_plan(
        &mut self,
        params: CreateInheritancePlanParams,
        balance: i128,
        fee_transfer_ok: bool,
        net_transfer_ok: bool,
        now: u64,
    ) -> (r: Result<u64, InheritanceError>)
        requires
            old(self).wf(),
            old(self).plans@.len() + 1 < u64::MAX,
            all_hashable(params.beneficiaries_data@),
        ensures
            final(self).wf(),
            old(self).solvent() ==> final(self).solvent(),
            final(self).registers_kept(old(self)),
            match r {
                Ok(plan_id) => {
                    &&& old(self).create_error(params, balance, fee_transfer_ok, net_transfer_ok)
                        is None
                    &&& plan_id == old(self).plans@.len() + 1
                    &&& final(self).plans@.len() == old(self).plans@.len() + 1
                    &&& final(self).plans@.drop_last() == old(self).plans@
                    &&& final(self).plans@.last().trigger is None
                    &&& final(self).plans@.last().plan@ == created_plan(params, now)
                },
                Err(e) => {
                    &&& old(self).create_error(params, balance, fee_transfer_ok, net_transfer_ok)
                        == Some(e)
                    &&& final(self).plans == old(self).plans
                },
            },
    {
        let CreateInheritancePlanParams {
            owner,
            token: _,
            plan_name,
            description,
            total_amount,
            distribution_method,
            beneficiaries_data,
            is_lendable,
        } = params;
        if self.admin.is_none() {
            return Err(InheritanceError::AdminNotSet);
        }
        let fee = Self::creation_fee(total_amount);
        let net_amount: u64 = total_amount - fee;
        if net_amount == 0 {
            return Err(InheritanceError::InvalidTotalAmount);
        }
        let usdc = "USDC".to_owned();
        match Self::validate_plan_inputs(&plan_name, &description, &usdc, total_amount) {
            Err(e) => {
                return Err(e);
            },
            Ok(_) => {},
        }
        if balance < total_amount as i128 {
            return Err(InheritanceError::InsufficientBalance);
        }
        if fee > 0 && !fee_transfer_ok {
            return Err(InheritanceError::FeeTransferFailed);
        }
        if !net_transfer_ok {
            return Err(InheritanceError::FeeTransferFailed);
        }
        match Self::validate_beneficiaries(&beneficiaries_data) {
            Err(e) => {
                return Err(e);
            },
            Ok(_) => {},
        }
        let mut beneficiaries: Vec<Beneficiary> = Vec::new();
        let mut i: usize = 0;
        while i < beneficiaries_data.len()
            invariant
                i <= beneficiaries_data@.len(),
                *self == *old(self),
                beneficiaries@.len() == i,
                first_beneficiary_error(beneficiaries_data@.subrange(0, i as int)) is None,
                allocation_sum(beneficiaries@) == stated_allocation(
                    beneficiaries_data@.subrange(0, i as int),
                ),
                forall|j: int|
                    0 <= j < i ==> (#[trigger] beneficiaries@[j])@ == stated_beneficiaries(
                        beneficiaries_data@,
                    )[j],
                forall|j: int| 0 <= j < i ==> (#[trigger] beneficiaries@[j]).allocation_bp > 0,
            decreases beneficiaries_data@.len() - i,
        {
            let ghost prefix = beneficiaries_data@.subrange(0, i as int);
            let ghost next = beneficiaries_data@.subrange(0, i + 1);
            assert(next.drop_last() =~= prefix);
            assert(next.last() == beneficiaries_data@[i as int]);
            let entry = &beneficiaries_data[i];
            let bank_account = copy_bytes(&entry.3);
            match Self::create_beneficiary(&entry.0, &entry.1, entry.2, bank_account, entry.4) {
                Err(e) => {
                    proof {
                        lemma_first_error_extends(beneficiaries_data@, i + 1);
                    }
                    return Err(e);
                },
                Ok(b) => {
                    proof {
                        lemma_allocation_sum_push(beneficiaries@, b);
                    }
                    beneficiaries.push(b);
                },
            }
            i += 1;
        }
        assert(beneficiaries_data@.subrange(0, beneficiaries_data@.len() as int)
            =~= beneficiaries_data@);
        let plan = InheritancePlan {
            plan_name,
            description,
            asset_type: usdc,
            total_amount: net_amount,
            distribution_method,
            beneficiaries,
            total_allocation_bp: FULL_ALLOCATION_BP,
            owner,
            created_at: now,
            is_active: true,
            is_lendable,
            total_loaned: 0,
        };
        assert(plan@.beneficiaries =~= stated_beneficiaries(beneficiaries_data@));
        assert(plan_wf(plan));
        assert(plan_solvent(plan));
        let plan_id: u64 = self.plans.len() as u64 + 1;
        self.plans.push(PlanRecord { plan, trigger: None });
        assert(self.plans@.drop_last() =~= old(self).plans@);
        assert forall|k: int| 0 <= k < self.plans@.len() implies plan_wf(
            (#[trigger] self.plans@[k]).plan,
        ) by {
            if k < old(self).plans@.len() {
                assert(self.plans@[k] == old(self).plans@[k]);
            }
        }
        assert(old(self).solvent() ==> self.solvent()) by {
            if old(self).solvent() {
                assert forall|k: int| 0 <= k < self.plans@.len() implies plan_solvent(
                    (#[trigger] self.plans@[k]).plan,
                ) by {
                    if k < old(self).plans@.len() {
                        assert(self.plans@[k] == old(self).plans@[k]);
                    }
                }
            }
        }
        Ok(plan_id)
    }
}

/// An error among the first `n` stated beneficiaries is the first error of
/// the whole list.
pub proof fn lemma_first_error_extends(data: Seq<BeneficiaryData>, n: int)
    requires
        0 <= n <= data.len(),
        first_beneficiary_error(data.subrange(0, n)) is Some,
    ensures
        first_beneficiary_error(data) == first_beneficiary_error(data.subrange(0, n)),
    decreases data.len() - n,
{
    if n == data.len() {
        assert(data.subrange(0, n) =~= data);
    } else {
        assert(data.subrange(0, n + 1).drop_last() =~= data.subrange(0, n));
        lemma_first_error_extends(data, n + 1);
    }
}

} // verus!
