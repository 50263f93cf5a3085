//! What holds of a single plan: its allocation, its liquidity and when its
//! beneficiaries may claim.

use vstd::prelude::*;
use crate::digest::Digest;
use crate::inheritance::types::{
    Beneficiary, DistributionMethod, InheritancePlan, InheritanceTriggerInfo,
};

verus! {

/// Most beneficiaries a plan may name.
pub const MAX_BENEFICIARIES: usize = 10;

/// The whole of a plan in basis points.
pub const FULL_ALLOCATION_BP: u32 = 10000;

/// Seconds in a day.
pub const SECONDS_PER_DAY: u64 = 86400;

/// A plan together with the record of its trigger, if it was triggered.
#[derive(Clone, Debug, PartialEq, Eq)]
pub struct PlanRecord {
    pub plan: InheritancePlan,
    pub trigger: Option<InheritanceTriggerInfo>,
}

/// The sum of the beneficiaries' shares in basis points.
pub open spec fn allocation_sum(beneficiaries: Seq<Beneficiary>) -> int
    decreases beneficiaries.len(),
{
    if beneficiaries.len() == 0 {
        0
    } else {
        allocation_sum(beneficiaries.drop_last()) + beneficiaries.last().allocation_bp
    }
}

/// A plan is well formed when it names at most ten beneficiaries, each with
/// a share above zero, and its recorded total is the sum of their shares and
/// no more than the whole.
pub open spec fn plan_wf(plan: InheritancePlan) -> bool {
    &&& plan.beneficiaries@.len() <= MAX_BENEFICIARIES
    &&& allocation_sum(plan.beneficiaries@) == plan.total_allocation_bp
    &&& plan.total_allocation_bp <= FULL_ALLOCATION_BP
    &&& forall|i: int|
        0 <= i < plan.beneficiaries@.len() ==> (#[trigger] plan.beneficiaries@[i]).allocation_bp
            > 0
}

/// No more of a plan is lent out than it holds.
pub open spec fn plan_solvent(plan: InheritancePlan) -> bool {
    plan.total_loaned <= plan.total_amount
}

/// What a plan holds that is not lent out.
pub open spec fn available_liquidity(plan: InheritancePlan) -> int {
    if plan.total_loaned >= plan.total_amount {
        0
    } else {
        plan.total_amount - plan.total_loaned
    }
}

/// Seconds that must have passed since a plan's creation before a claim.
pub open spec fn claim_delay(method: DistributionMethod) -> int {
    match method {
        DistributionMethod::LumpSum => 0,
        DistributionMethod::Monthly => 2_592_000,
        DistributionMethod::Quarterly => 7_776_000,
        DistributionMethod::Yearly => 31_536_000,
    }
}

/// Whether a plan created at `created_at` may be claimed at `now`.
pub open spec fn claim_time_valid(method: DistributionMethod, created_at: u64, now: u64) -> bool {
    now - created_at >= claim_delay(method)
}

/// Whether the beneficiary at `i` is the one that `hashed_email` and
/// `hashed_claim_code` name.
pub open spec fn beneficiary_matches(
    beneficiaries: Seq<Beneficiary>,
    i: int,
    hashed_email: Digest,
    hashed_claim_code: Digest,
) -> bool {
    &&& 0 <= i < beneficiaries.len()
    &&& beneficiaries[i].hashed_email == hashed_email
    &&& beneficiaries[i].hashed_claim_code == hashed_claim_code
}

/// Whether `i` is the first position whose beneficiary matches.
pub open spec fn is_first_match(
    beneficiaries: Seq<Beneficiary>,
    i: int,
    hashed_email: Digest,
    hashed_claim_code: Digest,
) -> bool {
    &&& beneficiary_matches(beneficiaries, i, hashed_email, hashed_claim_code)
    &&& forall|j: int|
        0 <= j < i ==> !beneficiary_matches(beneficiaries, j, hashed_email, hashed_claim_code)
}

/// The first position whose beneficiary matches, if there is one.
pub open spec fn find_beneficiary(
    beneficiaries: Seq<Beneficiary>,
    hashed_email: Digest,
    hashed_claim_code: Digest,
) -> Option<int> {
    if exists|i: int| is_first_match(beneficiaries, i, hashed_email, hashed_claim_code) {
        Some(choose|i: int| is_first_match(beneficiaries, i, hashed_email, hashed_claim_code))
    } else {
        None
    }
}

/// Adding a beneficiary adds its share to the sum.
pub proof fn lemma_allocation_sum_push(beneficiaries: Seq<Beneficiary>, b: Beneficiary)
    ensures
        allocation_sum(beneficiaries.push(b)) == allocation_sum(beneficiaries) + b.allocation_bp,
{
    assert(beneficiaries.push(b).drop_last() =~= beneficiaries);
}

/// The sum is never negative.
pub proof fn lemma_allocation_sum_nonnegative(beneficiaries: Seq<Beneficiary>)
    ensures
        allocation_sum(beneficiaries) >= 0,
    decreases beneficiaries.len(),
{
    if beneficiaries.len() > 0 {
        lemma_allocation_sum_nonnegative(beneficiaries.drop_last());
    }
}

/// No single share exceeds the sum.
pub proof fn lemma_allocation_at_most_sum(beneficiaries: Seq<Beneficiary>, i: int)
    requires
        0 <= i < beneficiaries.len(),
    ensures
        beneficiaries[i].allocation_bp <= allocation_sum(beneficiaries),
    decreases beneficiaries.len(),
{
    lemma_allocation_sum_nonnegative(beneficiaries.drop_last());
    if i < beneficiaries.len() - 1 {
        lemma_allocation_at_most_sum(beneficiaries.drop_last(), i);
    }
}

/// Replacing the beneficiary at `i` changes the sum by the difference of the
/// two shares.
pub proof fn lemma_allocation_sum_update(beneficiaries: Seq<Beneficiary>, i: int, b: Beneficiary)
    requires
        0 <= i < beneficiaries.len(),
    ensures
        allocation_sum(beneficiaries.update(i, b)) == allocation_sum(beneficiaries)
            - beneficiaries[i].allocation_bp + b.allocation_bp,
    decreases beneficiaries.len(),
{
    let after = beneficiaries.update(i, b);
    if i == beneficiaries.len() - 1 {
        assert(after.drop_last() =~= beneficiaries.drop_last());
    } else {
        assert(after.drop_last() =~= beneficiaries.drop_last().update(i, b));
        lemma_allocation_sum_update(beneficiaries.drop_last(), i, b);
    }
}

/// Moving the last beneficiary into position `i` and dropping the last takes
/// the share that stood at `i` out of the sum.
pub proof fn lemma_allocation_sum_swap_remove(beneficiaries: Seq<Beneficiary>, i: int)
    requires
        0 <= i < beneficiaries.len(),
    ensures
        allocation_sum(beneficiaries.update(i, beneficiaries.last()).drop_last())
            == allocation_sum(beneficiaries) - beneficiaries[i].allocation_bp,
{
    let moved = beneficiaries.update(i, beneficiaries.last());
    lemma_allocation_sum_update(beneficiaries, i, beneficiaries.last());
    assert(moved.last() == beneficiaries.last());
}

/// Whether a plan created at `created_at` may be claimed at `now`.
pub fn is_claim_time_valid(method: DistributionMethod, created_at: u64, now: u64) -> (due: bool)
    requires
        created_at <= now,
    ensures
        due == claim_time_valid(method, created_at, now),
{
    let elapsed: u64 = now - created_at;
    match method {
        DistributionMethod::LumpSum => true,
        DistributionMethod::Monthly => elapsed >= 30 * SECONDS_PER_DAY,
        DistributionMethod::Quarterly => elapsed >= 90 * SECONDS_PER_DAY,
        DistributionMethod::Yearly => elapsed >= 365 * SECONDS_PER_DAY,
    }
}

/// Finds the first beneficiary that the two digests name.
pub fn locate_beneficiary(
    beneficiaries: &Vec<Beneficiary>,
    hashed_email: &Digest,
    hashed_claim_code: &Digest,
) -> (found: Option<usize>)
    ensures
        match found {
            Some(i) => find_beneficiary(beneficiaries@, *hashed_email, *hashed_claim_code)
                == Some(i as int) && i < beneficiaries@.len(),
            None => find_beneficiary(beneficiaries@, *hashed_email, *hashed_claim_code)
                is None,
        },
{
    let mut i: usize = 0;
    while i < beneficiaries.len()
        invariant
            i <= beneficiaries@.len(),
            forall|j: int|
                0 <= j < i ==> !beneficiary_matches(
                    beneficiaries@,
                    j,
                    *hashed_email,
                    *hashed_claim_code,
                ),
        decreases beneficiaries@.len() - i,
    {
        if beneficiaries[i].hashed_email.same(hashed_email) && beneficiaries[i].hashed_claim_code.same(
            hashed_claim_code,
        ) {
            proof {
                let bs = beneficiaries@;
                let he = *hashed_email;
                let hc = *hashed_claim_code;
                assert(is_first_match(bs, i as int, he, hc));
                let c = choose|c: int| is_first_match(bs, c, he, hc);
                assert(is_first_match(bs, c, he, hc));
                if c < i {
                    assert(!beneficiary_matches(bs, c, he, hc));
                }
                if i < c {
                    assert(!beneficiary_matches(bs, i as int, he, hc));
                }
            }
            return Some(i);
        }
        i += 1;
    }
    None
}

/// Whether a plan is well formed.
pub fn check_plan_wf(plan: &InheritancePlan) -> (ok: bool)
    ensures
        ok == plan_wf(*plan),
{
    if plan.beneficiaries.len() > MAX_BENEFICIARIES {
        return false;
    }
    if total_allocation(&plan.beneficiaries) != plan.total_allocation_bp as u64 {
        return false;
    }
    if plan.total_allocation_bp > FULL_ALLOCATION_BP {
        return false;
    }
    let mut i: usize = 0;
    while i < plan.beneficiaries.len()
        invariant
            i <= plan.beneficiaries@.len(),
            forall|j: int|
                0 <= j < i ==> (#[trigger] plan.beneficiaries@[j]).allocation_bp > 0,
        decreases plan.beneficiaries@.len() - i,
    {
        if plan.beneficiaries[i].allocation_bp == 0 {
            return false;
        }
        i += 1;
    }
    true
}

/// The sum of the beneficiaries' shares.
pub fn total_allocation(beneficiaries: &Vec<Beneficiary>) -> (total: u64)
    requires
        beneficiaries@.len() <= u32::MAX,
    ensures
        total == allocation_sum(beneficiaries@),
{
    let mut total: u64 = 0;
    let mut i: usize = 0;
    while i < beneficiaries.len()
        invariant
            i <= beneficiaries@.len(),
            beneficiaries@.len() <= u32::MAX,
            total == allocation_sum(beneficiaries@.subrange(0, i as int)),
            total <= i * u32::MAX,
        decreases beneficiaries@.len() - i,
    {
        assert(beneficiaries@.subrange(0, i + 1).drop_last() =~= beneficiaries@.subrange(
            0,
            i as int,
        ));
        assert(i * u32::MAX + u32::MAX <= u32::MAX * u32::MAX) by (nonlinear_arith)
            requires
                i < u32::MAX,
        ;
        total = total + beneficiaries[i].allocation_bp as u64;
        i += 1;
        assert(total <= i * u32::MAX) by (nonlinear_arith)
            requires
                total <= (i - 1) * u32::MAX + u32::MAX,
        ;
    }
    assert(beneficiaries@.subrange(0, beneficiaries@.len() as int) =~= beneficiaries@);
    total
}

} // verus!
