//! What holds of the vault across its operations.

use vstd::prelude::*;
use crate::digest::{spec_claim_key, spec_hash_string};
use crate::inheritance::claim::claim_payout;
use crate::inheritance::contract::InheritanceContract;
use crate::inheritance::plan::{allocation_sum, available_liquidity, plan_solvent, plan_wf};
use crate::inheritance::types::InheritanceError;

verus! {

/// A claim is made once. Where a claim at `now` succeeded and left `after`
/// behind, its key is recorded there, and the same claim at `now` or later
/// is refused as claimed already.
pub proof fn lemma_claim_is_made_once(
    before: InheritanceContract,
    after: InheritanceContract,
    plan_id: u64,
    email: Seq<char>,
    claim_code: u32,
    now: u64,
    later: u64,
)
    requires
        before.claim_error(plan_id, email, claim_code, now) is None,
        after.claim_applied(&before, plan_id, email, claim_code, now),
        now <= later,
    ensures
        after.claims@.contains_key(spec_claim_key(plan_id, spec_hash_string(email))),
        after.claim_error(plan_id, email, claim_code, later) == Some(
            InheritanceError::AlreadyClaimed,
        ),
{
}

/// A claim keeps a plan solvent unless it pays more than the plan holds
/// that is not lent out, which only a claim on a triggered plan can.
pub proof fn lemma_claim_keeps_solvency(
    before: InheritanceContract,
    after: InheritanceContract,
    plan_id: u64,
    email: Seq<char>,
    claim_code: u32,
    now: u64,
)
    requires
        before.wf(),
        before.solvent(),
        before.claim_error(plan_id, email, claim_code, now) is None,
        after.claim_applied(&before, plan_id, email, claim_code, now),
        before.trigger_at(plan_id) is None || claim_payout(
            before.plan_at(plan_id),
            before.claimant(plan_id, email, claim_code),
        ) <= available_liquidity(before.plan_at(plan_id)),
    ensures
        after.solvent(),
{
    let plan = before.plan_at(plan_id);
    assert(plan_solvent(before.plans@[plan_id - 1].plan));
    assert forall|k: int| 0 <= k < after.plans@.len() implies plan_solvent(
        (#[trigger] after.plans@[k]).plan,
    ) by {
        assert(plan_solvent(before.plans@[k].plan));
    }
}

/// In a well-formed state every plan's recorded total is the sum of its
/// beneficiaries' shares.
pub proof fn lemma_allocation_totals(state: InheritanceContract, plan_id: u64)
    requires
        state.wf(),
        state.has_plan(plan_id),
    ensures
        allocation_sum(state.plan_at(plan_id).beneficiaries@)
            == state.plan_at(plan_id).total_allocation_bp,
{
    assert(plan_wf(state.plans@[plan_id - 1].plan));
}

} // verus!
