//! Identity checks: a user submits, the administrator approves or rejects.

use vstd::prelude::*;
use crate::address::Address;
use crate::inheritance::contract::InheritanceContract;
use crate::inheritance::events::{KycApprovedEvent, KycRejectedEvent};
use crate::inheritance::types::{InheritanceError, KycStatus};

verus! {

/// The status of a user of whom nothing is recorded.
pub open spec fn blank_kyc() -> KycStatus {
    KycStatus {
        submitted: false,
        approved: false,
        rejected: false,
        submitted_at: 0,
        approved_at: 0,
        rejected_at: 0,
    }
}

impl InheritanceContract {
    /// The status recorded of `user`, or the blank status.
    pub open spec fn kyc_of(&self, user: Address) -> KycStatus {
        if self.kyc@.contains_key(user) {
            self.kyc@[user]
        } else {
            blank_kyc()
        }
    }

    /// Why the administrator may not decide on a user's check, if it may
    /// not: the caller is not the administrator, or the user has not
    /// submitted.
    pub open spec fn kyc_decision_error(&self, admin: Address, user: Address) -> Option<
        InheritanceError,
    > {
        if self.admin_error(admin) is Some {
            self.admin_error(admin)
        } else if !self.kyc@.contains_key(user) || !self.kyc@[user].submitted {
            Some(InheritanceError::KycNotSubmitted)
        } else {
            None
        }
    }

    /// Why an approval is refused, if it is: no decision can be made, the
    /// check was approved before, or it was rejected.
    pub open spec fn approve_kyc_error(&self, admin: Address, user: Address) -> Option<
        InheritanceError,
    > {
        if self.kyc_decision_error(admin, user) is Some {
            self.kyc_decision_error(admin, user)
        } else if self.kyc@[user].approved {
            Some(InheritanceError::KycAlreadyApproved)
        } else if self.kyc@[user].rejected {
            Some(InheritanceError::KycAlreadyRejected)
        } else {
            None
        }
    }

    /// Why a rejection is refused, if it is: no decision can be made, the
    /// check was rejected before, or it was approved.
    pub open spec fn reject_kyc_error(&self, admin: Address, user: Address) -> Option<
        InheritanceError,
    > {
        if self.kyc_decision_error(admin, user) is Some {
            self.kyc_decision_error(admin, user)
        } else if self.kyc@[user].rejected {
            Some(InheritanceError::KycAlreadyRejected)
        } else if self.kyc@[user].approved {
            Some(InheritanceError::KycAlreadyApproved)
        } else {
            None
        }
    }

    /// Whether everything but the identity checks is the same in `self` and
    /// in `before`.
    pub open spec fn all_but_kyc_kept(&self, before: &Self) -> bool {
        &&& self.admin == before.admin
        &&& self.version == before.version
        &&& self.plans == before.plans
        &&& self.claims == before.claims
        &&& self.claimed_plans == before.claimed_plans
        &&& self.deactivated_plans == before.deactivated_plans
    }

    /// The status of a user's check that the administrator may decide on.
    fn kyc_to_decide(&self, admin: &Address, user: &Address) -> (r: Result<
        KycStatus,
        InheritanceError,
    >)
        requires
            self.wf(),
        ensures
            match r {
                Ok(status) => self.kyc_decision_error(*admin, *user) is None && status
                    == self.kyc@[*user],
                Err(e) => self.kyc_decision_error(*admin, *user) == Some(e),
            },
    {
        match self.require_admin(admin) {
            Err(e) => {
                return Err(e);
            },
            Ok(_) => {},
        }
        match self.kyc.get(user) {
            None => Err(InheritanceError::KycNotSubmitted),
            Some(status) => {
                if !status.submitted {
                    Err(InheritanceError::KycNotSubmitted)
                } else {
                    Ok(status)
                }
            },
        }
    }

    /// Records at the ledger time `now` that `user` has submitted for an
    /// identity check. It may be repeated until the check is approved.
    pub fn submit_kyc(&mut self, user: Address, now: u64) -> (r: Result<(), InheritanceError>)
        requires
            old(self).wf(),
        ensures
            final(self).wf(),
            old(self).solvent() ==> final(self).solvent(),
            final(self).all_but_kyc_kept(old(self)),
            match r {
                Ok(_) => {
                    &&& !old(self).kyc_of(user).approved
                    &&& final(self).kyc@ == old(self).kyc@.insert(
                        user,
                        KycStatus { submitted: true, submitted_at: now, ..old(self).kyc_of(user) },
                    )
                },
                Err(e) => {
                    &&& e == InheritanceError::KycAlreadyApproved
                    &&& old(self).kyc_of(user).approved
                    &&& final(self).kyc == old(self).kyc
                },
            },
    {
        let status = match self.kyc.get(&user) {
            Some(s) => s,
            None => KycStatus {
                submitted: false,
                approved: false,
                rejected: false,
                submitted_at: 0,
                approved_at: 0,
                rejected_at: 0,
            },
        };
        if status.approved {
            return Err(InheritanceError::KycAlreadyApproved);
        }
        self.kyc.set(
            user,
            KycStatus {
                submitted: true,
                approved: status.approved,
                rejected: status.rejected,
                submitted_at: now,
                approved_at: status.approved_at,
                rejected_at: status.rejected_at,
            },
        );
        Ok(())
    }

    /// Approves a submitted identity check at the ledger time `now`. A check
    /// can be approved once, and not after it was rejected.
    pub fn approve_kyc(&mut self, admin: Address, user: Address, now: u64) -> (r: Result<
        KycApprovedEvent,
        InheritanceError,
    >)
        requires
            old(self).wf(),
        ensures
            final(self).wf(),
            old(self).solvent() ==> final(self).solvent(),
            final(self).all_but_kyc_kept(old(self)),
            match r {
                Ok(event) => {
                    &&& old(self).approve_kyc_error(admin, user) is None
                    &&& final(self).kyc@ == old(self).kyc@.insert(
                        user,
                        KycStatus { approved: true, approved_at: now, ..old(self).kyc@[user] },
                    )
                    &&& event == (KycApprovedEvent { user, approved_at: now })
                },
                Err(e) => {
                    &&& old(self).approve_kyc_error(admin, user) == Some(e)
                    &&& final(self).kyc == old(self).kyc
                },
            },
    {
        let status = match self.kyc_to_decide(&admin, &user) {
            Ok(s) => s,
            Err(e) => {
                return Err(e);
            },
        };
        if status.approved {
            return Err(InheritanceError::KycAlreadyApproved);
        }
        if status.rejected {
            return Err(InheritanceError::KycAlreadyRejected);
        }
        self.kyc.set(
            user,
            KycStatus {
                submitted: status.submitted,
                approved: true,
                rejected: status.rejected,
                submitted_at: status.submitted_at,
                approved_at: now,
                rejected_at: status.rejected_at,
            },
        );
        Ok(KycApprovedEvent { user, approved_at: now })
    }

    /// Rejects a submitted identity check at the ledger time `now`. A check
    /// can be rejected once, and not after it was approved.
    pub fn reject_kyc(&mut self, admin: Address, user: Address, now: u64) -> (r: Result<
        KycRejectedEvent,
        InheritanceError,
    >)
        requires
            old(self).wf(),
        ensures
            final(self).wf(),
            old(self).solvent() ==> final(self).solvent(),
            final(self).all_but_kyc_kept(old(self)),
            match r {
                Ok(event) => {
                    &&& old(self).reject_kyc_error(admin, user) is None
                    &&& final(self).kyc@ == old(self).kyc@.insert(
                        user,
                        KycStatus { rejected: true, rejected_at: now, ..old(self).kyc@[user] },
                    )
                    &&& event == (KycRejectedEvent { user, rejected_at: now })
                },
                Err(e) => {
                    &&& old(self).reject_kyc_error(admin, user) == Some(e)
                    &&& final(self).kyc == old(self).kyc
                },
            },
    {
        let status = match self.kyc_to_decide(&admin, &user) {
            Ok(s) => s,
            Err(e) => {
                return Err(e);
            },
        };
        if status.rejected {
            return Err(InheritanceError::KycAlreadyRejected);
        }
        if status.approved {
            return Err(InheritanceError::KycAlreadyApproved);
        }
        self.kyc.set(
            user,
            KycStatus {
                submitted: status.submitted,
                approved: status.approved,
                rejected: true,
                submitted_at: status.submitted_at,
                approved_at: status.approved_at,
                rejected_at: now,
            },
        );
        Ok(KycRejectedEvent { user, rejected_at: now })
    }

    /// The status recorded of `user`, if any is.
    pub fn get_kyc(&self, user: &Address) -> (r: Option<KycStatus>)
        requires
            self.wf(),
        ensures
            r == (if self.kyc@.contains_key(*user) {
                Some(self.kyc@[*user])
            } else {
                None
            }),
    {
        self.kyc.get(user)
    }
}

} // verus!
