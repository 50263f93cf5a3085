//! The version of the contract's code and its upgrades.

use vstd::prelude::*;
use crate::address::Address;
use crate::digest::Digest;
use crate::inheritance::contract::{InheritanceContract, CONTRACT_VERSION};
use crate::inheritance::events::ContractUpgradedEvent;
use crate::inheritance::types::InheritanceError;

verus! {

impl InheritanceContract {
    /// The version in force: the one recorded, or the one this code stands
    /// for where none is.
    pub open spec fn spec_version(&self) -> u32 {
        match self.version {
            Some(v) => v,
            None => CONTRACT_VERSION,
        }
    }

    /// Why a migration is refused, if it is: the caller is not the
    /// administrator, or a version is recorded that is not older than this
    /// code's.
    pub open spec fn migrate_error(&self, admin: Address) -> Option<InheritanceError> {
        if self.admin_error(admin) is Some {
            self.admin_error(admin)
        } else if self.version is Some && self.version.unwrap() >= CONTRACT_VERSION {
            Some(InheritanceError::MigrationNotRequired)
        } else {
            None
        }
    }

    /// Whether everything but the version is the same in `self` and in
    /// `before`.
    pub open spec fn all_but_version_kept(&self, before: &Self) -> bool {
        &&& self.admin == before.admin
        &&& self.plans == before.plans
        &&& self.claims == before.claims
        &&& self.kyc == before.kyc
        &&& self.claimed_plans == before.claimed_plans
        &&& self.deactivated_plans == before.deactivated_plans
    }

    /// The version in force.
    pub fn version(&self) -> (v: u32)
        ensures
            v == self.spec_version(),
    {
        match self.version {
            Some(v) => v,
            None => CONTRACT_VERSION,
        }
    }

    /// Records an upgrade of the code to `new_wasm_hash` at the ledger time
    /// `now`: the version goes up by one and everything else is kept. The
    /// host swaps the code once the event returned is published.
    ///
    /// The new version must be a `u32`.
    pub fn upgrade(&mut self, admin: Address, new_wasm_hash: Digest, now: u64) -> (r: Result<
        ContractUpgradedEvent,
        InheritanceError,
    >)
        requires
            old(self).wf(),
            old(self).admin_error(admin) is None ==> old(self).spec_version() < u32::MAX,
        ensures
            final(self).wf(),
            old(self).solvent() ==> final(self).solvent(),
            final(self).all_but_version_kept(old(self)),
            match r {
                Ok(event) => {
                    &&& old(self).admin_error(admin) is None
                    &&& final(self).version == Some((old(self).spec_version() + 1) as u32)
                    &&& event == (ContractUpgradedEvent {
                        old_version: old(self).spec_version(),
                        new_version: (old(self).spec_version() + 1) as u32,
                        new_wasm_hash,
                        admin,
                        upgraded_at: now,
                    })
                },
                Err(e) => {
                    &&& old(self).admin_error(admin) == Some(e)
                    &&& final(self).version == old(self).version
                },
            },
    {
        match self.require_admin(&admin) {
            Err(e) => {
                return Err(e);
            },
            Ok(_) => {},
        }
        let old_version = self.version();
        let new_version: u32 = old_version + 1;
        self.version = Some(new_version);
        Ok(
            ContractUpgradedEvent {
                old_version,
                new_version,
                new_wasm_hash,
                admin,
                upgraded_at: now,
            },
        )
    }

    /// Brings the recorded version up to this code's, where none is recorded
    /// or an older one.
    pub fn migrate(&mut self, admin: Address) -> (r: Result<(), InheritanceError>)
        requires
            old(self).wf(),
        ensures
            final(self).wf(),
            old(self).solvent() ==> final(self).solvent(),
            final(self).all_but_version_kept(old(self)),
            match r {
                Ok(_) => {
                    &&& old(self).migrate_error(admin) is None
                    &&& final(self).version == Some(CONTRACT_VERSION)
                },
                Err(e) => {
                    &&& old(self).migrate_error(admin) == Some(e)
                    &&& final(self).version == old(self).version
                },
            },
    {
        match self.require_admin(&admin) {
            Err(e) => {
                return Err(e);
            },
            Ok(_) => {},
        }
        let stored: u32 = match self.version {
            Some(v) => v,
            None => 0,
        };
        if stored >= CONTRACT_VERSION {
            return Err(InheritanceError::MigrationNotRequired);
        }
        self.version = Some(CONTRACT_VERSION);
        Ok(())
    }
}

} // verus!
