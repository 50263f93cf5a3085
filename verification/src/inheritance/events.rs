//! What the inheritance vault publishes. Each operation hands its events
//! back to the host, which publishes them once the state is written.

use vstd::prelude::*;
use crate::address::Address;
use crate::digest::Digest;

verus! {

/// Topic `BENEFIC/ADD`.
#[derive(Clone, Copy, Debug, PartialEq, Eq)]
pub struct BeneficiaryAddedEvent {
    pub plan_id: u64,
    pub hashed_email: Digest,
    pub allocation_bp: u32,
}

/// Topic `BENEFIC/REMOVE`.
#[derive(Clone, Copy, Debug, PartialEq, Eq)]
pub struct BeneficiaryRemovedEvent {
    pub plan_id: u64,
    pub index: u32,
    pub allocation_bp: u32,
}

/// Topic `PLAN/DEACT`.
#[derive(Clone, Copy, Debug, PartialEq, Eq)]
pub struct PlanDeactivatedEvent {
    pub plan_id: u64,
    pub owner: Address,
    pub total_amount: u64,
    pub deactivated_at: u64,
}

/// Topic `KYC/APPROV`.
#[derive(Clone, Copy, Debug, PartialEq, Eq)]
pub struct KycApprovedEvent {
    pub user: Address,
    pub approved_at: u64,
}

/// Topic `KYC/REJECT`.
#[derive(Clone, Copy, Debug, PartialEq, Eq)]
pub struct KycRejectedEvent {
    pub user: Address,
    pub rejected_at: u64,
}

/// Topic `CONTRACT/UPGRADE`.
#[derive(Clone, Copy, Debug, PartialEq, Eq)]
pub struct ContractUpgradedEvent {
    pub old_version: u32,
    pub new_version: u32,
    pub new_wasm_hash: Digest,
    pub admin: Address,
    pub upgraded_at: u64,
}

/// Topic `VAULT/DEPOSIT`.
#[derive(Clone, Copy, Debug, PartialEq, Eq)]
pub struct VaultDepositEvent {
    pub plan_id: u64,
    pub amount: u64,
}

/// Topic `VAULT/WITHDRAW`.
#[derive(Clone, Copy, Debug, PartialEq, Eq)]
pub struct VaultWithdrawEvent {
    pub plan_id: u64,
    pub amount: u64,
}

/// Topic `VAULT/LENDABLE`.
#[derive(Clone, Copy, Debug, PartialEq, Eq)]
pub struct VaultLendableChangedEvent {
    pub plan_id: u64,
    pub is_lendable: bool,
}

/// Topic `INHERIT/TRIGGER`.
#[derive(Clone, Copy, Debug, PartialEq, Eq)]
pub struct InheritanceTriggeredEvent {
    pub plan_id: u64,
    pub triggered_at: u64,
    pub outstanding_loans: u64,
}

/// Topic `LOAN/FREEZE`.
#[derive(Clone, Copy, Debug, PartialEq, Eq)]
pub struct LoanFreezeEvent {
    pub plan_id: u64,
    pub frozen_at: u64,
}

/// Topic `LOAN/RECALL`.
#[derive(Clone, Copy, Debug, PartialEq, Eq)]
pub struct LoanRecallEvent {
    pub plan_id: u64,
    pub recalled_amount: u64,
    pub remaining_loaned: u64,
}

/// Topic `LOAN/LIQUIDAT`.
#[derive(Clone, Copy, Debug, PartialEq, Eq)]
pub struct LiquidationFallbackEvent {
    pub plan_id: u64,
    pub settled_amount: u64,
    pub claimable_amount: u64,
}

/// Topic `CLAIM/SUCCESS`.
#[derive(Clone, Copy, Debug, PartialEq, Eq)]
pub struct ClaimSuccessEvent {
    pub plan_id: u64,
    pub hashed_email: Digest,
    pub payout: u64,
}

} // verus!
