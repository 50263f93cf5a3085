//! Records of the inheritance vault.

use vstd::prelude::*;
use crate::address::Address;
use crate::digest::Digest;

verus! {

/// When a plan's beneficiaries may claim.
#[derive(Clone, Copy, Debug, PartialEq, Eq, Structural)]
pub enum DistributionMethod {
    LumpSum,
    Monthly,
    Quarterly,
    Yearly,
}

/// Why a call into the inheritance vault was refused.
#[derive(Clone, Copy, Debug, PartialEq, Eq, Structural)]
pub enum InheritanceError {
    InvalidAssetType,
    InvalidTotalAmount,
    MissingRequiredField,
    TooManyBeneficiaries,
    InvalidClaimCode,
    AllocationPercentageMismatch,
    DescriptionTooLong,
    InvalidBeneficiaryData,
    Unauthorized,
    PlanNotFound,
    InvalidBeneficiaryIndex,
    AllocationExceedsLimit,
    InvalidAllocation,
    InvalidClaimCodeRange,
    ClaimNotAllowedYet,
    AlreadyClaimed,
    BeneficiaryNotFound,
    PlanAlreadyDeactivated,
    PlanNotActive,
    AdminNotSet,
    AdminAlreadyInitialized,
    NotAdmin,
    KycNotSubmitted,
    KycAlreadyApproved,
    UpgradeFailed,
    MigrationNotRequired,
    PlanNotClaimed,
    KycAlreadyRejected,
    InsufficientBalance,
    FeeTransferFailed,
    InsufficientLiquidity,
    InheritanceAlreadyTriggered,
    InheritanceNotTriggered,
    LoanRecallFailed,
    NoOutstandingLoans,
}

impl InheritanceError {
    /// The number under which the error is reported on chain.
    pub open spec fn spec_code(self) -> u32 {
        match self {
            InheritanceError::InvalidAssetType => 1,
            InheritanceError::InvalidTotalAmount => 2,
            InheritanceError::MissingRequiredField => 3,
            InheritanceError::TooManyBeneficiaries => 4,
            InheritanceError::InvalidClaimCode => 5,
            InheritanceError::AllocationPercentageMismatch => 6,
            InheritanceError::DescriptionTooLong => 7,
            InheritanceError::InvalidBeneficiaryData => 8,
            InheritanceError::Unauthorized => 9,
            InheritanceError::PlanNotFound => 10,
            InheritanceError::InvalidBeneficiaryIndex => 11,
            InheritanceError::AllocationExceedsLimit => 12,
            InheritanceError::InvalidAllocation => 13,
            InheritanceError::InvalidClaimCodeRange => 14,
            InheritanceError::ClaimNotAllowedYet => 15,
            InheritanceError::AlreadyClaimed => 16,
            InheritanceError::BeneficiaryNotFound => 17,
            InheritanceError::PlanAlreadyDeactivated => 18,
            InheritanceError::PlanNotActive => 19,
            InheritanceError::AdminNotSet => 20,
            InheritanceError::AdminAlreadyInitialized => 21,
            InheritanceError::NotAdmin => 22,
            InheritanceError::KycNotSubmitted => 23,
            InheritanceError::KycAlreadyApproved => 24,
            InheritanceError::UpgradeFailed => 25,
            InheritanceError::MigrationNotRequired => 26,
            InheritanceError::PlanNotClaimed => 27,
            InheritanceError::KycAlreadyRejected => 28,
            InheritanceError::InsufficientBalance => 29,
            InheritanceError::FeeTransferFailed => 30,
            InheritanceError::InsufficientLiquidity => 31,
            InheritanceError::InheritanceAlreadyTriggered => 32,
            InheritanceError::InheritanceNotTriggered => 33,
            InheritanceError::LoanRecallFailed => 34,
            InheritanceError::NoOutstandingLoans => 35,
        }
    }

    /// The number under which the error is reported on chain.
    pub fn code(&self) -> (c: u32)
        ensures
            c == self.spec_code(),
            1 <= c <= 35,
    {
        match self {
            InheritanceError::InvalidAssetType => 1,
            InheritanceError::InvalidTotalAmount => 2,
            InheritanceError::MissingRequiredField => 3,
            InheritanceError::TooManyBeneficiaries => 4,
            InheritanceError::InvalidClaimCode => 5,
            InheritanceError::AllocationPercentageMismatch => 6,
            InheritanceError::DescriptionTooLong => 7,
            InheritanceError::InvalidBeneficiaryData => 8,
            InheritanceError::Unauthorized => 9,
            InheritanceError::PlanNotFound => 10,
            InheritanceError::InvalidBeneficiaryIndex => 11,
            InheritanceError::AllocationExceedsLimit => 12,
            InheritanceError::InvalidAllocation => 13,
            InheritanceError::InvalidClaimCodeRange => 14,
            InheritanceError::ClaimNotAllowedYet => 15,
            InheritanceError::AlreadyClaimed => 16,
            InheritanceError::BeneficiaryNotFound => 17,
            InheritanceError::PlanAlreadyDeactivated => 18,
            InheritanceError::PlanNotActive => 19,
            InheritanceError::AdminNotSet => 20,
            InheritanceError::AdminAlreadyInitialized => 21,
            InheritanceError::NotAdmin => 22,
            InheritanceError::KycNotSubmitted => 23,
            InheritanceError::KycAlreadyApproved => 24,
            InheritanceError::UpgradeFailed => 25,
            InheritanceError::MigrationNotRequired => 26,
            InheritanceError::PlanNotClaimed => 27,
            InheritanceError::KycAlreadyRejected => 28,
            InheritanceError::InsufficientBalance => 29,
            InheritanceError::FeeTransferFailed => 30,
            InheritanceError::InsufficientLiquidity => 31,
            InheritanceError::InheritanceAlreadyTriggered => 32,
            InheritanceError::InheritanceNotTriggered => 33,
            InheritanceError::LoanRecallFailed => 34,
            InheritanceError::NoOutstandingLoans => 35,
        }
    }
}

/// One who inherits a share of a plan.
#[derive(Clone, Debug, PartialEq, Eq)]
pub struct Beneficiary {
    pub hashed_full_name: Digest,
    pub hashed_email: Digest,
    pub hashed_claim_code: Digest,
    /// Bank details for settlement off chain, kept as given.
    pub bank_account: Vec<u8>,
    /// Share of the plan in basis points.
    pub allocation_bp: u32,
}

/// A beneficiary as a plain value.
pub struct BeneficiaryView {
    pub hashed_full_name: Digest,
    pub hashed_email: Digest,
    pub hashed_claim_code: Digest,
    pub bank_account: Seq<u8>,
    pub allocation_bp: u32,
}

impl View for Beneficiary {
    type V = BeneficiaryView;

    open spec fn view(&self) -> BeneficiaryView {
        BeneficiaryView {
            hashed_full_name: self.hashed_full_name,
            hashed_email: self.hashed_email,
            hashed_claim_code: self.hashed_claim_code,
            bank_account: self.bank_account@,
            allocation_bp: self.allocation_bp,
        }
    }
}

/// What an owner states of a beneficiary to be added.
#[derive(Clone, Debug, PartialEq, Eq)]
pub struct BeneficiaryInput {
    pub name: String,
    pub email: String,
    pub claim_code: u32,
    pub bank_account: Vec<u8>,
    pub allocation_bp: u32,
}

/// An inheritance plan.
#[derive(Clone, Debug, PartialEq, Eq)]
pub struct InheritancePlan {
    pub plan_name: String,
    pub description: String,
    /// The asset held; always `USDC`.
    pub asset_type: String,
    /// What the plan holds, net of the creation fee.
    pub total_amount: u64,
    pub distribution_method: DistributionMethod,
    pub beneficiaries: Vec<Beneficiary>,
    /// Sum of the beneficiaries' shares in basis points.
    pub total_allocation_bp: u32,
    pub owner: Address,
    pub created_at: u64,
    pub is_active: bool,
    pub is_lendable: bool,
    /// Part of `total_amount` that is lent out.
    pub total_loaned: u64,
}

/// A plan as a plain value.
pub struct PlanView {
    pub plan_name: Seq<char>,
    pub description: Seq<char>,
    pub asset_type: Seq<char>,
    pub total_amount: u64,
    pub distribution_method: DistributionMethod,
    pub beneficiaries: Seq<BeneficiaryView>,
    pub total_allocation_bp: u32,
    pub owner: Address,
    pub created_at: u64,
    pub is_active: bool,
    pub is_lendable: bool,
    pub total_loaned: u64,
}

/// The beneficiaries of a plan as plain values.
pub open spec fn beneficiaries_view(beneficiaries: Seq<Beneficiary>) -> Seq<BeneficiaryView> {
    Seq::new(beneficiaries.len(), |i: int| beneficiaries[i]@)
}

impl View for InheritancePlan {
    type V = PlanView;

    open spec fn view(&self) -> PlanView {
        PlanView {
            plan_name: self.plan_name@,
            description: self.description@,
            asset_type: self.asset_type@,
            total_amount: self.total_amount,
            distribution_method: self.distribution_method,
            beneficiaries: beneficiaries_view(self.beneficiaries@),
            total_allocation_bp: self.total_allocation_bp,
            owner: self.owner,
            created_at: self.created_at,
            is_active: self.is_active,
            is_lendable: self.is_lendable,
            total_loaned: self.total_loaned,
        }
    }
}

/// What an owner states of a plan to be created. A beneficiary is given as
/// name, email, claim code, bank account and share in basis points.
#[derive(Clone, Debug, PartialEq, Eq)]
pub struct CreateInheritancePlanParams {
    pub owner: Address,
    pub token: Address,
    pub plan_name: String,
    pub description: String,
    /// What the owner pays in; the plan holds it less the creation fee.
    pub total_amount: u64,
    pub distribution_method: DistributionMethod,
    pub beneficiaries_data: Vec<(String, String, u32, Vec<u8>, u32)>,
    pub is_lendable: bool,
}

/// That a beneficiary has claimed.
#[derive(Clone, Copy, Debug, PartialEq, Eq)]
pub struct ClaimRecord {
    pub plan_id: u64,
    pub beneficiary_index: u32,
    pub claimed_at: u64,
}

/// Where a user's identity check stands.
#[derive(Clone, Copy, Debug, PartialEq, Eq)]
pub struct KycStatus {
    pub submitted: bool,
    pub approved: bool,
    pub rejected: bool,
    pub submitted_at: u64,
    pub approved_at: u64,
    pub rejected_at: u64,
}

/// What was recorded when a plan's inheritance was triggered, and how the
/// recovery of its loans has gone since.
#[derive(Clone, Copy, Debug, PartialEq, Eq)]
pub struct InheritanceTriggerInfo {
    pub triggered_at: u64,
    pub loan_freeze_active: bool,
    pub recall_attempted: bool,
    pub liquidation_triggered: bool,
    /// What was lent out when the trigger fired.
    pub original_loaned: u64,
    /// What has been recalled since.
    pub recalled_amount: u64,
    /// What has been written off since.
    pub settled_amount: u64,
}

} // verus!
