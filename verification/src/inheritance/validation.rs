//! Hashing and validation of what callers state.

use vstd::prelude::*;

use crate::digest::{
    claim_code_to_digits, sha256_digest, spec_hash_bytes, spec_hash_claim_code, spec_hash_string,
    Digest, MAX_CLAIM_CODE, MAX_HASH_INPUT_LEN,
};
use crate::inheritance::contract::InheritanceContract;
use crate::inheritance::plan::{FULL_ALLOCATION_BP, MAX_BENEFICIARIES};
use crate::inheritance::types::{Beneficiary, BeneficiaryView, InheritanceError};

verus! {

/// Longest description of a plan, in bytes of UTF-8.
pub const MAX_DESCRIPTION_LEN: usize = 500;

/// The length of `text` in bytes of UTF-8.
pub open spec fn utf8_len(text: Seq<char>) -> nat {
    vstd::utf8::encode_utf8(text).len()
}

/// Whether `text` is short enough to be hashed.
pub open spec fn hashable(text: Seq<char>) -> bool {
    utf8_len(text) <= MAX_HASH_INPUT_LEN
}

/// A beneficiary as stated: name, email, claim code, bank account and share
/// in basis points.
pub type BeneficiaryData = (String, String, u32, Vec<u8>, u32);

/// Why a beneficiary stated so is refused, if it is: a field is empty, the
/// share is zero, or the claim code has more than six digits.
pub open spec fn beneficiary_error(
    name: Seq<char>,
    email: Seq<char>,
    claim_code: u32,
    bank_account: Seq<u8>,
    allocation_bp: u32,
) -> Option<InheritanceError> {
    if name.len() == 0 || email.len() == 0 || bank_account.len() == 0 {
        Some(InheritanceError::InvalidBeneficiaryData)
    } else if allocation_bp == 0 {
        Some(InheritanceError::InvalidAllocation)
    } else if claim_code > MAX_CLAIM_CODE {
        Some(InheritanceError::InvalidClaimCodeRange)
    } else {
        None
    }
}

/// The beneficiary that the statement makes: the name, the email and the
/// claim code hashed, the rest as given.
pub open spec fn spec_beneficiary(
    name: Seq<char>,
    email: Seq<char>,
    claim_code: u32,
    bank_account: Seq<u8>,
    allocation_bp: u32,
) -> BeneficiaryView {
    BeneficiaryView {
        hashed_full_name: spec_hash_string(name),
        hashed_email: spec_hash_string(email),
        hashed_claim_code: spec_hash_claim_code(claim_code),
        bank_account,
        allocation_bp,
    }
}

/// The sum of the shares stated, in basis points.
pub open spec fn stated_allocation(data: Seq<BeneficiaryData>) -> int
    decreases data.len(),
{
    if data.len() == 0 {
        0
    } else {
        stated_allocation(data.drop_last()) + data.last().4
    }
}

/// Why the list of stated beneficiaries is refused, if it is: more than ten,
/// none, or shares that do not sum to the whole.
pub open spec fn beneficiaries_error(data: Seq<BeneficiaryData>) -> Option<InheritanceError> {
    if data.len() > MAX_BENEFICIARIES {
        Some(InheritanceError::TooManyBeneficiaries)
    } else if data.len() == 0 {
        Some(InheritanceError::MissingRequiredField)
    } else if stated_allocation(data) != FULL_ALLOCATION_BP {
        Some(InheritanceError::AllocationPercentageMismatch)
    } else {
        None
    }
}

/// Why the statement of a plan is refused, if it is.
pub open spec fn plan_inputs_error(
    plan_name: Seq<char>,
    description: Seq<char>,
    asset_type: Seq<char>,
    total_amount: u64,
) -> Option<InheritanceError> {
    if plan_name.len() == 0 {
        Some(InheritanceError::MissingRequiredField)
    } else if utf8_len(description) > MAX_DESCRIPTION_LEN {
        Some(InheritanceError::DescriptionTooLong)
    } else if asset_type != "USDC"@ {
        Some(InheritanceError::InvalidAssetType)
    } else if total_amount == 0 {
        Some(InheritanceError::InvalidTotalAmount)
    } else {
        None
    }
}

/// The result that stands for a check: the error if there is one.
pub open spec fn check_result(error: Option<InheritanceError>) -> Result<(), InheritanceError> {
    match error {
        Some(e) => Err(e),
        None => Ok(()),
    }
}

impl InheritanceContract {
    /// Greets `to`.
    pub fn hello(to: String) -> (greeting: Vec<String>)
        ensures
            greeting@.len() == 2,
            greeting@[0]@ == "Hello"@,
            greeting@[1] == to,
    {
        let mut greeting: Vec<String> = Vec::new();
        greeting.push("Hello".to_owned());
        greeting.push(to);
        greeting
    }

    /// The digest of the UTF-8 bytes of `input`.
    pub fn hash_string(input: &String) -> (d: Digest)
        requires
            hashable(input@),
        ensures
            d == spec_hash_string(input@),
    {
        sha256_digest(input.as_str().as_bytes())
    }

    /// The digest of `input`.
    pub fn hash_bytes(input: &Vec<u8>) -> (d: Digest)
        requires
            input@.len() <= MAX_HASH_INPUT_LEN,
        ensures
            d == spec_hash_bytes(input@),
    {
        sha256_digest(input.as_slice())
    }

    /// The digest of a claim code, written as six ASCII digits. Codes of
    /// more than six digits are refused.
    pub fn hash_claim_code(claim_code: u32) -> (r: Result<Digest, InheritanceError>)
        ensures
            r == (if claim_code > MAX_CLAIM_CODE {
                Err::<Digest, InheritanceError>(InheritanceError::InvalidClaimCodeRange)
            } else {
                Ok(spec_hash_claim_code(claim_code))
            }),
    {
        if claim_code > MAX_CLAIM_CODE {
            return Err(InheritanceError::InvalidClaimCodeRange);
        }
        let digits = claim_code_to_digits(claim_code);
        Ok(sha256_digest(digits.as_slice()))
    }

    /// Makes a beneficiary of what is stated of one, hashing the name, the
    /// email and the claim code.
    pub fn create_beneficiary(
        full_name: &String,
        email: &String,
        claim_code: u32,
        bank_account: Vec<u8>,
        allocation_bp: u32,
    ) -> (r: Result<Beneficiary, InheritanceError>)
        requires
            hashable(full_name@),
            hashable(email@),
        ensures
            match r {
                Ok(b) => beneficiary_error(
                    full_name@,
                    email@,
                    claim_code,
                    bank_account@,
                    allocation_bp,
                ) is None && b@ == spec_beneficiary(
                    full_name@,
                    email@,
                    claim_code,
                    bank_account@,
                    allocation_bp,
                ),
                Err(e) => beneficiary_error(
                    full_name@,
                    email@,
                    claim_code,
                    bank_account@,
                    allocation_bp,
                ) == Some(e),
            },
    {
        if full_name.as_str().is_empty() || email.as_str().is_empty() || bank_account.is_empty() {
            return Err(InheritanceError::InvalidBeneficiaryData);
        }
        if allocation_bp == 0 {
            return Err(InheritanceError::InvalidAllocation);
        }
        let hashed_claim_code = match Self::hash_claim_code(claim_code) {
            Ok(d) => d,
            Err(e) => {
                return Err(e);
            },
        };
        Ok(
            Beneficiary {
                hashed_full_name: Self::hash_string(full_name),
                hashed_email: Self::hash_string(email),
                hashed_claim_code,
                bank_account,
                allocation_bp,
            },
        )
    }

    /// Checks what is stated of a plan: a name, a description of at most 500
    /// bytes, the one asset accepted, and an amount above zero.
    pub fn validate_plan_inputs(
        plan_name: &String,
        description: &String,
        asset_type: &String,
        total_amount: u64,
    ) -> (r: Result<(), InheritanceError>)
        ensures
            r == check_result(
                plan_inputs_error(plan_name@, description@, asset_type@, total_amount),
            ),
    {
        if plan_name.as_str().is_empty() {
            return Err(InheritanceError::MissingRequiredField);
        }
        if description.as_str().as_bytes().len() > MAX_DESCRIPTION_LEN {
            return Err(InheritanceError::DescriptionTooLong);
        }
        let usdc = "USDC".to_owned();
        if !(*asset_type == usdc) {
            return Err(InheritanceError::InvalidAssetType);
        }
        if total_amount == 0 {
            return Err(InheritanceError::InvalidTotalAmount);
        }
        Ok(())
    }

    /// Checks the list of stated beneficiaries: one to ten of them, with
    /// shares that sum to the whole.
    pub fn validate_beneficiaries(beneficiaries_data: &Vec<BeneficiaryData>) -> (r: Result<
        (),
        InheritanceError,
    >)
        ensures
            r == check_result(beneficiaries_error(beneficiaries_data@)),
    {
        if beneficiaries_data.len() > MAX_BENEFICIARIES {
            return Err(InheritanceError::TooManyBeneficiaries);
        }
        if beneficiaries_data.is_empty() {
            return Err(InheritanceError::MissingRequiredField);
        }
        let mut total: u64 = 0;
        let mut i: usize = 0;
        while i < beneficiaries_data.len()
            invariant
                i <= beneficiaries_data@.len() <= MAX_BENEFICIARIES,
                total == stated_allocation(beneficiaries_data@.subrange(0, i as int)),
                total <= i * u32::MAX,
            decreases beneficiaries_data@.len() - i,
        {
            assert(beneficiaries_data@.subrange(0, i + 1).drop_last()
                =~= beneficiaries_data@.subrange(0, i as int));
            total = total + beneficiaries_data[i].4 as u64;
            i += 1;
        }
        assert(beneficiaries_data@.subrange(0, beneficiaries_data@.len() as int)
            =~= beneficiaries_data@);
        if total != FULL_ALLOCATION_BP as u64 {
            return Err(InheritanceError::AllocationPercentageMismatch);
        }
        Ok(())
    }
}

} // verus!
