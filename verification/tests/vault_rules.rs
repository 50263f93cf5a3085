use inheritance_protocol::address::{Address, AddressKind, Party, Transfer};
use inheritance_protocol::digest::{claim_key, sha256_digest, u64_to_be_bytes, Digest};
use inheritance_protocol::inheritance::contract::InheritanceContract;
use inheritance_protocol::inheritance::events::{
    BeneficiaryAddedEvent, BeneficiaryRemovedEvent, ClaimSuccessEvent, InheritanceTriggeredEvent,
    LiquidationFallbackEvent, LoanFreezeEvent, LoanRecallEvent, PlanDeactivatedEvent,
    VaultDepositEvent, VaultWithdrawEvent,
};
use inheritance_protocol::inheritance::plan::is_claim_time_valid;
use inheritance_protocol::inheritance::types::{
    BeneficiaryInput, CreateInheritancePlanParams, DistributionMethod, InheritanceError,
};

type BeneficiaryData = (String, String, u32, Vec<u8>, u32);

fn account(n: u128) -> Address {
    Address { kind: AddressKind::Account, hi: 0, lo: n }
}

fn entry(name: &str, email: &str, claim_code: u32, bp: u32) -> BeneficiaryData {
    (name.to_string(), email.to_string(), claim_code, b"12345678".to_vec(), bp)
}

fn params(
    owner: Address,
    total_amount: u64,
    method: DistributionMethod,
    data: Vec<BeneficiaryData>,
) -> CreateInheritancePlanParams {
    CreateInheritancePlanParams {
        owner,
        token: Address { kind: AddressKind::Contract, hi: 9, lo: 9 },
        plan_name: "Will".to_string(),
        description: "My will".to_string(),
        total_amount,
        distribution_method: method,
        beneficiaries_data: data,
        is_lendable: true,
    }
}

const ADMIN: u128 = 100;
const OWNER: u128 = 1;

/// A vault with an administrator and one plan of `total_amount` paid in by
/// the owner, created at time zero, for Alice alone.
fn vault_with_plan(total_amount: u64, method: DistributionMethod) -> (InheritanceContract, u64) {
    let mut vault = InheritanceContract::new();
    vault.initialize_admin(account(ADMIN)).unwrap();
    let plan_id = vault
        .create_inheritance_plan(
            params(account(OWNER), total_amount, method, vec![entry("Alice", "alice@example.com", 123456, 10000)]),
            total_amount as i128,
            true,
            true,
            0,
        )
        .unwrap();
    (vault, plan_id)
}

fn hex(bytes: &[u8]) -> String {
    let mut out = String::new();
    for b in bytes {
        out.push_str(&format!("{:02x}", b));
    }
    out
}

fn input(name: &str, email: &str, claim_code: u32, bank: &[u8], bp: u32) -> BeneficiaryInput {
    BeneficiaryInput {
        name: name.to_string(),
        email: email.to_string(),
        claim_code,
        bank_account: bank.to_vec(),
        allocation_bp: bp,
    }
}

// ----- Hashing -----

#[test]
fn hash_string_hashes_the_bytes_of_the_text() {
    let d = InheritanceContract::hash_string(&"abc".to_string());
    assert_eq!(
        hex(&d.bytes),
        "ba7816bf8f01cfea414140de5dae2223b00361a396177a9cb410ff61f20015ad"
    );
    // equal length, different text
    let e = InheritanceContract::hash_string(&"abd".to_string());
    assert_ne!(d, e);
}

#[test]
fn hash_bytes_is_sha256() {
    let d = InheritanceContract::hash_bytes(&b"abc".to_vec());
    assert_eq!(
        hex(&d.bytes),
        "ba7816bf8f01cfea414140de5dae2223b00361a396177a9cb410ff61f20015ad"
    );
}

#[test]
fn hash_claim_code_hashes_six_ascii_digits() {
    let d = InheritanceContract::hash_claim_code(123456).unwrap();
    assert_eq!(
        hex(&d.bytes),
        "8d969eef6ecad3c29a3a629280e686cf0c3f5d5a86aff3ca12020c923adc6c92"
    );
    let padded = InheritanceContract::hash_claim_code(42).unwrap();
    assert_eq!(padded, sha256_digest(b"000042"));
    assert_eq!(
        InheritanceContract::hash_claim_code(1_000_000),
        Err(InheritanceError::InvalidClaimCodeRange)
    );
}

#[test]
fn claim_key_hashes_plan_number_and_email_digest() {
    let hashed_email = InheritanceContract::hash_string(&"alice@example.com".to_string());
    let mut preimage = u64_to_be_bytes(7);
    preimage.extend_from_slice(&hashed_email.bytes);
    assert_eq!(preimage.len(), 40);
    assert_eq!(claim_key(7, &hashed_email), sha256_digest(&preimage));
    assert_ne!(claim_key(7, &hashed_email), claim_key(8, &hashed_email));
}

#[test]
fn digests_compare_by_their_bytes() {
    let a = Digest { bytes: [7u8; 32] };
    let mut other = [7u8; 32];
    other[31] = 8;
    assert!(a.same(&Digest { bytes: [7u8; 32] }));
    assert!(!a.same(&Digest { bytes: other }));
}

#[test]
fn hello_greets() {
    let greeting = InheritanceContract::hello("World".to_string());
    assert_eq!(greeting, vec!["Hello".to_string(), "World".to_string()]);
}

// ----- Validation -----

#[test]
fn plan_inputs_are_checked_in_order() {
    let name = "Plan".to_string();
    let usdc = "USDC".to_string();
    let long = "x".repeat(501);
    let longest = "x".repeat(500);
    assert_eq!(
        InheritanceContract::validate_plan_inputs(&"".to_string(), &long, &"EUR".to_string(), 0),
        Err(InheritanceError::MissingRequiredField)
    );
    assert_eq!(
        InheritanceContract::validate_plan_inputs(&name, &long, &"EUR".to_string(), 0),
        Err(InheritanceError::DescriptionTooLong)
    );
    assert_eq!(
        InheritanceContract::validate_plan_inputs(&name, &longest, &"EUR".to_string(), 0),
        Err(InheritanceError::InvalidAssetType)
    );
    assert_eq!(
        InheritanceContract::validate_plan_inputs(&name, &longest, &usdc, 0),
        Err(InheritanceError::InvalidTotalAmount)
    );
    assert_eq!(InheritanceContract::validate_plan_inputs(&name, &longest, &usdc, 1), Ok(()));
}

#[test]
fn beneficiary_lists_are_checked() {
    let eleven: Vec<BeneficiaryData> = (0..11).map(|_| entry("A", "a@x", 1, 1000)).collect();
    assert_eq!(
        InheritanceContract::validate_beneficiaries(&eleven),
        Err(InheritanceError::TooManyBeneficiaries)
    );
    let ten: Vec<BeneficiaryData> = (0..10).map(|_| entry("A", "a@x", 1, 1000)).collect();
    assert_eq!(InheritanceContract::validate_beneficiaries(&ten), Ok(()));
    let short = vec![entry("A", "a@x", 1, 9999)];
    assert_eq!(
        InheritanceContract::validate_beneficiaries(&short),
        Err(InheritanceError::AllocationPercentageMismatch)
    );
    // a sum that would wrap in 32 bits is still a mismatch
    let wrapping = vec![entry("A", "a@x", 1, u32::MAX), entry("B", "b@x", 1, 10001)];
    assert_eq!(
        InheritanceContract::validate_beneficiaries(&wrapping),
        Err(InheritanceError::AllocationPercentageMismatch)
    );
}

#[test]
fn beneficiaries_are_checked_and_hashed() {
    let name = "Alice".to_string();
    let email = "alice@example.com".to_string();
    let ok = InheritanceContract::create_beneficiary(&name, &email, 7, b"IBAN".to_vec(), 2500).unwrap();
    assert_eq!(ok.hashed_full_name, sha256_digest(b"Alice"));
    assert_eq!(ok.hashed_email, sha256_digest(b"alice@example.com"));
    assert_eq!(ok.hashed_claim_code, sha256_digest(b"000007"));
    assert_eq!(ok.bank_account, b"IBAN".to_vec());
    assert_eq!(ok.allocation_bp, 2500);

    let empty = "".to_string();
    assert_eq!(
        InheritanceContract::create_beneficiary(&name, &empty, 7, b"IBAN".to_vec(), 2500),
        Err(InheritanceError::InvalidBeneficiaryData)
    );
    assert_eq!(
        InheritanceContract::create_beneficiary(&name, &email, 7, Vec::new(), 2500),
        Err(InheritanceError::InvalidBeneficiaryData)
    );
    // the empty field is reported before the zero share and the long code
    assert_eq!(
        InheritanceContract::create_beneficiary(&empty, &email, 1_000_000, b"IBAN".to_vec(), 0),
        Err(InheritanceError::InvalidBeneficiaryData)
    );
    assert_eq!(
        InheritanceContract::create_beneficiary(&name, &email, 1_000_000, b"IBAN".to_vec(), 0),
        Err(InheritanceError::InvalidAllocation)
    );
}

// ----- Creation -----

#[test]
fn creation_fee_is_two_percent_rounded_down() {
    assert_eq!(InheritanceContract::creation_fee(100_000), 2_000);
    assert_eq!(InheritanceContract::creation_fee(1_000), 20);
    assert_eq!(InheritanceContract::creation_fee(49), 0);
    assert_eq!(InheritanceContract::creation_fee(50), 1);
    assert_eq!(InheritanceContract::creation_fee(99), 1);
    assert_eq!(InheritanceContract::creation_fee(0), 0);
    // the fee on the largest amount is computed in 128 bits
    assert_eq!(InheritanceContract::creation_fee(u64::MAX), u64::MAX / 50);
}

#[test]
fn creation_asks_for_the_fee_and_the_remainder() {
    let mut vault = InheritanceContract::new();
    let request = params(account(OWNER), 100_000, DistributionMethod::LumpSum, Vec::new());
    let token = request.token;
    let net = |amount: i128| Transfer {
        token,
        from: Party::Holder(account(OWNER)),
        to: Party::Contract,
        amount,
    };
    // nobody to receive the fee
    assert_eq!(vault.creation_transfers(&request), (None, net(98_000)));
    vault.initialize_admin(account(ADMIN)).unwrap();
    assert_eq!(
        vault.creation_transfers(&request),
        (
            Some(Transfer {
                token,
                from: Party::Holder(account(OWNER)),
                to: Party::Holder(account(ADMIN)),
                amount: 2_000
            }),
            net(98_000)
        )
    );
    // no fee, no fee transfer
    let small = params(account(OWNER), 49, DistributionMethod::LumpSum, Vec::new());
    assert_eq!(vault.creation_transfers(&small), (None, net(49)));

    assert_eq!(InheritanceContract::deposit_transfer(account(OWNER), token, 500), net(500));
    assert_eq!(
        InheritanceContract::withdraw_transfer(account(OWNER), token, 300),
        Transfer { token, from: Party::Contract, to: Party::Holder(account(OWNER)), amount: 300 }
    );
}

#[test]
fn creation_stores_the_net_amount() {
    let (vault, plan_id) = vault_with_plan(100_000, DistributionMethod::LumpSum);
    assert_eq!(plan_id, 1);
    let plan = vault.get_plan_details(plan_id).unwrap();
    assert_eq!(plan.total_amount, 98_000);
    assert_eq!(plan.total_allocation_bp, 10000);
    assert_eq!(plan.total_loaned, 0);
    assert_eq!(plan.asset_type, "USDC");
    assert_eq!(plan.owner, account(OWNER));
    assert_eq!(plan.created_at, 0);
    assert!(plan.is_active);
    assert!(plan.is_lendable);
    assert_eq!(plan.beneficiaries.len(), 1);
    assert_eq!(plan.beneficiaries[0].hashed_email, sha256_digest(b"alice@example.com"));
    assert!(vault.is_well_formed());
    assert!(vault.is_solvent());
}

#[test]
fn plans_are_numbered_in_order() {
    let (mut vault, first) = vault_with_plan(1_000, DistributionMethod::LumpSum);
    let second = vault
        .create_inheritance_plan(
            params(account(2), 2_000, DistributionMethod::Monthly, vec![entry("B", "b@x", 1, 10000)]),
            2_000,
            true,
            true,
            50,
        )
        .unwrap();
    assert_eq!((first, second), (1, 2));
    assert_eq!(vault.get_plan_details(2).unwrap().created_at, 50);
    assert!(vault.get_plan_details(3).is_none());
    assert!(vault.get_plan_details(0).is_none());
}

#[test]
fn creation_is_refused_in_order() {
    let good = vec![entry("Alice", "alice@example.com", 123456, 10000)];
    let mut vault = InheritanceContract::new();
    assert_eq!(
        vault.create_inheritance_plan(
            params(account(OWNER), 0, DistributionMethod::LumpSum, Vec::new()),
            0,
            false,
            false,
            0
        ),
        Err(InheritanceError::AdminNotSet)
    );
    vault.initialize_admin(account(ADMIN)).unwrap();
    assert_eq!(
        vault.initialize_admin(account(ADMIN)),
        Err(InheritanceError::AdminAlreadyInitialized)
    );
    let before = vault.clone();

    assert_eq!(
        vault.create_inheritance_plan(
            params(account(OWNER), 0, DistributionMethod::LumpSum, good.clone()),
            1_000,
            true,
            true,
            0
        ),
        Err(InheritanceError::InvalidTotalAmount)
    );
    let mut unnamed = params(account(OWNER), 1_000, DistributionMethod::LumpSum, good.clone());
    unnamed.plan_name = String::new();
    assert_eq!(
        vault.create_inheritance_plan(unnamed, 0, false, false, 0),
        Err(InheritanceError::MissingRequiredField)
    );
    let mut wordy = params(account(OWNER), 1_000, DistributionMethod::LumpSum, good.clone());
    wordy.description = "d".repeat(501);
    assert_eq!(
        vault.create_inheritance_plan(wordy, 0, false, false, 0),
        Err(InheritanceError::DescriptionTooLong)
    );
    assert_eq!(
        vault.create_inheritance_plan(
            params(account(OWNER), 1_000, DistributionMethod::LumpSum, Vec::new()),
            999,
            false,
            false,
            0
        ),
        Err(InheritanceError::InsufficientBalance)
    );
    // the fee transfer comes before the net transfer and before the beneficiaries
    assert_eq!(
        vault.create_inheritance_plan(
            params(account(OWNER), 1_000, DistributionMethod::LumpSum, Vec::new()),
            1_000,
            false,
            true,
            0
        ),
        Err(InheritanceError::FeeTransferFailed)
    );
    assert_eq!(
        vault.create_inheritance_plan(
            params(account(OWNER), 1_000, DistributionMethod::LumpSum, Vec::new()),
            1_000,
            true,
            false,
            0
        ),
        Err(InheritanceError::FeeTransferFailed)
    );
    // without a fee no fee transfer is asked for
    assert_eq!(
        vault.create_inheritance_plan(
            params(account(OWNER), 49, DistributionMethod::LumpSum, Vec::new()),
            49,
            false,
            true,
            0
        ),
        Err(InheritanceError::MissingRequiredField)
    );
    let eleven: Vec<BeneficiaryData> = (0..11).map(|_| entry("A", "a@x", 1, 1000)).collect();
    assert_eq!(
        vault.create_inheritance_plan(
            params(account(OWNER), 1_000, DistributionMethod::LumpSum, eleven),
            1_000,
            true,
            true,
            0
        ),
        Err(InheritanceError::TooManyBeneficiaries)
    );
    assert_eq!(
        vault.create_inheritance_plan(
            params(
                account(OWNER),
                1_000,
                DistributionMethod::LumpSum,
                vec![entry("A", "a@x", 1, 5000), entry("B", "b@x", 2, 4000)]
            ),
            1_000,
            true,
            true,
            0
        ),
        Err(InheritanceError::AllocationPercentageMismatch)
    );
    // the first faulty beneficiary decides
    assert_eq!(
        vault.create_inheritance_plan(
            params(
                account(OWNER),
                1_000,
                DistributionMethod::LumpSum,
                vec![entry("A", "a@x", 1_000_000, 5000), entry("", "b@x", 2, 5000)]
            ),
            1_000,
            true,
            true,
            0
        ),
        Err(InheritanceError::InvalidClaimCodeRange)
    );
    assert_eq!(
        vault.create_inheritance_plan(
            params(
                account(OWNER),
                1_000,
                DistributionMethod::LumpSum,
                vec![entry("A", "a@x", 1, 10000), entry("B", "b@x", 2, 0)]
            ),
            1_000,
            true,
            true,
            0
        ),
        Err(InheritanceError::InvalidAllocation)
    );
    assert_eq!(vault, before);
}

// ----- Beneficiaries -----

#[test]
fn allocation_total_follows_the_beneficiaries() {
    let mut vault = InheritanceContract::new();
    vault.initialize_admin(account(ADMIN)).unwrap();
    let plan_id = vault
        .create_inheritance_plan(
            params(
                account(OWNER),
                1_000,
                DistributionMethod::LumpSum,
                vec![entry("A", "a@x", 1, 4000), entry("B", "b@x", 2, 3000), entry("C", "c@x", 3, 3000)],
            ),
            1_000,
            true,
            true,
            0,
        )
        .unwrap();
    let sum = |vault: &InheritanceContract| -> u32 {
        let plan = vault.get_plan_details(plan_id).unwrap();
        assert_eq!(
            plan.beneficiaries.iter().map(|b| b.allocation_bp).sum::<u32>(),
            plan.total_allocation_bp
        );
        plan.total_allocation_bp
    };
    assert_eq!(sum(&vault), 10000);

    // removing the first moves the last into its place
    let event = vault.remove_beneficiary(account(OWNER), plan_id, 0).unwrap();
    assert_eq!(event, BeneficiaryRemovedEvent { plan_id, index: 0, allocation_bp: 4000 });
    assert_eq!(sum(&vault), 6000);
    let plan = vault.get_plan_details(plan_id).unwrap();
    assert_eq!(plan.beneficiaries.len(), 2);
    assert_eq!(plan.beneficiaries[0].hashed_email, sha256_digest(b"c@x"));
    assert_eq!(plan.beneficiaries[1].hashed_email, sha256_digest(b"b@x"));

    let event = vault
        .add_beneficiary(account(OWNER), plan_id, input("D", "d@x", 4, b"bank", 4000))
        .unwrap();
    assert_eq!(
        event,
        BeneficiaryAddedEvent { plan_id, hashed_email: sha256_digest(b"d@x"), allocation_bp: 4000 }
    );
    assert_eq!(sum(&vault), 10000);
    let plan = vault.get_plan_details(plan_id).unwrap();
    assert_eq!(plan.beneficiaries[2].hashed_claim_code, sha256_digest(b"000004"));

    // removing the last just drops it
    vault.remove_beneficiary(account(OWNER), plan_id, 2).unwrap();
    assert_eq!(sum(&vault), 6000);
    vault.remove_beneficiary(account(OWNER), plan_id, 1).unwrap();
    vault.remove_beneficiary(account(OWNER), plan_id, 0).unwrap();
    assert_eq!(sum(&vault), 0);
    assert!(vault.is_well_formed());
}

#[test]
fn adding_a_beneficiary_is_refused_in_order() {
    let mut vault = InheritanceContract::new();
    vault.initialize_admin(account(ADMIN)).unwrap();
    let ten: Vec<BeneficiaryData> = (0..10).map(|_| entry("A", "a@x", 1, 1000)).collect();
    let full = vault
        .create_inheritance_plan(
            params(account(OWNER), 1_000, DistributionMethod::LumpSum, ten),
            1_000,
            true,
            true,
            0,
        )
        .unwrap();
    let before = vault.clone();
    let bad = || input("", "e@x", 1_000_000, b"bank", 0);
    assert_eq!(vault.add_beneficiary(account(OWNER), 9, bad()), Err(InheritanceError::PlanNotFound));
    assert_eq!(vault.add_beneficiary(account(2), full, bad()), Err(InheritanceError::Unauthorized));
    assert_eq!(
        vault.add_beneficiary(account(OWNER), full, bad()),
        Err(InheritanceError::TooManyBeneficiaries)
    );
    vault.remove_beneficiary(account(OWNER), full, 9).unwrap();
    assert_eq!(
        vault.add_beneficiary(account(OWNER), full, bad()),
        Err(InheritanceError::InvalidAllocation)
    );
    assert_eq!(
        vault.add_beneficiary(account(OWNER), full, input("", "e@x", 1_000_000, b"bank", 1001)),
        Err(InheritanceError::AllocationExceedsLimit)
    );
    assert_eq!(
        vault.add_beneficiary(account(OWNER), full, input("E", "e@x", 1, b"bank", u32::MAX)),
        Err(InheritanceError::AllocationExceedsLimit)
    );
    assert_eq!(
        vault.add_beneficiary(account(OWNER), full, input("", "e@x", 1_000_000, b"bank", 1000)),
        Err(InheritanceError::InvalidBeneficiaryData)
    );
    assert_eq!(
        vault.add_beneficiary(account(OWNER), full, input("E", "e@x", 1_000_000, b"bank", 1000)),
        Err(InheritanceError::InvalidClaimCodeRange)
    );
    assert!(vault.add_beneficiary(account(OWNER), full, input("E", "e@x", 999_999, b"bank", 1000)).is_ok());
    assert_eq!(
        vault.remove_beneficiary(account(OWNER), full, 10),
        Err(InheritanceError::InvalidBeneficiaryIndex)
    );
    assert_eq!(vault.remove_beneficiary(account(2), full, 0), Err(InheritanceError::Unauthorized));
    assert_eq!(vault.remove_beneficiary(account(OWNER), 0, 0), Err(InheritanceError::PlanNotFound));
    assert_ne!(vault, before);
}

// ----- Funds -----

#[test]
fn deposits_and_withdrawals_move_the_total() {
    let (mut vault, plan_id) = vault_with_plan(1_000, DistributionMethod::LumpSum);
    assert_eq!(
        vault.deposit(account(OWNER), plan_id, 500, 500, true),
        Ok(VaultDepositEvent { plan_id, amount: 500 })
    );
    assert_eq!(vault.get_plan_details(plan_id).unwrap().total_amount, 1_480);
    assert_eq!(
        vault.withdraw(account(OWNER), plan_id, 1_480, true),
        Ok(VaultWithdrawEvent { plan_id, amount: 1_480 })
    );
    assert_eq!(vault.get_plan_details(plan_id).unwrap().total_amount, 0);
    assert_eq!(vault.get_claimable_amount(plan_id), Ok(0));
    assert_eq!(vault.get_claimable_amount(2), Err(InheritanceError::PlanNotFound));
}

#[test]
fn deposits_are_refused_in_order() {
    let (mut vault, plan_id) = vault_with_plan(1_000, DistributionMethod::LumpSum);
    let before = vault.clone();
    assert_eq!(vault.deposit(account(2), 9, 0, 0, false), Err(InheritanceError::InvalidTotalAmount));
    assert_eq!(vault.deposit(account(2), 9, 5, 0, false), Err(InheritanceError::PlanNotFound));
    assert_eq!(vault.deposit(account(2), plan_id, 5, 0, false), Err(InheritanceError::Unauthorized));
    assert_eq!(
        vault.deposit(account(OWNER), plan_id, 5, 4, false),
        Err(InheritanceError::InsufficientBalance)
    );
    assert_eq!(
        vault.deposit(account(OWNER), plan_id, 5, 5, false),
        Err(InheritanceError::FeeTransferFailed)
    );
    assert_eq!(vault, before);
    vault.deactivate_inheritance_plan(account(OWNER), plan_id, 3).unwrap();
    assert_eq!(
        vault.deposit(account(OWNER), plan_id, 5, 4, false),
        Err(InheritanceError::PlanNotActive)
    );
    // a deactivated plan can still be withdrawn from
    assert!(vault.withdraw(account(OWNER), plan_id, 980, true).is_ok());
}

#[test]
fn withdrawals_are_refused_in_order() {
    let (mut vault, plan_id) = vault_with_plan(1_000, DistributionMethod::LumpSum);
    vault.plans[0].plan.total_loaned = 500;
    let before = vault.clone();
    assert_eq!(vault.withdraw(account(2), 9, 0, false), Err(InheritanceError::InvalidTotalAmount));
    assert_eq!(vault.withdraw(account(2), 9, 5, false), Err(InheritanceError::PlanNotFound));
    assert_eq!(vault.withdraw(account(2), plan_id, 5, false), Err(InheritanceError::Unauthorized));
    assert_eq!(
        vault.withdraw(account(OWNER), plan_id, 481, false),
        Err(InheritanceError::InsufficientLiquidity)
    );
    assert_eq!(
        vault.withdraw(account(OWNER), plan_id, 480, false),
        Err(InheritanceError::FeeTransferFailed)
    );
    assert_eq!(vault, before);
    assert!(vault.withdraw(account(OWNER), plan_id, 480, true).is_ok());
    assert!(vault.is_solvent());
    assert_eq!(vault.get_claimable_amount(plan_id), Ok(0));
}

#[test]
fn deactivation_is_final_and_listed_once() {
    let (mut vault, plan_id) = vault_with_plan(1_000, DistributionMethod::LumpSum);
    assert_eq!(
        vault.get_deactivated_plan(account(OWNER), plan_id).unwrap_err(),
        InheritanceError::PlanNotActive
    );
    assert_eq!(
        vault.deactivate_inheritance_plan(account(OWNER), plan_id, 77),
        Ok(PlanDeactivatedEvent {
            plan_id,
            owner: account(OWNER),
            total_amount: 980,
            deactivated_at: 77
        })
    );
    assert_eq!(
        vault.deactivate_inheritance_plan(account(OWNER), plan_id, 78),
        Err(InheritanceError::PlanAlreadyDeactivated)
    );
    assert_eq!(vault.deactivated_plans, vec![plan_id]);
    assert!(!vault.get_deactivated_plan(account(OWNER), plan_id).unwrap().is_active);
    assert_eq!(
        vault.get_deactivated_plan(account(2), plan_id).unwrap_err(),
        InheritanceError::Unauthorized
    );
    assert_eq!(
        vault.get_deactivated_plan(account(OWNER), 5).unwrap_err(),
        InheritanceError::PlanNotFound
    );
    // the listing of all deactivated plans reports any wrong caller alike
    assert_eq!(
        vault.get_all_deactivated_plans(account(2)).unwrap_err(),
        InheritanceError::Unauthorized
    );
    assert_eq!(
        InheritanceContract::new().get_all_deactivated_plans(account(2)).unwrap_err(),
        InheritanceError::Unauthorized
    );
    assert_eq!(vault.get_all_plans(account(2)).unwrap_err(), InheritanceError::NotAdmin);
    assert_eq!(
        InheritanceContract::new().get_all_plans(account(2)).unwrap_err(),
        InheritanceError::AdminNotSet
    );
}

// ----- Claims -----

#[test]
fn time_gates_open_after_their_delay() {
    let day = 86_400u64;
    assert!(is_claim_time_valid(DistributionMethod::LumpSum, 10, 10));
    assert!(!is_claim_time_valid(DistributionMethod::Monthly, 10, 10 + 30 * day - 1));
    assert!(is_claim_time_valid(DistributionMethod::Monthly, 10, 10 + 30 * day));
    assert!(!is_claim_time_valid(DistributionMethod::Quarterly, 10, 10 + 90 * day - 1));
    assert!(is_claim_time_valid(DistributionMethod::Quarterly, 10, 10 + 90 * day));
    assert!(!is_claim_time_valid(DistributionMethod::Yearly, 10, 10 + 365 * day - 1));
    assert!(is_claim_time_valid(DistributionMethod::Yearly, 10, 10 + 365 * day));
}

#[test]
fn claim_pays_the_share_and_is_made_once() {
    let mut vault = InheritanceContract::new();
    vault.initialize_admin(account(ADMIN)).unwrap();
    let plan_id = vault
        .create_inheritance_plan(
            params(
                account(OWNER),
                10_000,
                DistributionMethod::Monthly,
                vec![entry("A", "a@x", 111111, 2500), entry("B", "b@x", 222222, 7500)],
            ),
            10_000,
            true,
            true,
            1_000,
        )
        .unwrap();
    let email = "b@x".to_string();
    let due = 1_000 + 30 * 86_400;
    assert_eq!(
        vault.claim_inheritance_plan(plan_id, &email, 222222, due - 1),
        Err(InheritanceError::ClaimNotAllowedYet)
    );
    let event = vault.claim_inheritance_plan(plan_id, &email, 222222, due).unwrap();
    // 9_800 * 7500 / 10000
    assert_eq!(
        event,
        ClaimSuccessEvent { plan_id, hashed_email: sha256_digest(b"b@x"), payout: 7_350 }
    );
    assert_eq!(vault.get_plan_details(plan_id).unwrap().total_amount, 2_450);
    assert_eq!(vault.claimed_plans, vec![plan_id]);
    let key = claim_key(plan_id, &sha256_digest(b"b@x"));
    let record = vault.claims.get(&key).unwrap();
    assert_eq!((record.plan_id, record.beneficiary_index, record.claimed_at), (plan_id, 1, due));

    let after_first = vault.clone();
    assert_eq!(
        vault.claim_inheritance_plan(plan_id, &email, 222222, due),
        Err(InheritanceError::AlreadyClaimed)
    );
    assert_eq!(
        vault.claim_inheritance_plan(plan_id, &email, 222222, due + 1_000_000),
        Err(InheritanceError::AlreadyClaimed)
    );
    assert_eq!(vault, after_first);

    // the other beneficiary is paid from what is left: 2_450 * 2500 / 10000
    let event = vault.claim_inheritance_plan(plan_id, &"a@x".to_string(), 111111, due).unwrap();
    assert_eq!(event.payout, 612);
    assert_eq!(vault.get_plan_details(plan_id).unwrap().total_amount, 1_838);
    assert_eq!(vault.claimed_plans, vec![plan_id]);
    assert!(vault.is_well_formed());
}

#[test]
fn claims_are_refused_in_order() {
    let (mut vault, plan_id) = vault_with_plan(1_000, DistributionMethod::Yearly);
    let alice = "alice@example.com".to_string();
    let year = 365 * 86_400u64;
    let before = vault.clone();
    assert_eq!(
        vault.claim_inheritance_plan(9, &alice, 1_000_000, 0),
        Err(InheritanceError::PlanNotFound)
    );
    assert_eq!(
        vault.claim_inheritance_plan(plan_id, &alice, 1_000_000, year - 1),
        Err(InheritanceError::ClaimNotAllowedYet)
    );
    assert_eq!(
        vault.claim_inheritance_plan(plan_id, &alice, 1_000_000, year),
        Err(InheritanceError::InvalidClaimCodeRange)
    );
    assert_eq!(
        vault.claim_inheritance_plan(plan_id, &alice, 654321, year),
        Err(InheritanceError::BeneficiaryNotFound)
    );
    assert_eq!(
        vault.claim_inheritance_plan(plan_id, &"bob@example.com".to_string(), 123456, year),
        Err(InheritanceError::BeneficiaryNotFound)
    );
    assert_eq!(vault, before);
    vault.deactivate_inheritance_plan(account(OWNER), plan_id, 5).unwrap();
    assert_eq!(
        vault.claim_inheritance_plan(plan_id, &alice, 123456, year),
        Err(InheritanceError::PlanNotActive)
    );
}

#[test]
fn claim_without_trigger_needs_liquidity() {
    // Plan net 980, one beneficiary with the whole, 500 lent out
    let (mut vault, plan_id) = vault_with_plan(1_000, DistributionMethod::LumpSum);
    vault.plans[0].plan.total_loaned = 500;
    let before = vault.clone();
    assert_eq!(
        vault.claim_inheritance_plan(plan_id, &"alice@example.com".to_string(), 123456, 0),
        Err(InheritanceError::InsufficientLiquidity)
    );
    assert_eq!(vault, before);
}

#[test]
fn claim_after_trigger_passes_both_gates() {
    let (mut vault, plan_id) = vault_with_plan(1_000, DistributionMethod::Yearly);
    vault.plans[0].plan.total_loaned = 500;
    let alice = "alice@example.com".to_string();
    assert_eq!(
        vault.claim_inheritance_plan(plan_id, &alice, 123456, 0),
        Err(InheritanceError::ClaimNotAllowedYet)
    );
    assert_eq!(
        vault.trigger_inheritance(account(ADMIN), plan_id, 0),
        Ok((
            InheritanceTriggeredEvent { plan_id, triggered_at: 0, outstanding_loans: 500 },
            LoanFreezeEvent { plan_id, frozen_at: 0 }
        ))
    );
    assert_eq!(
        vault.claim_inheritance_plan(plan_id, &alice, 123456, 0),
        Ok(ClaimSuccessEvent {
            plan_id,
            hashed_email: sha256_digest(b"alice@example.com"),
            payout: 980
        })
    );
    let plan = vault.get_plan_details(plan_id).unwrap();
    assert_eq!(plan.total_amount, 0);
    // the one case in which a plan is left with more lent out than it holds
    assert_eq!(plan.total_loaned, 500);
    assert!(!vault.is_solvent());
    assert!(vault.is_well_formed());
}

// ----- Trigger lifecycle -----

#[test]
fn trigger_records_what_is_lent_out() {
    let (mut vault, plan_id) = vault_with_plan(100_000, DistributionMethod::LumpSum);
    vault.plans[0].plan.total_loaned = 40_000;
    vault.trigger_inheritance(account(ADMIN), plan_id, 321).unwrap();
    let info = vault.get_inheritance_trigger(plan_id).unwrap();
    assert_eq!(info.triggered_at, 321);
    assert!(info.loan_freeze_active);
    assert!(!info.recall_attempted);
    assert!(!info.liquidation_triggered);
    assert_eq!((info.original_loaned, info.recalled_amount, info.settled_amount), (40_000, 0, 0));
    assert!(!vault.get_plan_details(plan_id).unwrap().is_lendable);
    assert!(vault.get_inheritance_trigger(2).is_none());

    assert_eq!(
        vault.recall_loan(account(ADMIN), plan_id, 25_000),
        Ok(LoanRecallEvent { plan_id, recalled_amount: 25_000, remaining_loaned: 15_000 })
    );
    assert_eq!(
        vault.liquidation_fallback(account(ADMIN), plan_id),
        Ok(LiquidationFallbackEvent { plan_id, settled_amount: 15_000, claimable_amount: 83_000 })
    );
    assert!(vault.is_solvent());
}

#[test]
fn trigger_lifecycle_is_refused_in_order() {
    let (mut vault, plan_id) = vault_with_plan(100_000, DistributionMethod::LumpSum);
    let admin = account(ADMIN);
    let mut fresh = InheritanceContract::new();
    assert_eq!(fresh.trigger_inheritance(admin, 1, 0), Err(InheritanceError::AdminNotSet));
    assert_eq!(fresh.recall_loan(admin, 1, 1), Err(InheritanceError::AdminNotSet));
    assert_eq!(fresh.liquidation_fallback(admin, 1), Err(InheritanceError::AdminNotSet));

    let before = vault.clone();
    assert_eq!(vault.trigger_inheritance(account(2), 9, 0), Err(InheritanceError::NotAdmin));
    assert_eq!(vault.trigger_inheritance(admin, 9, 0), Err(InheritanceError::PlanNotFound));
    assert_eq!(vault.recall_loan(account(2), 9, 0), Err(InheritanceError::NotAdmin));
    assert_eq!(vault.recall_loan(admin, 9, 0), Err(InheritanceError::PlanNotFound));
    assert_eq!(vault.recall_loan(admin, plan_id, 0), Err(InheritanceError::InheritanceNotTriggered));
    assert_eq!(vault.liquidation_fallback(account(2), 9), Err(InheritanceError::NotAdmin));
    assert_eq!(vault.liquidation_fallback(admin, 9), Err(InheritanceError::PlanNotFound));
    assert_eq!(
        vault.liquidation_fallback(admin, plan_id),
        Err(InheritanceError::InheritanceNotTriggered)
    );
    assert_eq!(vault, before);

    vault.trigger_inheritance(admin, plan_id, 0).unwrap();
    assert_eq!(
        vault.trigger_inheritance(admin, plan_id, 1),
        Err(InheritanceError::InheritanceAlreadyTriggered)
    );
    assert_eq!(vault.recall_loan(admin, plan_id, 0), Err(InheritanceError::NoOutstandingLoans));
    assert_eq!(vault.liquidation_fallback(admin, plan_id), Err(InheritanceError::NoOutstandingLoans));
    vault.plans[0].plan.total_loaned = 10;
    assert_eq!(vault.recall_loan(admin, plan_id, 0), Err(InheritanceError::LoanRecallFailed));
    assert_eq!(vault.recall_loan(admin, plan_id, 11), Err(InheritanceError::LoanRecallFailed));
    assert!(vault.recall_loan(admin, plan_id, 10).is_ok());

    let (mut inactive, id) = vault_with_plan(1_000, DistributionMethod::LumpSum);
    inactive.deactivate_inheritance_plan(account(OWNER), id, 0).unwrap();
    assert_eq!(inactive.trigger_inheritance(admin, id, 0), Err(InheritanceError::PlanNotActive));
}

#[test]
fn checks_tell_what_an_operation_would_answer() {
    let (mut vault, plan_id) = vault_with_plan(1_000, DistributionMethod::LumpSum);
    let admin = account(ADMIN);
    assert_eq!(
        vault.check_deposit(account(2), plan_id, u64::MAX, 0, false),
        Some(InheritanceError::Unauthorized)
    );
    assert_eq!(vault.check_deposit(account(OWNER), plan_id, u64::MAX, i128::MAX, true), None);
    assert_eq!(vault.check_deposit(account(OWNER), plan_id, 5, 5, true), None);
    assert_eq!(
        vault.check_settlement(admin, plan_id),
        Some(InheritanceError::InheritanceNotTriggered)
    );
    vault.trigger_inheritance(admin, plan_id, 0).unwrap();
    assert_eq!(vault.check_settlement(admin, plan_id), Some(InheritanceError::NoOutstandingLoans));
    vault.plans[0].plan.total_loaned = 10;
    assert_eq!(vault.check_settlement(admin, plan_id), None);
    assert_eq!(vault.check_settlement(account(2), plan_id), Some(InheritanceError::NotAdmin));
    assert_eq!(vault.check_recall(admin, plan_id, 11), Some(InheritanceError::LoanRecallFailed));
    assert_eq!(vault.check_recall(admin, plan_id, 10), None);
}

#[test]
fn liquidation_fallback_never_takes_more_than_the_plan_holds() {
    let (mut vault, plan_id) = vault_with_plan(1_000, DistributionMethod::LumpSum);
    vault.trigger_inheritance(account(ADMIN), plan_id, 0).unwrap();
    // more lent out than held
    vault.plans[0].plan.total_loaned = 2_000;
    let event = vault.liquidation_fallback(account(ADMIN), plan_id).unwrap();
    assert_eq!(event.settled_amount, 2_000);
    assert_eq!(event.claimable_amount, 0);
    let plan = vault.get_plan_details(plan_id).unwrap();
    assert_eq!((plan.total_amount, plan.total_loaned), (0, 0));
}

// ----- Identity checks -----

#[test]
fn kyc_moves_from_submitted_to_one_decision() {
    let mut vault = InheritanceContract::new();
    let admin = account(ADMIN);
    let user = account(5);
    assert_eq!(vault.approve_kyc(admin, user, 1).unwrap_err(), InheritanceError::AdminNotSet);
    vault.initialize_admin(admin).unwrap();
    assert_eq!(vault.approve_kyc(account(2), user, 1).unwrap_err(), InheritanceError::NotAdmin);
    assert_eq!(vault.approve_kyc(admin, user, 1).unwrap_err(), InheritanceError::KycNotSubmitted);
    assert_eq!(vault.reject_kyc(admin, user, 1).unwrap_err(), InheritanceError::KycNotSubmitted);
    assert!(vault.get_kyc(&user).is_none());

    vault.submit_kyc(user, 10).unwrap();
    vault.submit_kyc(user, 11).unwrap();
    let status = vault.get_kyc(&user).unwrap();
    assert!(status.submitted && !status.approved && !status.rejected);
    assert_eq!(status.submitted_at, 11);

    let event = vault.approve_kyc(admin, user, 20).unwrap();
    assert_eq!((event.user, event.approved_at), (user, 20));
    let status = vault.get_kyc(&user).unwrap();
    assert!(status.approved);
    assert_eq!((status.submitted_at, status.approved_at, status.rejected_at), (11, 20, 0));

    assert_eq!(vault.approve_kyc(admin, user, 21).unwrap_err(), InheritanceError::KycAlreadyApproved);
    assert_eq!(vault.submit_kyc(user, 22).unwrap_err(), InheritanceError::KycAlreadyApproved);
    // an approved check cannot be rejected
    assert_eq!(vault.reject_kyc(admin, user, 23).unwrap_err(), InheritanceError::KycAlreadyApproved);

    let other = account(6);
    vault.submit_kyc(other, 30).unwrap();
    let event = vault.reject_kyc(admin, other, 31).unwrap();
    assert_eq!((event.user, event.rejected_at), (other, 31));
    assert_eq!(vault.reject_kyc(admin, other, 32).unwrap_err(), InheritanceError::KycAlreadyRejected);
    // a rejected check cannot be approved
    assert_eq!(vault.approve_kyc(admin, other, 33).unwrap_err(), InheritanceError::KycAlreadyRejected);
    // but it can be submitted again
    assert!(vault.submit_kyc(other, 34).is_ok());
    assert!(vault.is_well_formed());
}

// ----- Versions -----

#[test]
fn upgrade_counts_versions_up() {
    let mut vault = InheritanceContract::new();
    let admin = account(ADMIN);
    let hash = Digest { bytes: [9u8; 32] };
    assert_eq!(vault.upgrade(admin, hash, 5).unwrap_err(), InheritanceError::AdminNotSet);
    vault.initialize_admin(admin).unwrap();
    assert_eq!(vault.upgrade(account(2), hash, 5).unwrap_err(), InheritanceError::NotAdmin);
    assert_eq!(vault.version(), 1);
    let event = vault.upgrade(admin, hash, 5).unwrap();
    assert_eq!((event.old_version, event.new_version, event.upgraded_at), (1, 2, 5));
    assert_eq!((event.admin, event.new_wasm_hash), (admin, hash));
    assert_eq!(vault.version(), 2);
    assert_eq!(vault.migrate(admin), Err(InheritanceError::MigrationNotRequired));
    assert_eq!(vault.migrate(account(2)), Err(InheritanceError::NotAdmin));
}

#[test]
fn migrate_sets_a_missing_version() {
    let mut vault = InheritanceContract::new();
    let admin = account(ADMIN);
    assert_eq!(vault.migrate(admin), Err(InheritanceError::AdminNotSet));
    vault.initialize_admin(admin).unwrap();
    assert_eq!(vault.version, None);
    assert_eq!(vault.migrate(admin), Ok(()));
    assert_eq!(vault.version, Some(1));
    assert_eq!(vault.migrate(admin), Err(InheritanceError::MigrationNotRequired));
}

// ----- Listings -----

#[test]
fn listings_keep_their_order() {
    let mut vault = InheritanceContract::new();
    let admin = account(ADMIN);
    vault.initialize_admin(admin).unwrap();
    let make = |vault: &mut InheritanceContract, owner: u128, amount: u64| -> u64 {
        vault
            .create_inheritance_plan(
                params(
                    account(owner),
                    amount,
                    DistributionMethod::LumpSum,
                    vec![entry("Alice", "alice@example.com", 123456, 10000)],
                ),
                amount as i128,
                true,
                true,
                0,
            )
            .unwrap()
    };
    let plan_a = make(&mut vault, 1, 1_000);
    let plan_b = make(&mut vault, 2, 2_000);
    let plan_c = make(&mut vault, 1, 3_000);
    let plan_d = make(&mut vault, 1, 4_000);
    let amounts = |plans: Vec<inheritance_protocol::inheritance::types::InheritancePlan>| -> Vec<u64> {
        plans.iter().map(|p| p.total_amount).collect()
    };
    assert_eq!(amounts(vault.get_user_plans(account(1))), vec![980, 2_940, 3_920]);
    assert_eq!(amounts(vault.get_user_plans(account(3))), Vec::<u64>::new());
    assert_eq!(amounts(vault.get_all_plans(admin).unwrap()), vec![980, 1_960, 2_940, 3_920]);

    let alice = "alice@example.com".to_string();
    vault.claim_inheritance_plan(plan_d, &alice, 123456, 0).unwrap();
    vault.claim_inheritance_plan(plan_b, &alice, 123456, 0).unwrap();
    vault.deactivate_inheritance_plan(account(1), plan_c, 0).unwrap();
    vault.deactivate_inheritance_plan(account(1), plan_a, 0).unwrap();

    assert_eq!(vault.claimed_plans, vec![plan_d, plan_b]);
    assert_eq!(amounts(vault.get_all_claimed_plans(admin).unwrap()), vec![0, 0]);
    assert_eq!(vault.get_user_claimed_plans(account(1)).len(), 1);
    assert_eq!(vault.get_user_claimed_plans(account(2)).len(), 1);
    assert_eq!(
        vault.get_claimed_plan(account(1), plan_a).unwrap_err(),
        InheritanceError::PlanNotClaimed
    );
    assert_eq!(vault.get_claimed_plan(account(2), plan_d).unwrap_err(), InheritanceError::Unauthorized);
    assert_eq!(vault.get_claimed_plan(account(1), 9).unwrap_err(), InheritanceError::PlanNotFound);
    assert!(vault.get_claimed_plan(account(1), plan_d).is_ok());

    // deactivated plans come in the order of deactivation
    assert_eq!(amounts(vault.get_all_deactivated_plans(admin).unwrap()), vec![2_940, 980]);
    // a user's come in the order of creation
    assert_eq!(amounts(vault.get_user_deactivated_plans(account(1))), vec![980, 2_940]);
    assert_eq!(amounts(vault.get_user_pending_plans(account(1))), vec![0]);
    assert_eq!(amounts(vault.get_all_pending_plans(admin).unwrap()), vec![0, 0]);
    assert_eq!(vault.get_user_plan(account(2), plan_a).unwrap_err(), InheritanceError::Unauthorized);
    assert_eq!(vault.get_user_plan(account(2), 9).unwrap_err(), InheritanceError::PlanNotFound);
    assert_eq!(vault.get_user_plan(account(2), plan_b).unwrap().total_amount, 0);
}

// ----- Well-formedness -----

#[test]
fn states_put_together_by_hand_are_checked() {
    let (vault, _) = vault_with_plan(1_000, DistributionMethod::LumpSum);
    assert!(vault.is_well_formed());

    let mut wrong_total = vault.clone();
    wrong_total.plans[0].plan.total_allocation_bp = 9_999;
    assert!(!wrong_total.is_well_formed());

    let mut zero_share = vault.clone();
    zero_share.plans[0].plan.beneficiaries[0].allocation_bp = 0;
    zero_share.plans[0].plan.total_allocation_bp = 0;
    assert!(!zero_share.is_well_formed());

    let mut too_much = vault.clone();
    too_much.plans[0].plan.beneficiaries[0].allocation_bp = 10_001;
    too_much.plans[0].plan.total_allocation_bp = 10_001;
    assert!(!too_much.is_well_formed());

    let mut crowded = vault.clone();
    let one = crowded.plans[0].plan.beneficiaries[0].clone();
    crowded.plans[0].plan.beneficiaries = (0..11).map(|_| one.clone()).collect();
    crowded.plans[0].plan.beneficiaries.iter_mut().for_each(|b| b.allocation_bp = 1);
    crowded.plans[0].plan.total_allocation_bp = 11;
    assert!(!crowded.is_well_formed());

    let mut twice = vault.clone();
    let status = inheritance_protocol::inheritance::types::KycStatus {
        submitted: true,
        approved: false,
        rejected: false,
        submitted_at: 0,
        approved_at: 0,
        rejected_at: 0,
    };
    twice.kyc.entries.push((account(5), status));
    assert!(twice.is_well_formed());
    twice.kyc.entries.push((account(5), status));
    assert!(!twice.is_well_formed());

    let mut lent = vault.clone();
    lent.plans[0].plan.total_loaned = 981;
    assert!(lent.is_well_formed());
    assert!(!lent.is_solvent());
}

#[test]
fn error_codes_are_the_on_chain_numbers() {
    assert_eq!(InheritanceError::InvalidAssetType.code(), 1);
    assert_eq!(InheritanceError::Unauthorized.code(), 9);
    assert_eq!(InheritanceError::AlreadyClaimed.code(), 16);
    assert_eq!(InheritanceError::UpgradeFailed.code(), 25);
    assert_eq!(InheritanceError::InsufficientLiquidity.code(), 31);
    assert_eq!(InheritanceError::NoOutstandingLoans.code(), 35);
}
