use inheritance_protocol::address::{Address, AddressKind, Party, Transfer};
use inheritance_protocol::lending::contract::LendingContract;
use inheritance_protocol::lending::types::{
    BorrowEvent, CollateralDepositEvent, DepositEvent, LendingError, PoolState,
    PriorityWithdrawEvent, RepayEvent, WithdrawEvent,
};
use inheritance_protocol::math::{bps_share, mul_div_u64};

fn account(n: u128) -> Address {
    Address { kind: AddressKind::Account, hi: 0, lo: n }
}

fn token(n: u128) -> Address {
    Address { kind: AddressKind::Contract, hi: 0, lo: n }
}

const ADMIN: u128 = 100;
const COLLATERAL: u128 = 8;
const YEAR: u64 = 31_536_000;

fn pool_of(total_deposits: u64, total_shares: u64, total_borrowed: u64) -> PoolState {
    PoolState {
        total_deposits,
        total_shares,
        total_borrowed,
        base_rate_bps: 500,
        multiplier_bps: 2000,
        utilization_cap_bps: 10000,
        retained_yield: 0,
        bad_debt_reserve: 0,
    }
}

/// A pool at 5% base rate, 20% multiplier, 150% collateral and the given
/// cap, with one collateral token accepted.
fn pool_with_cap(cap: u32) -> LendingContract {
    let mut pool = LendingContract::new();
    pool.initialize(account(ADMIN), token(7), 500, 2000, 15000, cap).unwrap();
    pool.whitelist_collateral(account(ADMIN), token(COLLATERAL)).unwrap();
    pool
}

fn borrow(
    pool: &mut LendingContract,
    borrower: u128,
    amount: u64,
    collateral: u64,
    now: u64,
) -> Result<(BorrowEvent, CollateralDepositEvent), LendingError> {
    pool.borrow(account(borrower), amount, token(COLLATERAL), collateral, 1_000, now, true, true)
}

// ----- Arithmetic -----

#[test]
fn chains_yield_zero_where_they_do_not_fit() {
    assert_eq!(mul_div_u64(9_000, 10_675, 10_000), 9_607);
    assert_eq!(mul_div_u64(7, 3, 0), 0);
    assert_eq!(mul_div_u64(u64::MAX, u64::MAX, u64::MAX), u64::MAX);
    assert_eq!(mul_div_u64(u64::MAX, 2, 1), 0);
    assert_eq!(bps_share(980, 10000), 980);
    assert_eq!(bps_share(9_800, 7500), 7_350);
    assert_eq!(bps_share(1, 9999), 0);
    assert_eq!(bps_share(u64::MAX, 10000), u64::MAX);
}

#[test]
fn shares_follow_the_pool_ratio() {
    assert_eq!(LendingContract::shares_for_deposit(&pool_of(0, 0, 0), 2_000), 2_000);
    assert_eq!(LendingContract::shares_for_deposit(&pool_of(0, 5, 0), 2_000), 2_000);
    assert_eq!(LendingContract::shares_for_deposit(&pool_of(3_000, 2_000, 0), 300), 200);
    assert_eq!(LendingContract::shares_for_deposit(&pool_of(3_000, 2_000, 0), 1), 0);
    assert_eq!(LendingContract::shares_for_deposit(&pool_of(1, u64::MAX, 0), 2), 0);

    assert_eq!(LendingContract::assets_for_shares(&pool_of(5, 0, 0), 7), 0);
    assert_eq!(LendingContract::assets_for_shares(&pool_of(10_675, 10_000, 0), 9_000), 9_607);
    assert_eq!(LendingContract::assets_for_shares(&pool_of(u64::MAX, 1, 0), 2), 0);
}

#[test]
fn interest_is_simple_and_rounded_down() {
    assert_eq!(LendingContract::calculate_interest(5_000, 1500, YEAR), 750);
    assert_eq!(LendingContract::calculate_interest(5_000, 1500, 3_600), 0);
    assert_eq!(LendingContract::calculate_interest(5_000, 1500, 0), 0);
    assert_eq!(LendingContract::calculate_interest(5_000, 0, YEAR), 0);
    assert_eq!(LendingContract::calculate_interest(1_000_000, 900, YEAR / 2), 45_000);
    // 10000 * 3 * 1 year / (10000 * 1 year) = 3
    assert_eq!(LendingContract::calculate_interest(10_000, 3, YEAR), 3);
    // a product beyond 128 bits
    assert_eq!(LendingContract::calculate_interest(u64::MAX, u32::MAX, u64::MAX), 0);
    // an interest beyond 64 bits
    assert_eq!(LendingContract::calculate_interest(u64::MAX, u32::MAX, YEAR), 0);
    assert_eq!(LendingContract::calculate_interest(u64::MAX, 10000, YEAR), u64::MAX);
}

#[test]
fn utilization_and_rate_saturate() {
    assert_eq!(LendingContract::get_utilization_bps(5_000, 10_000), 5_000);
    assert_eq!(LendingContract::get_utilization_bps(8_001, 10_000), 8_001);
    assert_eq!(LendingContract::get_utilization_bps(1, 3), 3_333);
    assert_eq!(LendingContract::get_utilization_bps(5_000, 0), 0);
    assert_eq!(LendingContract::get_utilization_bps(u64::MAX, u64::MAX), 10_000);
    assert_eq!(LendingContract::get_utilization_bps(u64::MAX, 1), u32::MAX);

    assert_eq!(LendingContract::calculate_dynamic_rate(500, 2000, 0), 500);
    assert_eq!(LendingContract::calculate_dynamic_rate(500, 2000, 2000), 900);
    assert_eq!(LendingContract::calculate_dynamic_rate(500, 2000, 5000), 1500);
    assert_eq!(LendingContract::calculate_dynamic_rate(500, 2000, 9999), 2499);
    assert_eq!(LendingContract::calculate_dynamic_rate(u32::MAX, 1, 10000), u32::MAX);
    assert_eq!(LendingContract::calculate_dynamic_rate(0, u32::MAX, u32::MAX), u32::MAX);
}

// ----- Before initialisation -----

#[test]
fn nothing_works_before_initialisation() {
    let mut pool = LendingContract::new();
    assert!(pool.is_well_formed());
    assert_eq!(pool.get_pool_state(), Err(LendingError::NotInitialized));
    assert_eq!(pool.available_liquidity(), Err(LendingError::NotInitialized));
    assert_eq!(pool.get_current_interest_rate(), Err(LendingError::NotInitialized));
    assert_eq!(pool.get_collateral_ratio_bps(), 15000);
    assert_eq!(pool.get_shares_of(account(1)), 0);
    assert_eq!(pool.deposit(account(1), 0, false), Err(LendingError::NotInitialized));
    assert_eq!(pool.withdraw(account(1), 0, false), Err(LendingError::NotInitialized));
    assert_eq!(
        pool.borrow(account(1), 0, token(COLLATERAL), 0, 0, 0, false, false),
        Err(LendingError::NotInitialized)
    );
    assert_eq!(pool.repay(account(1), 0, false, false), Err(LendingError::NotInitialized));
    assert_eq!(pool.withdraw_priority(account(1), 0, false), Err(LendingError::NotInitialized));
    assert_eq!(pool.whitelist_collateral(account(1), token(2)), Err(LendingError::NotAdmin));
    assert_eq!(pool.remove_collateral(account(1), token(2)), Err(LendingError::NotAdmin));
    assert_eq!(pool.get_repayment_amount(account(1), 0), Err(LendingError::NoOpenLoan));
    assert_eq!(pool, LendingContract::new());
}

#[test]
fn initialisation_sets_the_pool() {
    let mut pool = LendingContract::new();
    assert_eq!(pool.initialize(account(ADMIN), token(7), 1, 2, 3, 4), Ok(()));
    let state = pool.get_pool_state().unwrap();
    assert_eq!(
        state,
        PoolState {
            total_deposits: 0,
            total_shares: 0,
            total_borrowed: 0,
            base_rate_bps: 1,
            multiplier_bps: 2,
            utilization_cap_bps: 4,
            retained_yield: 0,
            bad_debt_reserve: 0
        }
    );
    assert_eq!(pool.get_collateral_ratio_bps(), 3);
    assert_eq!(pool.config.unwrap().token, token(7));
    assert_eq!(
        pool.initialize(account(ADMIN), token(7), 9, 9, 9, 9),
        Err(LendingError::AlreadyInitialized)
    );
    assert_eq!(pool.get_collateral_ratio_bps(), 3);
    assert_eq!(pool.whitelist_collateral(account(1), token(2)), Err(LendingError::NotAdmin));
    assert!(pool.is_well_formed());
}

// ----- Deposits and withdrawals -----

#[test]
fn first_deposit_locks_the_minimum_liquidity() {
    let mut pool = pool_with_cap(10000);
    let before = pool.clone();
    assert_eq!(pool.deposit(account(1), 0, false), Err(LendingError::InvalidAmount));
    assert_eq!(pool.deposit(account(1), 1_000, false), Err(LendingError::TransferFailed));
    assert_eq!(pool.deposit(account(1), 1_000, true), Err(LendingError::InvalidAmount));
    assert_eq!(pool.deposit(account(1), 1, true), Err(LendingError::InvalidAmount));
    assert_eq!(pool, before);
    assert_eq!(
        pool.deposit(account(1), 1_001, true),
        Ok(DepositEvent { depositor: account(1), amount: 1_001, shares_minted: 1 })
    );
    let state = pool.get_pool_state().unwrap();
    assert_eq!((state.total_deposits, state.total_shares), (1_001, 1_001));
    assert_eq!(pool.get_shares_of(account(1)), 1);
    assert!(pool.is_well_formed());
    // the locked shares belong to nobody
    assert_eq!(pool.withdraw(account(1), 2, true), Err(LendingError::InsufficientShares));
    assert_eq!(
        pool.withdraw(account(1), 1, true),
        Ok(WithdrawEvent { depositor: account(1), shares_burned: 1, amount: 1 })
    );
    let state = pool.get_pool_state().unwrap();
    assert_eq!((state.total_deposits, state.total_shares), (1_000, 1_000));
    assert!(pool.is_well_formed());
    // a later deposit is no first deposit
    assert_eq!(pool.deposit(account(2), 5, true).unwrap().shares_minted, 5);
}

#[test]
fn deposit_then_withdraw_gives_the_deposit_back() {
    // first depositor: less the lock
    let mut pool = pool_with_cap(10000);
    let shares = pool.deposit(account(1), 50_000, true).unwrap().shares_minted;
    assert_eq!(shares, 49_000);
    assert_eq!(pool.withdraw(account(1), shares, true).unwrap().amount, 49_000);
    assert_eq!(pool.get_shares_of(account(1)), 0);

    // later depositor: all of it
    let shares = pool.deposit(account(2), 12_345, true).unwrap().shares_minted;
    assert_eq!(shares, 12_345);
    let before = pool.get_pool_state().unwrap();
    assert_eq!((before.total_deposits, before.total_shares), (13_345, 13_345));
    assert_eq!(pool.withdraw(account(2), shares, true).unwrap().amount, 12_345);
    let after = pool.get_pool_state().unwrap();
    assert_eq!((after.total_deposits, after.total_shares), (1_000, 1_000));
    assert!(pool.is_well_formed());
}

#[test]
fn deposit_that_mints_nothing_is_refused() {
    let mut pool = pool_with_cap(10000);
    pool.deposit(account(1), 10_000, true).unwrap();
    borrow(&mut pool, 2, 5_000, 7_500, 0).unwrap();
    pool.repay(account(2), YEAR * 20, true, true).unwrap();
    // 20 years at 15%: 15_000 interest, 13_500 of it for the depositors
    let state = pool.get_pool_state().unwrap();
    assert_eq!((state.total_deposits, state.total_shares), (23_500, 10_000));
    let before = pool.clone();
    // 2 * 10_000 / 23_500 = 0
    assert_eq!(pool.deposit(account(3), 2, true), Err(LendingError::InvalidAmount));
    assert_eq!(pool, before);
    // 3 * 10_000 / 23_500 = 1
    assert_eq!(pool.deposit(account(3), 3, true).unwrap().shares_minted, 1);
    assert!(pool.is_well_formed());
}

#[test]
fn share_withdrawals_are_refused_in_order() {
    let mut pool = pool_with_cap(10000);
    pool.deposit(account(1), 3_000, true).unwrap();
    borrow(&mut pool, 2, 2_500, 3_750, 0).unwrap();
    let before = pool.clone();
    assert_eq!(pool.withdraw(account(1), 0, false), Err(LendingError::InvalidAmount));
    assert_eq!(pool.withdraw(account(1), 2_001, false), Err(LendingError::InsufficientShares));
    assert_eq!(pool.withdraw(account(9), 1, false), Err(LendingError::InsufficientShares));
    assert_eq!(pool.withdraw(account(1), 501, false), Err(LendingError::InsufficientLiquidity));
    assert_eq!(pool.withdraw(account(1), 500, false), Err(LendingError::TransferFailed));
    assert_eq!(pool, before);
    assert_eq!(pool.withdraw(account(1), 500, true).unwrap().amount, 500);
    assert_eq!(pool.available_liquidity(), Ok(0));
    assert!(pool.is_well_formed());
}

// ----- Loans -----

#[test]
fn pool_loans_are_refused_in_order() {
    let mut pool = pool_with_cap(8000);
    pool.deposit(account(1), 10_000, true).unwrap();
    let before = pool.clone();
    let unknown = token(99);
    assert_eq!(
        pool.borrow(account(2), 0, unknown, 5, 10, 0, false, false),
        Err(LendingError::InvalidAmount)
    );
    assert_eq!(
        pool.borrow(account(2), 5, unknown, 0, 10, 0, false, false),
        Err(LendingError::InvalidAmount)
    );
    assert_eq!(
        pool.borrow(account(2), 20_000, unknown, 1, 10, 0, false, false),
        Err(LendingError::CollateralNotWhitelisted)
    );
    assert_eq!(
        pool.borrow(account(2), 20_000, token(COLLATERAL), 29_999, 10, 0, false, false),
        Err(LendingError::InsufficientCollateral)
    );
    assert_eq!(
        pool.borrow(account(2), 20_000, token(COLLATERAL), 30_000, 10, 0, false, false),
        Err(LendingError::InsufficientLiquidity)
    );
    assert_eq!(
        pool.borrow(account(2), 8_001, token(COLLATERAL), 12_002, 10, 0, false, false),
        Err(LendingError::UtilizationCapExceeded)
    );
    assert_eq!(
        pool.borrow(account(2), 8_000, token(COLLATERAL), 12_000, 10, 0, false, true),
        Err(LendingError::TransferFailed)
    );
    assert_eq!(
        pool.borrow(account(2), 8_000, token(COLLATERAL), 12_000, 10, 0, true, false),
        Err(LendingError::TransferFailed)
    );
    assert_eq!(pool, before);

    let events = pool.borrow(account(2), 8_000, token(COLLATERAL), 12_000, 10, 7, true, true).unwrap();
    assert_eq!(
        events.0,
        BorrowEvent {
            loan_id: 1,
            borrower: account(2),
            amount: 8_000,
            collateral_amount: 12_000,
            due_date: 17
        }
    );
    assert_eq!(
        events.1,
        CollateralDepositEvent {
            loan_id: 1,
            borrower: account(2),
            collateral_token: token(COLLATERAL),
            amount: 12_000
        }
    );
    // the rate is the one at the utilisation that the loan leaves behind
    let loan = pool.get_loan(account(2)).unwrap();
    assert_eq!(loan.interest_rate_bps, 500 + 8_000 * 2_000 / 10_000);
    assert_eq!((loan.borrow_time, loan.due_date), (7, 17));
    let state = pool.get_pool_state().unwrap();
    assert!(
        LendingContract::get_utilization_bps(state.total_borrowed, state.total_deposits)
            <= state.utilization_cap_bps
    );
    assert_eq!(
        pool.borrow(account(2), 1, token(99), 1, 10, 0, true, true),
        Err(LendingError::CollateralNotWhitelisted)
    );
    assert_eq!(
        pool.borrow(account(2), 1, token(COLLATERAL), 1, 10, 0, true, true),
        Err(LendingError::LoanAlreadyExists)
    );
    assert!(pool.is_well_formed());
}

#[test]
fn collateral_is_compared_without_narrowing() {
    let mut pool = LendingContract::new();
    pool.initialize(account(ADMIN), token(7), 0, 0, u32::MAX, 10000).unwrap();
    pool.whitelist_collateral(account(ADMIN), token(COLLATERAL)).unwrap();
    pool.deposit(account(1), u64::MAX / 2, true).unwrap();
    // asks for about 4.3e5 times the amount, which no u64 holds
    assert_eq!(
        pool.borrow(account(2), u64::MAX / 4, token(COLLATERAL), u64::MAX, 10, 0, true, true),
        Err(LendingError::InsufficientCollateral)
    );
}

#[test]
fn borrow_then_repay_at_once_changes_nothing() {
    let mut pool = pool_with_cap(10000);
    pool.deposit(account(1), 10_000, true).unwrap();
    let before = pool.clone();
    borrow(&mut pool, 2, 4_000, 6_000, 500).unwrap();
    assert_eq!(pool.get_repayment_amount(account(2), 500), Ok(4_000));
    let event = pool.repay(account(2), 500, true, true).unwrap();
    assert_eq!(
        event,
        RepayEvent {
            loan_id: 1,
            borrower: account(2),
            principal: 4_000,
            interest: 0,
            total_amount: 4_000,
            collateral_returned: 6_000
        }
    );
    assert_eq!(pool.pool, before.pool);
    assert_eq!(pool.get_pool_state().unwrap().total_borrowed, 0);
    assert!(pool.get_loan(account(2)).is_none());
    assert!(pool.get_loan_by_id(1).is_none());
    assert_eq!(pool.shares, before.shares);
    // only the loan counter has moved
    assert_eq!(pool.next_loan_id, before.next_loan_id + 1);
}

#[test]
fn repaid_interest_is_split() {
    let mut pool = pool_with_cap(10000);
    pool.deposit(account(1), 10_000, true).unwrap();
    borrow(&mut pool, 2, 5_000, 7_500, 100).unwrap();
    assert_eq!(pool.get_current_interest_rate(), Ok(1500));
    assert_eq!(pool.get_repayment_amount(account(2), 100 + YEAR), Ok(5_750));
    // time that runs backwards accrues nothing
    assert_eq!(pool.get_repayment_amount(account(2), 0), Ok(5_000));

    let before = pool.clone();
    assert_eq!(pool.repay(account(9), 100 + YEAR, true, true), Err(LendingError::NoOpenLoan));
    assert_eq!(pool.repay(account(2), 100 + YEAR, false, true), Err(LendingError::TransferFailed));
    assert_eq!(pool.repay(account(2), 100 + YEAR, true, false), Err(LendingError::TransferFailed));
    assert_eq!(pool, before);

    let event = pool.repay(account(2), 100 + YEAR, true, true).unwrap();
    assert_eq!((event.principal, event.interest, event.total_amount), (5_000, 750, 5_750));
    assert_eq!(event.collateral_returned, 7_500);
    let state = pool.get_pool_state().unwrap();
    // 750 interest: 75 for the protocol, of which 37 to the reserve and 38 retained
    assert_eq!(state.total_deposits, 10_675);
    assert_eq!(state.retained_yield, 38);
    assert_eq!(state.bad_debt_reserve, 37);
    assert_eq!(state.total_borrowed, 0);
    assert_eq!(state.total_shares, 10_000);
    assert!(pool.is_well_formed());
}

#[test]
fn priority_withdrawal_takes_retained_yield_only() {
    let mut pool = pool_with_cap(10000);
    pool.deposit(account(1), 10_000, true).unwrap();
    borrow(&mut pool, 2, 5_000, 7_500, 0).unwrap();
    pool.repay(account(2), YEAR, true, true).unwrap();
    let before = pool.clone();
    assert_eq!(pool.withdraw_priority(account(3), 0, true), Err(LendingError::InvalidAmount));
    assert_eq!(pool.withdraw_priority(account(3), 39, true), Err(LendingError::InsufficientLiquidity));
    assert_eq!(pool.withdraw_priority(account(3), 38, false), Err(LendingError::TransferFailed));
    assert_eq!(pool, before);
    assert_eq!(
        pool.withdraw_priority(account(3), 30, true),
        Ok(PriorityWithdrawEvent { caller: account(3), amount: 30 })
    );
    let state = pool.get_pool_state().unwrap();
    assert_eq!(state.retained_yield, 8);
    assert_eq!(state.total_deposits, before.pool.total_deposits);
    assert_eq!(state.bad_debt_reserve, 37);
    assert_eq!(pool.withdraw_priority(account(3), 9, true), Err(LendingError::InsufficientLiquidity));
}

#[test]
fn loans_are_found_by_borrower_and_by_number() {
    let mut pool = pool_with_cap(10000);
    pool.deposit(account(1), 100_000, true).unwrap();
    for borrower in 2..6u128 {
        borrow(&mut pool, borrower, 1_000 * borrower as u64, 1_500 * borrower as u64, 0).unwrap();
    }
    pool.repay(account(3), 0, true, true).unwrap();
    assert_eq!(pool.get_loan_by_id(1).unwrap().borrower, account(2));
    assert!(pool.get_loan_by_id(2).is_none());
    assert_eq!(pool.get_loan_by_id(3).unwrap().principal, 4_000);
    assert_eq!(pool.get_loan_by_id(4).unwrap().borrower, account(5));
    assert!(pool.get_loan_by_id(5).is_none());
    assert!(pool.get_loan_by_id(0).is_none());
    assert_eq!(pool.get_loan(account(5)).unwrap().loan_id, 4);
    assert_eq!(pool.get_pool_state().unwrap().total_borrowed, 2_000 + 4_000 + 5_000);
    assert!(pool.is_well_formed());
}

#[test]
fn whitelist_is_kept_by_the_administrator() {
    let mut pool = pool_with_cap(10000);
    assert!(pool.is_whitelisted(token(COLLATERAL)));
    assert_eq!(pool.remove_collateral(account(1), token(COLLATERAL)), Err(LendingError::NotAdmin));
    assert!(pool.is_whitelisted(token(COLLATERAL)));
    assert_eq!(pool.remove_collateral(account(ADMIN), token(COLLATERAL)), Ok(()));
    assert!(!pool.is_whitelisted(token(COLLATERAL)));
    assert_eq!(pool.remove_collateral(account(ADMIN), token(COLLATERAL)), Ok(()));
    assert_eq!(pool.require_admin(&account(ADMIN)), Ok(()));
    assert_eq!(pool.require_admin(&account(1)), Err(LendingError::NotAdmin));
}

// ----- Transfers -----

#[test]
fn operations_name_their_transfers() {
    let mut pool = LendingContract::new();
    assert_eq!(pool.deposit_transfer(account(1), 5), None);
    assert_eq!(pool.withdraw_transfer(account(1), 5), None);
    assert_eq!(pool.borrow_transfers(account(1), 5, token(COLLATERAL), 8), None);
    assert_eq!(pool.repay_transfers(account(1), 0), None);
    assert_eq!(pool.priority_transfer(account(1), 5), None);

    pool = pool_with_cap(10000);
    let into_pool = |token: Address, from: u128, amount: i128| Transfer {
        token,
        from: Party::Holder(account(from)),
        to: Party::Contract,
        amount,
    };
    let out_of_pool = |token: Address, to: u128, amount: i128| Transfer {
        token,
        from: Party::Contract,
        to: Party::Holder(account(to)),
        amount,
    };
    assert_eq!(pool.deposit_transfer(account(1), 10_000), Some(into_pool(token(7), 1, 10_000)));
    pool.deposit(account(1), 10_000, true).unwrap();
    assert_eq!(
        pool.borrow_transfers(account(2), 5_000, token(COLLATERAL), 7_500),
        Some((into_pool(token(COLLATERAL), 2, 7_500), out_of_pool(token(7), 2, 5_000)))
    );
    borrow(&mut pool, 2, 5_000, 7_500, 0).unwrap();
    assert_eq!(pool.repay_transfers(account(9), YEAR), None);
    assert!(pool.check_repay_fits(account(9), YEAR));
    assert!(pool.check_repay_fits(account(2), YEAR));
    assert_eq!(
        pool.repay_transfers(account(2), YEAR),
        Some((into_pool(token(7), 2, 5_750), out_of_pool(token(COLLATERAL), 2, 7_500)))
    );
    pool.repay(account(2), YEAR, true, true).unwrap();
    // 9_000 shares of 10_000 redeem 9_000 * 10_675 / 10_000
    assert_eq!(pool.withdraw_transfer(account(1), 9_000), Some(out_of_pool(token(7), 1, 9_607)));
    assert_eq!(pool.priority_transfer(account(3), 38), Some(out_of_pool(token(7), 3, 38)));
}

#[test]
fn repayments_that_do_not_fit_are_told_apart() {
    let mut pool = LendingContract::new();
    pool.initialize(account(ADMIN), token(7), u32::MAX, 0, 0, 10000).unwrap();
    pool.whitelist_collateral(account(ADMIN), token(COLLATERAL)).unwrap();
    pool.deposit(account(1), u64::MAX / 2, true).unwrap();
    pool.borrow(account(2), u64::MAX / 4, token(COLLATERAL), 1, 10, 0, true, true).unwrap();
    assert!(pool.check_repay_fits(account(2), 0));
    assert!(pool.check_repay_fits(account(2), 1_000));
    // about 4e5 times the principal a year: after 250 seconds the interest is
    // a u64 and the sum repaid is none
    assert!(!pool.check_repay_fits(account(2), 250));
    // after 315 seconds the interest itself is no u64 and counts as zero
    assert!(pool.check_repay_fits(account(2), 315));
    assert!(pool.check_repayment_fits(account(2), 315));
    assert!(!pool.check_repayment_fits(account(2), 250));
    assert!(pool.check_repayment_fits(account(9), 250));
    assert_eq!(pool.get_repayment_amount(account(2), 315), Ok(u64::MAX / 4));
    // what would be refused anyway is told apart from what does not fit
    assert_eq!(pool.check_deposit(u64::MAX, false), Some(LendingError::TransferFailed));
    assert_eq!(pool.check_deposit(u64::MAX, true), None);
    assert_eq!(
        pool.check_borrow(account(2), 1, token(COLLATERAL), 1, true, true),
        Some(LendingError::LoanAlreadyExists)
    );
    assert_eq!(pool.check_borrow(account(3), 1, token(COLLATERAL), 1, true, true), None);
}

// ----- Well-formedness -----

#[test]
fn pool_states_put_together_by_hand_are_checked() {
    let mut pool = pool_with_cap(10000);
    pool.deposit(account(1), 10_000, true).unwrap();
    pool.deposit(account(2), 500, true).unwrap();
    borrow(&mut pool, 3, 2_000, 3_000, 0).unwrap();
    assert!(pool.is_well_formed());

    let mut overborrowed = pool.clone();
    overborrowed.pool.total_borrowed = 10_501;
    assert!(!overborrowed.is_well_formed());

    let mut unbacked = pool.clone();
    unbacked.pool.total_shares += 1;
    assert!(!unbacked.is_well_formed());

    let mut lost_loan = pool.clone();
    lost_loan.loans.entries.clear();
    assert!(!lost_loan.is_well_formed());

    let mut misfiled = pool.clone();
    misfiled.loans.entries[0].0 = account(4);
    assert!(!misfiled.is_well_formed());

    let mut renumbered = pool.clone();
    renumbered.next_loan_id = 1;
    assert!(!renumbered.is_well_formed());

    let mut twice = pool.clone();
    twice.whitelist.entries.push((token(COLLATERAL), true));
    assert!(!twice.is_well_formed());

    let mut headless = pool.clone();
    headless.config = None;
    assert!(!headless.is_well_formed());

    let mut empty_with_shares = pool_with_cap(10000);
    empty_with_shares.pool.total_shares = 1_000;
    assert!(!empty_with_shares.is_well_formed());
}

#[test]
fn lending_error_codes_are_the_on_chain_numbers() {
    assert_eq!(LendingError::NotInitialized.code(), 1);
    assert_eq!(LendingError::InsufficientShares.code(), 5);
    assert_eq!(LendingError::TransferFailed.code(), 9);
    assert_eq!(LendingError::Unauthorized.code(), 10);
    assert_eq!(LendingError::UtilizationCapExceeded.code(), 13);
}
