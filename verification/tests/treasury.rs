use alian_contracts::shared::errors::Error;
use alian_contracts::shared::storage::set_paused;
use alian_contracts::shared::symbol::Symbol;
use alian_contracts::treasury::{reserve_balance, set_reserve_balance, TreasuryContract, TreasuryEnv};

const ADMIN: u64 = 1;
const ALICE: u64 = 2;
const BOB: u64 = 3;

fn sym(name: &str) -> Symbol {
    Symbol::from_bytes(name.as_bytes().to_vec())
}

fn setup() -> TreasuryEnv {
    let mut env = TreasuryEnv::new();
    TreasuryContract::initialize(&mut env, ADMIN, 1_000_000).unwrap();
    env
}

#[test]
fn deposit_updates_balances_and_emits_event() {
    let mut env = setup();
    TreasuryContract::add_treasury_manager(&mut env, ADMIN, ALICE).unwrap();

    assert!(TreasuryContract::deposit(&mut env, ALICE, sym("Reserve"), 50).is_ok());
    assert!(TreasuryContract::deposit(&mut env, ALICE, sym("Rewards"), 25).is_ok());

    assert_eq!(TreasuryContract::category_balance(&env, sym("Reserve")), 50);
    assert_eq!(TreasuryContract::category_balance(&env, sym("Rewards")), 25);
    assert_eq!(TreasuryContract::category_balance(&env, sym("Fees")), 0);
    let total = TreasuryContract::category_balance(&env, sym("Reserve"))
        + TreasuryContract::category_balance(&env, sym("Rewards"))
        + TreasuryContract::category_balance(&env, sym("Fees"));
    assert_eq!(total, 75);
}

#[test]
fn deposit_returns_overflow_for_category_overflow() {
    let mut env = setup();

    assert!(TreasuryContract::deposit(&mut env, ADMIN, sym("Reserve"), i128::MAX).is_ok());
    assert_eq!(
        TreasuryContract::deposit(&mut env, ADMIN, sym("Reserve"), 1).unwrap_err(),
        Error::Overflow
    );
}

#[test]
fn emergency_withdraw_rejects_when_not_paused() {
    let mut env = setup();

    let result = TreasuryContract::emergency_withdraw(&mut env, ADMIN, BOB, 100);

    assert_eq!(result, Err(Error::NotPaused));
}

#[test]
fn emergency_withdraw_succeeds_for_admin_while_paused() {
    let mut env = setup();
    set_paused(&mut env.shared, true);
    set_reserve_balance(&mut env, 1_000);

    TreasuryContract::emergency_withdraw(&mut env, ADMIN, BOB, 400).unwrap();

    let remaining = reserve_balance(&env);
    assert_eq!(remaining, 600);
}

#[test]
fn emergency_withdraw_validates_amount_and_reserve() {
    let mut env = setup();
    set_paused(&mut env.shared, true);
    set_reserve_balance(&mut env, 100);
    assert_eq!(TreasuryContract::emergency_withdraw(&mut env, ADMIN, BOB, 0), Err(Error::InvalidArgument));
    assert_eq!(TreasuryContract::emergency_withdraw(&mut env, ADMIN, BOB, 101), Err(Error::InsufficientBalance));
    assert_eq!(reserve_balance(&env), 100);
    assert_eq!(TreasuryContract::emergency_withdraw(&mut env, ADMIN, BOB, 100), Ok(()));
    assert_eq!(reserve_balance(&env), 0);
}

#[test]
fn withdraw_guards_apply_in_order() {
    let mut env = setup();
    TreasuryContract::deposit(&mut env, ADMIN, sym("Fees"), 500).unwrap();
    assert_eq!(TreasuryContract::withdraw(&mut env, BOB, ALICE, 10, sym("Fees")), Err(Error::Unauthorized));
    assert_eq!(TreasuryContract::withdraw(&mut env, ADMIN, ALICE, 0, sym("Fees")), Err(Error::InvalidArgument));
    assert_eq!(
        TreasuryContract::withdraw(&mut env, ADMIN, ALICE, 1_000_001, sym("Fees")),
        Err(Error::WithdrawalLimitExceeded)
    );
    assert_eq!(TreasuryContract::withdraw(&mut env, ADMIN, ALICE, 501, sym("Fees")), Err(Error::InsufficientBalance));
    assert_eq!(TreasuryContract::withdraw(&mut env, ADMIN, ALICE, 200, sym("Fees")), Ok(()));
    assert_eq!(TreasuryContract::category_balance(&env, sym("Fees")), 300);
}

#[test]
fn deposit_then_withdraw_restores_balance() {
    let mut env = setup();
    TreasuryContract::deposit(&mut env, ADMIN, sym("Rewards"), 70).unwrap();
    TreasuryContract::deposit(&mut env, ADMIN, sym("Rewards"), 30).unwrap();
    TreasuryContract::withdraw(&mut env, ADMIN, BOB, 30, sym("Rewards")).unwrap();
    assert_eq!(TreasuryContract::category_balance(&env, sym("Rewards")), 70);
}

#[test]
fn limits_and_managers_are_admin_controlled() {
    let mut env = TreasuryEnv::new();
    assert_eq!(TreasuryContract::initialize(&mut env, ADMIN, 0), Err(Error::InvalidArgument));
    TreasuryContract::initialize(&mut env, ADMIN, 10).unwrap();
    assert_eq!(TreasuryContract::withdrawal_limit(&env), 10);
    assert_eq!(TreasuryContract::set_withdrawal_limit(&mut env, ADMIN, -5), Err(Error::InvalidArgument));
    TreasuryContract::set_withdrawal_limit(&mut env, ADMIN, 20).unwrap();
    assert_eq!(TreasuryContract::withdrawal_limit(&env), 20);
    assert_eq!(TreasuryContract::add_treasury_manager(&mut env, BOB, ALICE), Err(Error::Unauthorized));
    TreasuryContract::add_treasury_manager(&mut env, ADMIN, ALICE).unwrap();
    assert!(TreasuryContract::deposit(&mut env, ALICE, sym("Fees"), 5).is_ok());
    TreasuryContract::remove_treasury_manager(&mut env, ADMIN, ALICE).unwrap();
    assert_eq!(TreasuryContract::deposit(&mut env, ALICE, sym("Fees"), 5), Err(Error::Unauthorized));
    assert_eq!(TreasuryContract::withdrawal_limit(&TreasuryEnv::new()), 0);
}

#[test]
fn manager_deposit_that_fits_succeeds() {
    let mut env = setup();
    TreasuryContract::deposit(&mut env, ADMIN, sym("Fees"), i128::MAX - 5).unwrap();
    assert_eq!(TreasuryContract::deposit(&mut env, ADMIN, sym("Fees"), 5), Ok(()));
    assert_eq!(TreasuryContract::category_balance(&env, sym("Fees")), i128::MAX);
    assert_eq!(TreasuryContract::category_balance(&env, sym("Rewards")), 0);
}
