use alian_contracts::aid::errors::AidError;
use alian_contracts::aid::storage::AidEnv;
use alian_contracts::aid::types::AidStatus;
use alian_contracts::aid::AidContract;
use alian_contracts::shared::address::{Party, TokenTransfer};
use alian_contracts::shared::errors::Error;
use alian_contracts::shared::utils::Ledger;

const ADMIN: u64 = 1;
const DONOR: u64 = 2;
const RECIPIENT: u64 = 3;
const STRANGER: u64 = 4;
const TOKEN: u64 = 100;

fn setup() -> AidEnv {
    let mut env = AidEnv::new(Ledger { timestamp: 0, sequence: 0 });
    AidContract::initialize(&mut env, ADMIN).unwrap();
    env
}

fn advance_ledger(env: &mut AidEnv, to_sequence: u32) {
    env.ledger.sequence = to_sequence;
}

#[test]
fn claim_transfers_escrow_and_settles() {
    let mut env = setup();

    let escrow = AidContract::create_aid(&mut env, 1, DONOR, RECIPIENT, TOKEN, 500, 1_000).unwrap();
    assert_eq!(
        escrow,
        TokenTransfer { token: TOKEN, from: Party::Account(DONOR), to: Party::Contract, amount: 500 }
    );

    let payout = AidContract::claim_aid(&mut env, 1, RECIPIENT).unwrap();
    assert_eq!(
        payout,
        TokenTransfer { token: TOKEN, from: Party::Contract, to: Party::Account(RECIPIENT), amount: 500 }
    );

    let record = AidContract::get_aid(&env, 1).unwrap();
    assert_eq!(record.status, AidStatus::Settled);
}

#[test]
fn second_claim_returns_already_claimed() {
    let mut env = setup();
    AidContract::create_aid(&mut env, 1, DONOR, RECIPIENT, TOKEN, 500, 1_000).unwrap();
    AidContract::claim_aid(&mut env, 1, RECIPIENT).unwrap();

    let result = AidContract::claim_aid(&mut env, 1, RECIPIENT);
    assert_eq!(result, Err(AidError::AlreadyClaimed));
}

#[test]
fn claim_after_expiry_is_rejected() {
    let mut env = setup();
    AidContract::create_aid(&mut env, 1, DONOR, RECIPIENT, TOKEN, 500, 100).unwrap();

    advance_ledger(&mut env, 101);

    let result = AidContract::claim_aid(&mut env, 1, RECIPIENT);
    assert_eq!(result, Err(AidError::Expired));
}

#[test]
fn claim_by_wrong_address_is_unauthorized() {
    let mut env = setup();
    AidContract::create_aid(&mut env, 1, DONOR, RECIPIENT, TOKEN, 500, 1_000).unwrap();

    let result = AidContract::claim_aid(&mut env, 1, STRANGER);
    assert_eq!(result, Err(AidError::Unauthorized));
}

#[test]
fn claim_while_paused_is_rejected() {
    let mut env = setup();
    AidContract::create_aid(&mut env, 1, DONOR, RECIPIENT, TOKEN, 500, 1_000).unwrap();
    AidContract::set_paused(&mut env, ADMIN, true).unwrap();

    let result = AidContract::claim_aid(&mut env, 1, RECIPIENT);
    assert_eq!(result, Err(AidError::Paused));
}

#[test]
fn state_is_settled_before_transfer_state_is_consistent_on_success() {
    let mut env = setup();
    AidContract::create_aid(&mut env, 1, DONOR, RECIPIENT, TOKEN, 500, 1_000).unwrap();
    let payout = AidContract::claim_aid(&mut env, 1, RECIPIENT).unwrap();

    let record = AidContract::get_aid(&env, 1).unwrap();
    let moved = payout.to == Party::Account(RECIPIENT) && payout.amount == 500;
    assert_eq!(record.status, AidStatus::Settled);
    assert!(moved);
}

#[test]
fn refund_after_expiry_returns_funds_to_donor() {
    let mut env = setup();
    AidContract::create_aid(&mut env, 1, DONOR, RECIPIENT, TOKEN, 500, 100).unwrap();
    advance_ledger(&mut env, 101);

    let refund = AidContract::refund_expired(&mut env, 1).unwrap();

    assert_eq!(
        refund,
        TokenTransfer { token: TOKEN, from: Party::Contract, to: Party::Account(DONOR), amount: 500 }
    );
    let record = AidContract::get_aid(&env, 1).unwrap();
    assert_eq!(record.status, AidStatus::Refunded);
}

#[test]
fn reused_id_is_refused_without_overwriting() {
    let mut env = setup();
    AidContract::create_aid(&mut env, 1, DONOR, RECIPIENT, TOKEN, 500, 1_000).unwrap();
    assert_eq!(
        AidContract::create_aid(&mut env, 1, STRANGER, STRANGER, TOKEN, 9, 9),
        Err(AidError::AlreadyClaimed)
    );
    let record = AidContract::get_aid(&env, 1).unwrap();
    assert_eq!(record.donor, DONOR);
    assert_eq!(record.amount, 500);
}

#[test]
fn refund_errors_follow_the_record_state() {
    let mut env = setup();
    assert_eq!(AidContract::refund_expired(&mut env, 9), Err(AidError::NotFound));
    AidContract::create_aid(&mut env, 1, DONOR, RECIPIENT, TOKEN, 500, 100).unwrap();
    assert_eq!(AidContract::refund_expired(&mut env, 1), Err(AidError::NotExpiredYet));
    AidContract::claim_aid(&mut env, 1, RECIPIENT).unwrap();
    advance_ledger(&mut env, 101);
    assert_eq!(AidContract::refund_expired(&mut env, 1), Err(AidError::AlreadyClaimed));

    AidContract::create_aid(&mut env, 2, DONOR, RECIPIENT, TOKEN, 500, 100).unwrap();
    AidContract::refund_expired(&mut env, 2).unwrap();
    assert_eq!(AidContract::refund_expired(&mut env, 2), Err(AidError::AlreadyRefunded));
    assert_eq!(AidContract::claim_aid(&mut env, 2, RECIPIENT), Err(AidError::AlreadyClaimed));
}

#[test]
fn refund_is_not_gated_by_pause_and_claim_unknown_is_not_found() {
    let mut env = setup();
    assert_eq!(AidContract::claim_aid(&mut env, 5, RECIPIENT), Err(AidError::NotFound));
    AidContract::create_aid(&mut env, 1, DONOR, RECIPIENT, TOKEN, 500, 100).unwrap();
    AidContract::set_paused(&mut env, ADMIN, true).unwrap();
    advance_ledger(&mut env, 101);
    assert!(AidContract::refund_expired(&mut env, 1).is_ok());
}

#[test]
fn only_admin_can_pause() {
    let mut env = setup();
    assert_eq!(AidContract::set_paused(&mut env, STRANGER, true), Err(AidError::Unauthorized));
    AidContract::create_aid(&mut env, 1, DONOR, RECIPIENT, TOKEN, 500, 1_000).unwrap();
    assert!(AidContract::settle_aid(&mut env, 1, RECIPIENT).is_ok());
}

#[test]
fn claim_on_the_expiry_ledger_still_succeeds() {
    let mut env = setup();
    AidContract::create_aid(&mut env, 1, DONOR, RECIPIENT, TOKEN, 500, 100).unwrap();
    advance_ledger(&mut env, 100);
    assert!(AidContract::claim_aid(&mut env, 1, RECIPIENT).is_ok());
}

#[test]
fn second_initialization_is_refused_and_keeps_the_admin() {
    let mut env = setup();
    assert_eq!(AidContract::initialize(&mut env, STRANGER), Err(Error::AlreadyInitialized));
    assert_eq!(env.shared.admin, Some(ADMIN));
    assert_eq!(AidContract::set_paused(&mut env, STRANGER, true), Err(AidError::Unauthorized));
    assert_eq!(AidContract::set_paused(&mut env, ADMIN, true), Ok(()));
}
