use alian_contracts::shared::auth::{self, Role};
use alian_contracts::shared::storage::{
    is_paused, set_paused, SharedStore, PERSISTENT_BUMP_AMOUNT, PERSISTENT_TTL_THRESHOLD,
    TEMPORARY_BUMP_AMOUNT, TEMPORARY_TTL_THRESHOLD,
};
use alian_contracts::shared::utils::{is_expired, now, Ledger};

#[test]
fn ttl_thresholds_are_strictly_less_than_bump_amounts() {
    assert!(
        PERSISTENT_TTL_THRESHOLD < PERSISTENT_BUMP_AMOUNT,
        "persistent threshold must be < bump amount"
    );
    assert!(
        TEMPORARY_TTL_THRESHOLD < TEMPORARY_BUMP_AMOUNT,
        "temporary threshold must be < bump amount"
    );
}

#[test]
fn ttl_constants_have_documented_values() {
    assert_eq!(PERSISTENT_BUMP_AMOUNT, 120_960);
    assert_eq!(PERSISTENT_TTL_THRESHOLD, 103_680);
    assert_eq!(TEMPORARY_BUMP_AMOUNT, 17_280);
    assert_eq!(TEMPORARY_TTL_THRESHOLD, 8_640);
}

#[test]
fn is_paused_defaults_to_false() {
    let env = SharedStore::new();
    assert!(!is_paused(&env));
}

#[test]
fn set_paused_true_makes_is_paused_return_true() {
    let mut env = SharedStore::new();
    set_paused(&mut env, true);
    assert!(is_paused(&env));
}

#[test]
fn set_paused_false_clears_the_flag() {
    let mut env = SharedStore::new();
    set_paused(&mut env, true);
    set_paused(&mut env, false);
    assert!(!is_paused(&env));
}

#[test]
fn roles_are_granted_and_revoked_independently() {
    let mut env = SharedStore::new();
    auth::grant_role(&mut env, 7, Role::TreasuryManager);
    assert!(auth::has_role(&env, 7, Role::TreasuryManager));
    assert!(!auth::has_role(&env, 7, Role::OracleSigner));
    assert!(!auth::has_role(&env, 8, Role::TreasuryManager));
    assert_eq!(auth::require_role(&env, 7, Role::TreasuryManager), Ok(()));
    assert_eq!(
        auth::require_role(&env, 8, Role::TreasuryManager),
        Err(alian_contracts::shared::errors::Error::Unauthorized)
    );
    auth::grant_role(&mut env, 8, Role::TreasuryManager);
    auth::revoke_role(&mut env, 7, Role::TreasuryManager);
    assert!(!auth::has_role(&env, 7, Role::TreasuryManager));
    assert!(auth::has_role(&env, 8, Role::TreasuryManager));
}

#[test]
fn admin_is_set_and_checked() {
    let mut env = SharedStore::new();
    auth::set_admin(&mut env, 1);
    assert_eq!(auth::get_admin(&env), 1);
    assert_eq!(auth::require_admin(&env, 1), Ok(()));
    assert_eq!(
        auth::require_admin(&env, 2),
        Err(alian_contracts::shared::errors::Error::NotAuthorized)
    );
}

#[test]
fn expiry_is_strictly_after_the_timestamp() {
    let ledger = Ledger { timestamp: 100, sequence: 5 };
    assert_eq!(now(&ledger), 100);
    assert!(is_expired(&ledger, 99));
    assert!(!is_expired(&ledger, 100));
    assert!(!is_expired(&ledger, 101));
}
