use alian_contracts::governance::{
    GovernanceContract, GovernanceEnv, ParameterBounds, ParameterChangedEvent, ParameterKey,
    DEFAULT_AID_DEFAULT_EXPIRY, DEFAULT_REFERRAL_MAX_TIERS, DEFAULT_REFERRAL_REWARD_CAP,
    DEFAULT_REFERRAL_TIER_ONE_BPS, DEFAULT_REFERRAL_TIER_THREE_BPS, DEFAULT_REFERRAL_TIER_TWO_BPS,
    DEFAULT_TREASURY_WITHDRAWAL_LIMIT, MAX_AID_DEFAULT_EXPIRY, MAX_REFERRAL_TIER_BPS,
    MIN_REFERRAL_TIER_BPS,
};
use alian_contracts::governance::{bounds_for, validate_param};
use alian_contracts::shared::errors::Error;

const ADMIN: u64 = 1;
const OTHER: u64 = 2;

fn setup() -> GovernanceEnv {
    let mut env = GovernanceEnv::new();
    GovernanceContract::initialize(&mut env, ADMIN);
    env
}

#[test]
fn initializes_documented_catalog_defaults() {
    let env = setup();

    assert_eq!(GovernanceContract::aid_default_expiry(&env), Ok(DEFAULT_AID_DEFAULT_EXPIRY));
    assert_eq!(
        GovernanceContract::treasury_withdrawal_limit(&env),
        Ok(DEFAULT_TREASURY_WITHDRAWAL_LIMIT)
    );
    assert_eq!(GovernanceContract::referral_tier_bps(&env, 1), Ok(DEFAULT_REFERRAL_TIER_ONE_BPS));
    assert_eq!(GovernanceContract::referral_tier_bps(&env, 2), Ok(DEFAULT_REFERRAL_TIER_TWO_BPS));
    assert_eq!(GovernanceContract::referral_tier_bps(&env, 3), Ok(DEFAULT_REFERRAL_TIER_THREE_BPS));
    assert_eq!(GovernanceContract::referral_max_tiers(&env), Ok(DEFAULT_REFERRAL_MAX_TIERS));
    assert_eq!(GovernanceContract::referral_reward_cap(&env), Ok(DEFAULT_REFERRAL_REWARD_CAP));
}

#[test]
fn authorized_update_changes_parameter_and_emits_event() {
    let mut env = setup();
    let key = ParameterKey::ReferralTierBps(2);
    let value = 350;

    let event = GovernanceContract::set_param(&mut env, ADMIN, key, value).unwrap();
    assert_eq!(event, ParameterChangedEvent { key, value });

    assert_eq!(GovernanceContract::get_param(&env, ParameterKey::ReferralTierBps(2)), Ok(value));
    assert_eq!(GovernanceContract::referral_tier_bps(&env, 2), Ok(value));
}

#[test]
fn unauthorized_update_is_rejected() {
    let mut env = setup();

    assert!(matches!(
        GovernanceContract::set_param(&mut env, OTHER, ParameterKey::AidDefaultExpiry, 120),
        Err(Error::Unauthorized)
    ));
    assert_eq!(GovernanceContract::aid_default_expiry(&env), Ok(DEFAULT_AID_DEFAULT_EXPIRY));
}

#[test]
fn out_of_range_values_are_rejected() {
    let mut env = setup();

    assert!(matches!(
        GovernanceContract::set_param(
            &mut env,
            ADMIN,
            ParameterKey::AidDefaultExpiry,
            MAX_AID_DEFAULT_EXPIRY + 1,
        ),
        Err(Error::InvalidArgument)
    ));
    assert!(matches!(
        GovernanceContract::set_param(&mut env, ADMIN, ParameterKey::ReferralTierBps(1), 10_001),
        Err(Error::InvalidArgument)
    ));
    assert!(matches!(
        GovernanceContract::set_param(&mut env, ADMIN, ParameterKey::ReferralTierBps(0), 100),
        Err(Error::InvalidArgument)
    ));
    assert!(matches!(
        GovernanceContract::set_param(&mut env, ADMIN, ParameterKey::ReferralMaxTiers, 0),
        Err(Error::InvalidArgument)
    ));
}

#[test]
fn bounds_are_readable_for_dependent_contracts() {
    let env = setup();

    assert_eq!(
        GovernanceContract::get_bounds(&env, ParameterKey::ReferralTierBps(1)),
        Ok(ParameterBounds { min: MIN_REFERRAL_TIER_BPS, max: MAX_REFERRAL_TIER_BPS })
    );
    assert!(matches!(
        GovernanceContract::get_bounds(&env, ParameterKey::ReferralTierBps(11)),
        Err(Error::InvalidArgument)
    ));
}

#[test]
fn unset_parameter_reads_not_found() {
    let env = setup();
    assert_eq!(GovernanceContract::referral_tier_bps(&env, 4), Err(Error::NotFound));
    let fresh = GovernanceEnv::new();
    assert_eq!(GovernanceContract::aid_default_expiry(&fresh), Err(Error::NotFound));
}

#[test]
fn bounds_and_validation_edges() {
    assert_eq!(bounds_for(&ParameterKey::ReferralTierBps(10)), Some(ParameterBounds { min: 0, max: 10_000 }));
    assert_eq!(bounds_for(&ParameterKey::ReferralTierBps(0)), None);
    assert_eq!(validate_param(&ParameterKey::AidDefaultExpiry, 60), Ok(()));
    assert_eq!(validate_param(&ParameterKey::AidDefaultExpiry, 59), Err(Error::InvalidArgument));
    assert_eq!(validate_param(&ParameterKey::TreasuryWithdrawalLimit, 0), Ok(()));
    assert_eq!(validate_param(&ParameterKey::ReferralMaxTiers, 10), Ok(()));
    assert_eq!(validate_param(&ParameterKey::ReferralMaxTiers, 11), Err(Error::InvalidArgument));
}

#[test]
fn setting_one_parameter_leaves_the_others() {
    let mut env = setup();
    GovernanceContract::set_param(&mut env, ADMIN, ParameterKey::ReferralRewardCap, 42).unwrap();
    assert_eq!(GovernanceContract::referral_reward_cap(&env), Ok(42));
    assert_eq!(GovernanceContract::referral_tier_bps(&env, 1), Ok(DEFAULT_REFERRAL_TIER_ONE_BPS));
    assert_eq!(GovernanceContract::aid_default_expiry(&env), Ok(DEFAULT_AID_DEFAULT_EXPIRY));
}

#[test]
fn fresh_initialization_leaves_deeper_tiers_unset() {
    let env = setup();
    for tier in 4..=10u32 {
        assert_eq!(GovernanceContract::referral_tier_bps(&env, tier), Err(Error::NotFound));
    }
    for tier in 1..=3u32 {
        let v = GovernanceContract::referral_tier_bps(&env, tier).unwrap();
        assert_eq!(validate_param(&ParameterKey::ReferralTierBps(tier), v), Ok(()));
    }
}
