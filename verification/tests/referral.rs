use alian_contracts::referral::{
    AccruedRewardEvent, ClaimRewardsEvent, InvokeOutcome, ReferralContract, ReferralEnv,
    ReferrerSetEvent, RewardClaim, MAX_REWARD_CAP,
};
use alian_contracts::referral::{treasury_call_result, validate_tier_config};
use alian_contracts::shared::errors::Error;

const ADMIN: u64 = 1;
const REFERRED: u64 = 10;
const TIER_ONE: u64 = 11;
const TIER_TWO: u64 = 12;
const TIER_THREE: u64 = 13;
const TIER_FOUR: u64 = 14;
const TREASURY: u64 = 99;

fn setup() -> ReferralEnv {
    let mut env = ReferralEnv::new();
    ReferralContract::initialize(&mut env, ADMIN);
    ReferralContract::set_treasury(&mut env, ADMIN, TREASURY).unwrap();
    env
}

/// A treasury holding rewards, paying claims as the treasury contract does.
struct MockTreasury {
    rewards: i128,
    paid: Vec<(u64, i128)>,
}

impl MockTreasury {
    fn distribute_reward(&mut self, recipient: u64, amount: i128) -> InvokeOutcome {
        if amount <= 0 {
            return InvokeOutcome::Failed(Error::InvalidArgument);
        }
        if self.rewards < amount {
            return InvokeOutcome::Failed(Error::InsufficientBalance);
        }
        self.rewards -= amount;
        self.paid.push((recipient, amount));
        InvokeOutcome::Succeeded
    }

    fn paid_to(&self, recipient: u64) -> i128 {
        self.paid.iter().filter(|(r, _)| *r == recipient).map(|(_, a)| *a).sum()
    }
}

fn claim(env: &mut ReferralEnv, treasury: &mut MockTreasury, referrer: u64) -> Result<i128, Error> {
    match ReferralContract::claim_rewards(env, referrer)? {
        RewardClaim::Nothing => Ok(0),
        RewardClaim::Pay { treasury: _, amount } => {
            let outcome = treasury.distribute_reward(referrer, amount);
            ReferralContract::finish_claim_rewards(env, referrer, amount, outcome).map(|e| e.amount)
        },
    }
}

#[test]
fn accrues_multi_tier_rewards_until_max_depth() {
    let mut env = setup();

    ReferralContract::set_tier_config(&mut env, ADMIN, vec![1_000_i128, 500_i128], 2, 10_000).unwrap();
    ReferralContract::set_referrer(&mut env, ADMIN, REFERRED, TIER_ONE).unwrap();
    ReferralContract::set_referrer(&mut env, ADMIN, TIER_ONE, TIER_TWO).unwrap();
    ReferralContract::set_referrer(&mut env, ADMIN, TIER_TWO, TIER_THREE).unwrap();
    ReferralContract::set_referrer(&mut env, ADMIN, TIER_THREE, TIER_FOUR).unwrap();

    assert_eq!(ReferralContract::accrue(&mut env, ADMIN, REFERRED, 10_000).unwrap().total, 1_500);
    assert_eq!(ReferralContract::accrued_balance(&env, TIER_ONE), 1_000);
    assert_eq!(ReferralContract::accrued_balance(&env, TIER_TWO), 500);
    assert_eq!(ReferralContract::accrued_balance(&env, TIER_THREE), 0);
    assert_eq!(ReferralContract::accrued_balance(&env, TIER_FOUR), 0);
}

#[test]
fn enforces_lifetime_reward_cap_per_referrer() {
    let mut env = setup();

    ReferralContract::set_tier_config(&mut env, ADMIN, vec![1_000_i128], 1, 1_100).unwrap();
    ReferralContract::set_referrer(&mut env, ADMIN, REFERRED, TIER_ONE).unwrap();

    assert_eq!(ReferralContract::accrue(&mut env, ADMIN, REFERRED, 10_000).unwrap().total, 1_000);
    assert_eq!(ReferralContract::accrue(&mut env, ADMIN, REFERRED, 10_000).unwrap().total, 100);
    assert_eq!(ReferralContract::accrue(&mut env, ADMIN, REFERRED, 10_000).unwrap().total, 0);
    assert_eq!(ReferralContract::accrued_balance(&env, TIER_ONE), 1_100);
    assert_eq!(ReferralContract::lifetime_accrued(&env, TIER_ONE), 1_100);
}

#[test]
fn claim_rewards_distributes_from_treasury_and_double_claim_pays_nothing() {
    let mut env = setup();
    let mut treasury = MockTreasury { rewards: 1_000_000_000, paid: Vec::new() };
    assert_eq!(ReferralContract::get_treasury(&env), Ok(TREASURY));

    ReferralContract::set_tier_config(&mut env, ADMIN, vec![1_000_i128], 1, 10_000).unwrap();
    ReferralContract::set_referrer(&mut env, ADMIN, REFERRED, TIER_ONE).unwrap();
    assert_eq!(ReferralContract::accrue(&mut env, ADMIN, REFERRED, 10_000).unwrap().total, 1_000);

    assert_eq!(claim(&mut env, &mut treasury, TIER_ONE), Ok(1_000));
    assert_eq!(ReferralContract::accrued_balance(&env, TIER_ONE), 0);
    assert_eq!(treasury.paid_to(TIER_ONE), 1_000);
    assert_eq!(treasury.rewards, 999_999_000);

    assert_eq!(claim(&mut env, &mut treasury, TIER_ONE), Ok(0));
    assert_eq!(treasury.paid_to(TIER_ONE), 1_000);
    assert_eq!(treasury.rewards, 999_999_000);
}

#[test]
fn accrual_math_rejects_overflow() {
    let mut env = setup();

    ReferralContract::set_tier_config(&mut env, ADMIN, vec![10_000_i128], 1, MAX_REWARD_CAP).unwrap();
    ReferralContract::set_referrer(&mut env, ADMIN, REFERRED, TIER_ONE).unwrap();

    assert!(matches!(
        ReferralContract::accrue(&mut env, ADMIN, REFERRED, i128::MAX),
        Err(Error::Overflow)
    ));
    assert_eq!(ReferralContract::accrued_balance(&env, TIER_ONE), 0);
}

#[test]
fn rejects_invalid_admin_config_and_cycles() {
    let mut env = setup();
    let attacker = 666;

    assert!(matches!(
        ReferralContract::set_tier_config(&mut env, attacker, vec![1_000_i128], 1, 10_000),
        Err(Error::Unauthorized)
    ));
    assert!(matches!(
        ReferralContract::set_tier_config(&mut env, ADMIN, vec![9_000_i128, 2_000_i128], 2, 10_000),
        Err(Error::InvalidArgument)
    ));
    assert!(matches!(
        ReferralContract::set_referrer(&mut env, ADMIN, REFERRED, REFERRED),
        Err(Error::InvalidArgument)
    ));

    ReferralContract::set_referrer(&mut env, ADMIN, REFERRED, TIER_ONE).unwrap();
    ReferralContract::set_referrer(&mut env, ADMIN, TIER_ONE, TIER_TWO).unwrap();
    assert!(matches!(
        ReferralContract::set_referrer(&mut env, ADMIN, TIER_TWO, REFERRED),
        Err(Error::InvalidArgument)
    ));
}

#[test]
fn accrual_reports_one_event_per_credit() {
    let mut env = setup();
    ReferralContract::set_tier_config(&mut env, ADMIN, vec![1_000_i128, 500_i128], 2, 10_000).unwrap();
    ReferralContract::set_referrer(&mut env, ADMIN, REFERRED, TIER_ONE).unwrap();
    ReferralContract::set_referrer(&mut env, ADMIN, TIER_ONE, TIER_TWO).unwrap();
    let accrual = ReferralContract::accrue(&mut env, ADMIN, REFERRED, 10_000).unwrap();
    assert_eq!(
        accrual.events,
        vec![
            AccruedRewardEvent {
                referred_wallet: REFERRED,
                referrer: TIER_ONE,
                tier: 1,
                amount: 1_000,
                accrued_balance: 1_000,
                lifetime_accrued: 1_000,
            },
            AccruedRewardEvent {
                referred_wallet: REFERRED,
                referrer: TIER_TWO,
                tier: 2,
                amount: 500,
                accrued_balance: 500,
                lifetime_accrued: 500,
            },
        ]
    );
}

#[test]
fn tier_config_round_trips_and_defaults_after_initialize() {
    let mut env = setup();
    let initial = ReferralContract::get_tier_config(&env).unwrap();
    assert_eq!(initial.tier_bps, vec![0]);
    assert_eq!(initial.max_tiers, 1);
    assert_eq!(initial.reward_cap, 0);

    ReferralContract::set_tier_config(&mut env, ADMIN, vec![300, 200, 100], 3, 5_000).unwrap();
    let config = ReferralContract::get_tier_config(&env).unwrap();
    assert_eq!(config.tier_bps, vec![300, 200, 100]);
    assert_eq!(config.max_tiers, 3);
    assert_eq!(config.reward_cap, 5_000);
    assert_eq!(ReferralContract::get_tier_config(&ReferralEnv::new()).map(|c| c.max_tiers), Err(Error::NotFound));
}

#[test]
fn tier_config_validation_edges() {
    assert_eq!(validate_tier_config(&vec![10_000], 1, 0), Ok(()));
    assert_eq!(validate_tier_config(&vec![5_000, 5_000], 2, 0), Ok(()));
    assert_eq!(validate_tier_config(&vec![5_000, 5_001], 2, 0), Err(Error::InvalidArgument));
    assert_eq!(validate_tier_config(&vec![], 0, 0), Err(Error::InvalidArgument));
    assert_eq!(validate_tier_config(&vec![1; 11], 11, 0), Err(Error::InvalidArgument));
    assert_eq!(validate_tier_config(&vec![1, 2], 3, 0), Err(Error::InvalidArgument));
    assert_eq!(validate_tier_config(&vec![-1], 1, 0), Err(Error::InvalidArgument));
    assert_eq!(validate_tier_config(&vec![1], 1, -1), Err(Error::InvalidArgument));
    assert_eq!(validate_tier_config(&vec![1], 1, MAX_REWARD_CAP + 1), Err(Error::InvalidArgument));
}

#[test]
fn accrue_errors_and_referrer_lookup() {
    let mut env = setup();
    assert!(matches!(ReferralContract::accrue(&mut env, 5, REFERRED, 10), Err(Error::Unauthorized)));
    assert!(matches!(ReferralContract::accrue(&mut env, ADMIN, REFERRED, 0), Err(Error::InvalidArgument)));
    assert_eq!(
        ReferralContract::set_referrer(&mut env, ADMIN, REFERRED, TIER_ONE),
        Ok(ReferrerSetEvent { referred_wallet: REFERRED, referrer: TIER_ONE })
    );
    assert_eq!(ReferralContract::get_referrer(&env, REFERRED), Some(TIER_ONE));
    assert_eq!(ReferralContract::get_referrer(&env, TIER_ONE), None);
    assert_eq!(ReferralContract::accrue(&mut env, ADMIN, REFERRED, 10_000).unwrap().total, 0);
}

#[test]
fn failed_treasury_call_keeps_the_balance() {
    let mut env = setup();
    let mut treasury = MockTreasury { rewards: 10, paid: Vec::new() };
    ReferralContract::set_tier_config(&mut env, ADMIN, vec![1_000_i128], 1, 10_000).unwrap();
    ReferralContract::set_referrer(&mut env, ADMIN, REFERRED, TIER_ONE).unwrap();
    ReferralContract::accrue(&mut env, ADMIN, REFERRED, 10_000).unwrap();
    assert_eq!(claim(&mut env, &mut treasury, TIER_ONE), Err(Error::InsufficientBalance));
    assert_eq!(ReferralContract::accrued_balance(&env, TIER_ONE), 1_000);
}

#[test]
fn treasury_call_outcomes_map_to_errors() {
    assert_eq!(treasury_call_result(InvokeOutcome::Succeeded), Ok(()));
    assert_eq!(treasury_call_result(InvokeOutcome::UnexpectedReturn), Err(Error::InvalidArgument));
    assert_eq!(treasury_call_result(InvokeOutcome::Failed(Error::Overflow)), Err(Error::Overflow));
    assert_eq!(treasury_call_result(InvokeOutcome::Aborted), Err(Error::InvalidArgument));
    let mut env = setup();
    ReferralContract::set_tier_config(&mut env, ADMIN, vec![5_i128], 1, 10_000).unwrap();
    ReferralContract::set_referrer(&mut env, ADMIN, REFERRED, TIER_ONE).unwrap();
    ReferralContract::accrue(&mut env, ADMIN, REFERRED, 10_000).unwrap();
    assert_eq!(ReferralContract::accrued_balance(&env, TIER_ONE), 5);
    assert_eq!(
        ReferralContract::finish_claim_rewards(&mut env, TIER_ONE, 5, InvokeOutcome::Succeeded),
        Ok(ClaimRewardsEvent { referrer: TIER_ONE, amount: 5 })
    );
    assert_eq!(ReferralContract::accrued_balance(&env, TIER_ONE), 0);
}

#[test]
fn claim_without_treasury_is_not_found() {
    let mut env = ReferralEnv::new();
    ReferralContract::initialize(&mut env, ADMIN);
    ReferralContract::set_tier_config(&mut env, ADMIN, vec![1_000_i128], 1, 10_000).unwrap();
    ReferralContract::set_referrer(&mut env, ADMIN, REFERRED, TIER_ONE).unwrap();
    ReferralContract::accrue(&mut env, ADMIN, REFERRED, 10_000).unwrap();
    assert_eq!(ReferralContract::claim_rewards(&env, TIER_ONE), Err(Error::NotFound));
    assert_eq!(ReferralContract::claim_rewards(&env, TIER_TWO), Ok(RewardClaim::Nothing));
}

#[test]
fn long_chain_cycle_detection_stops_at_ten_steps() {
    let mut env = setup();
    for w in 0..11u64 {
        ReferralContract::set_referrer(&mut env, ADMIN, 1_000 + w, 1_000 + w + 1).unwrap();
    }
    // Walking up from 1000, 1011 is eleven steps away: beyond the ten steps
    // looked at, so the edge is stored.
    assert!(ReferralContract::set_referrer(&mut env, ADMIN, 1_011, 1_000).is_ok());
    // Walking up from 1002, 1011 is nine steps away: the edge would close a cycle.
    assert!(matches!(
        ReferralContract::set_referrer(&mut env, ADMIN, 1_011, 1_002),
        Err(Error::InvalidArgument)
    ));
}

#[test]
fn accrual_at_full_rates_never_exceeds_the_base() {
    let mut env = setup();
    ReferralContract::set_tier_config(&mut env, ADMIN, vec![6_000, 4_000], 2, MAX_REWARD_CAP)
        .unwrap();
    ReferralContract::set_referrer(&mut env, ADMIN, REFERRED, TIER_ONE).unwrap();
    ReferralContract::set_referrer(&mut env, ADMIN, TIER_ONE, TIER_TWO).unwrap();

    let accrual = ReferralContract::accrue(&mut env, ADMIN, REFERRED, 10_001).unwrap();
    assert_eq!(accrual.total, 10_000);
    assert!(accrual.total <= 10_001);
    assert_eq!(ReferralContract::accrued_balance(&env, TIER_ONE), 6_000);
    assert_eq!(ReferralContract::accrued_balance(&env, TIER_TWO), 4_000);
}

#[test]
fn accrual_credits_both_balances_and_events_sum_to_the_total() {
    let mut env = setup();
    ReferralContract::set_tier_config(&mut env, ADMIN, vec![1_000, 500], 2, 1_200).unwrap();
    ReferralContract::set_referrer(&mut env, ADMIN, REFERRED, TIER_ONE).unwrap();
    ReferralContract::set_referrer(&mut env, ADMIN, TIER_ONE, TIER_TWO).unwrap();
    ReferralContract::accrue(&mut env, ADMIN, REFERRED, 10_000).unwrap();

    let accrual = ReferralContract::accrue(&mut env, ADMIN, REFERRED, 10_000).unwrap();
    let sum: i128 = accrual.events.iter().map(|e| e.amount).sum();
    assert_eq!(accrual.total, sum);
    assert_eq!(accrual.total, 200 + 500);
    for who in [TIER_ONE, TIER_TWO] {
        assert_eq!(
            ReferralContract::accrued_balance(&env, who),
            ReferralContract::lifetime_accrued(&env, who)
        );
    }
    assert_eq!(ReferralContract::lifetime_accrued(&env, TIER_ONE), 1_200);
    assert_eq!(ReferralContract::lifetime_accrued(&env, TIER_TWO), 1_000);
}
