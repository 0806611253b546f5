//! The typed catalog of protocol parameters, each kept within documented
//! bounds and changed only by the governance authority (the admin).
use vstd::prelude::*;

use std::collections::HashMap;

use crate::shared::address::AccountId;
use crate::shared::auth;
use crate::shared::errors::Error;
use crate::shared::storage::SharedStore;

verus! {

broadcast use vstd::std_specs::hash::group_hash_axioms;

pub const MIN_AID_DEFAULT_EXPIRY: i128 = 60;
pub const MAX_AID_DEFAULT_EXPIRY: i128 = 31_536_000;
pub const DEFAULT_AID_DEFAULT_EXPIRY: i128 = 604_800;

pub const MIN_TREASURY_WITHDRAWAL_LIMIT: i128 = 0;
pub const MAX_TREASURY_WITHDRAWAL_LIMIT: i128 = 1_000_000_000_000_000_000;
pub const DEFAULT_TREASURY_WITHDRAWAL_LIMIT: i128 = 100_000_000_000;

pub const MIN_REFERRAL_TIER_BPS: i128 = 0;
pub const MAX_REFERRAL_TIER_BPS: i128 = 10_000;
pub const DEFAULT_REFERRAL_TIER_ONE_BPS: i128 = 500;
pub const DEFAULT_REFERRAL_TIER_TWO_BPS: i128 = 250;
pub const DEFAULT_REFERRAL_TIER_THREE_BPS: i128 = 100;

pub const MIN_REFERRAL_MAX_TIERS: i128 = 1;
pub const MAX_REFERRAL_MAX_TIERS: i128 = 10;
pub const DEFAULT_REFERRAL_MAX_TIERS: i128 = 3;

pub const MIN_REFERRAL_REWARD_CAP: i128 = 0;
pub const MAX_REFERRAL_REWARD_CAP: i128 = 1_000_000_000_000_000_000;
pub const DEFAULT_REFERRAL_REWARD_CAP: i128 = 10_000_000_000;

/// A protocol parameter.
#[derive(Clone, Copy, Debug, PartialEq, Eq, Structural)]
pub enum ParameterKey {
    AidDefaultExpiry,
    TreasuryWithdrawalLimit,
    ReferralTierBps(u32),
    ReferralMaxTiers,
    ReferralRewardCap,
}

/// The inclusive range a parameter's value must lie in.
#[derive(Clone, Copy, Debug, PartialEq, Eq, Structural)]
pub struct ParameterBounds {
    pub min: i128,
    pub max: i128,
}

/// Published when a parameter changes.
#[derive(Clone, Copy, Debug, PartialEq, Eq, Structural)]
pub struct ParameterChangedEvent {
    pub key: ParameterKey,
    pub value: i128,
}

/// The governance contract's storage: the shared configuration and one
/// entry per parameter.
pub struct GovernanceEnv {
    pub shared: SharedStore,
    pub aid_default_expiry: Option<i128>,
    pub treasury_withdrawal_limit: Option<i128>,
    /// Basis points per referral tier, by tier number.
    pub referral_tier_bps: HashMap<u32, i128>,
    pub referral_max_tiers: Option<i128>,
    pub referral_reward_cap: Option<i128>,
}

impl GovernanceEnv {
    /// The storage of a freshly deployed contract.
    pub fn new() -> (env: Self)
        ensures
            env.shared.admin is None,
            forall|k: ParameterKey| #[trigger] stored(&env, k) is None,
    {
        GovernanceEnv {
            shared: SharedStore::new(),
            aid_default_expiry: None,
            treasury_withdrawal_limit: None,
            referral_tier_bps: HashMap::new(),
            referral_max_tiers: None,
            referral_reward_cap: None,
        }
    }
}

/// The value stored for `key`, if any.
pub open spec fn stored(env: &GovernanceEnv, key: ParameterKey) -> Option<i128> {
    match key {
        ParameterKey::AidDefaultExpiry => env.aid_default_expiry,
        ParameterKey::TreasuryWithdrawalLimit => env.treasury_withdrawal_limit,
        ParameterKey::ReferralTierBps(tier) => env.referral_tier_bps@.get(tier),
        ParameterKey::ReferralMaxTiers => env.referral_max_tiers,
        ParameterKey::ReferralRewardCap => env.referral_reward_cap,
    }
}

/// The documented bounds of `key`; `None` for a tier outside `1..=10`.
pub open spec fn spec_bounds(key: ParameterKey) -> Option<ParameterBounds> {
    match key {
        ParameterKey::AidDefaultExpiry => Some(
            ParameterBounds { min: MIN_AID_DEFAULT_EXPIRY, max: MAX_AID_DEFAULT_EXPIRY },
        ),
        ParameterKey::TreasuryWithdrawalLimit => Some(
            ParameterBounds { min: MIN_TREASURY_WITHDRAWAL_LIMIT, max: MAX_TREASURY_WITHDRAWAL_LIMIT },
        ),
        ParameterKey::ReferralTierBps(tier) => if tier == 0 || tier > MAX_REFERRAL_MAX_TIERS {
            None
        } else {
            Some(ParameterBounds { min: MIN_REFERRAL_TIER_BPS, max: MAX_REFERRAL_TIER_BPS })
        },
        ParameterKey::ReferralMaxTiers => Some(
            ParameterBounds { min: MIN_REFERRAL_MAX_TIERS, max: MAX_REFERRAL_MAX_TIERS },
        ),
        ParameterKey::ReferralRewardCap => Some(
            ParameterBounds { min: MIN_REFERRAL_REWARD_CAP, max: MAX_REFERRAL_REWARD_CAP },
        ),
    }
}

/// `value` is accepted for `key`.
pub open spec fn in_bounds(key: ParameterKey, value: i128) -> bool {
    &&& spec_bounds(key) is Some
    &&& spec_bounds(key)->0.min <= value <= spec_bounds(key)->0.max
}

/// Every stored parameter lies within its documented bounds.
pub open spec fn params_within_bounds(env: &GovernanceEnv) -> bool {
    forall|k: ParameterKey| #[trigger] stored(env, k) is Some ==> in_bounds(k, stored(env, k)->0)
}

/// The values `initialize` seeds.
pub open spec fn default_value(key: ParameterKey) -> Option<i128> {
    match key {
        ParameterKey::AidDefaultExpiry => Some(DEFAULT_AID_DEFAULT_EXPIRY),
        ParameterKey::TreasuryWithdrawalLimit => Some(DEFAULT_TREASURY_WITHDRAWAL_LIMIT),
        ParameterKey::ReferralTierBps(tier) => if tier == 1 {
            Some(DEFAULT_REFERRAL_TIER_ONE_BPS)
        } else if tier == 2 {
            Some(DEFAULT_REFERRAL_TIER_TWO_BPS)
        } else if tier == 3 {
            Some(DEFAULT_REFERRAL_TIER_THREE_BPS)
        } else {
            None
        },
        ParameterKey::ReferralMaxTiers => Some(DEFAULT_REFERRAL_MAX_TIERS),
        ParameterKey::ReferralRewardCap => Some(DEFAULT_REFERRAL_REWARD_CAP),
    }
}

/// The governance contract's entry points.
pub struct GovernanceContract;

impl GovernanceContract {
    /// Initialise the contract, setting the admin address and seeding the
    /// documented defaults of the catalog.
    pub fn initialize(env: &mut GovernanceEnv, admin: AccountId)
        ensures
            final(env).shared.admin == Some(admin),
            final(env).shared.paused == old(env).shared.paused,
            auth::same_roles(&final(env).shared, &old(env).shared),
            forall|k: ParameterKey| #[trigger] stored(final(env), k) == (if default_value(k) is Some {
                default_value(k)
            } else {
                stored(old(env), k)
            }),
            params_within_bounds(old(env)) ==> params_within_bounds(final(env)),
            forall|k: ParameterKey| #[trigger] default_value(k) matches Some(v) ==> in_bounds(k, v)
                && read_result(final(env), k) == Ok::<i128, Error>(v),
            forall|t: u32| 4 <= t <= 10 ==> #[trigger] stored(final(env), ParameterKey::ReferralTierBps(t))
                == stored(old(env), ParameterKey::ReferralTierBps(t)),
    {
        auth::set_admin(&mut env.shared, admin);
        assert(forall|k: ParameterKey| #[trigger] stored(env, k) == stored(old(env), k));
        assert(params_within_bounds(old(env)) ==> params_within_bounds(env));
        seed_defaults(env);
        proof {
            assert forall|t: u32| 4 <= t <= 10 implies #[trigger] stored(env, ParameterKey::ReferralTierBps(t))
                == stored(old(env), ParameterKey::ReferralTierBps(t)) by {
                assert(default_value(ParameterKey::ReferralTierBps(t)) is None);
            }
        }
    }

    /// Update a protocol parameter. Governance authority is the admin: any
    /// other caller gets `Unauthorized`; a value outside the key's bounds (or a
    /// key without bounds) gets `InvalidArgument`. On success the parameter
    /// holds `value` and the returned event is published. An admin must have
    /// been set.
    pub fn set_param(env: &mut GovernanceEnv, caller: AccountId, key: ParameterKey, value: i128) -> (r:
        Result<ParameterChangedEvent, Error>)
        requires
            old(env).shared.admin is Some,
        ensures
            !auth::is_admin(&old(env).shared, caller) ==> r == Err::<ParameterChangedEvent, Error>(
                Error::Unauthorized,
            ),
            auth::is_admin(&old(env).shared, caller) && !in_bounds(key, value) ==> r == Err::<
                ParameterChangedEvent,
                Error,
            >(Error::InvalidArgument),
            auth::is_admin(&old(env).shared, caller) && in_bounds(key, value) ==> r == Ok::<
                ParameterChangedEvent,
                Error,
            >(ParameterChangedEvent { key, value }),
            r is Ok ==> forall|k: ParameterKey| #[trigger] stored(final(env), k) == (if k == key {
                Some(value)
            } else {
                stored(old(env), k)
            }),
            r is Err ==> forall|k: ParameterKey| #[trigger] stored(final(env), k) == stored(old(env), k),
            final(env).shared.admin == old(env).shared.admin,
            final(env).shared.paused == old(env).shared.paused,
            auth::same_roles(&final(env).shared, &old(env).shared),
            params_within_bounds(old(env)) ==> params_within_bounds(final(env)),
    {
        match require_governance(env, caller) {
            Ok(()) => {},
            Err(e) => {
                return Err(e);
            },
        }
        match validate_param(&key, value) {
            Ok(()) => {},
            Err(e) => {
                return Err(e);
            },
        }
        write_param(env, &key, value);
        Ok(ParameterChangedEvent { key, value })
    }

    /// Read a protocol parameter: `NotFound` when it has never been set.
    pub fn get_param(env: &GovernanceEnv, key: ParameterKey) -> (r: Result<i128, Error>)
        ensures
            r == read_result(env, key),
    {
        read_param(env, &key)
    }

    /// The documented bounds of a parameter: `InvalidArgument` for a tier
    /// outside `1..=10`.
    pub fn get_bounds(_env: &GovernanceEnv, key: ParameterKey) -> (r: Result<ParameterBounds, Error>)
        ensures
            spec_bounds(key) matches Some(b) ==> r == Ok::<ParameterBounds, Error>(b),
            spec_bounds(key) is None ==> r == Err::<ParameterBounds, Error>(Error::InvalidArgument),
    {
        match bounds_for(&key) {
            Some(b) => Ok(b),
            None => Err(Error::InvalidArgument),
        }
    }

    pub fn aid_default_expiry(env: &GovernanceEnv) -> (r: Result<i128, Error>)
        ensures
            r == read_result(env, ParameterKey::AidDefaultExpiry),
    {
        read_param(env, &ParameterKey::AidDefaultExpiry)
    }

    pub fn treasury_withdrawal_limit(env: &GovernanceEnv) -> (r: Result<i128, Error>)
        ensures
            r == read_result(env, ParameterKey::TreasuryWithdrawalLimit),
    {
        read_param(env, &ParameterKey::TreasuryWithdrawalLimit)
    }

    pub fn referral_tier_bps(env: &GovernanceEnv, tier: u32) -> (r: Result<i128, Error>)
        ensures
            r == read_result(env, ParameterKey::ReferralTierBps(tier)),
    {
        read_param(env, &ParameterKey::ReferralTierBps(tier))
    }

    pub fn referral_max_tiers(env: &GovernanceEnv) -> (r: Result<i128, Error>)
        ensures
            r == read_result(env, ParameterKey::ReferralMaxTiers),
    {
        read_param(env, &ParameterKey::ReferralMaxTiers)
    }

    pub fn referral_reward_cap(env: &GovernanceEnv) -> (r: Result<i128, Error>)
        ensures
            r == read_result(env, ParameterKey::ReferralRewardCap),
    {
        read_param(env, &ParameterKey::ReferralRewardCap)
    }
}

/// What reading `key` returns.
pub open spec fn read_result(env: &GovernanceEnv, key: ParameterKey) -> Result<i128, Error> {
    match stored(env, key) {
        Some(v) => Ok(v),
        None => Err(Error::NotFound),
    }
}

fn seed_defaults(env: &mut GovernanceEnv)
    ensures
        final(env).shared.admin == old(env).shared.admin,
        final(env).shared.paused == old(env).shared.paused,
        auth::same_roles(&final(env).shared, &old(env).shared),
        forall|k: ParameterKey| #[trigger] stored(final(env), k) == (if default_value(k) is Some {
            default_value(k)
        } else {
            stored(old(env), k)
        }),
        params_within_bounds(old(env)) ==> params_within_bounds(final(env)),
{
    write_param(env, &ParameterKey::AidDefaultExpiry, DEFAULT_AID_DEFAULT_EXPIRY);
    write_param(env, &ParameterKey::TreasuryWithdrawalLimit, DEFAULT_TREASURY_WITHDRAWAL_LIMIT);
    write_param(env, &ParameterKey::ReferralTierBps(1), DEFAULT_REFERRAL_TIER_ONE_BPS);
    write_param(env, &ParameterKey::ReferralTierBps(2), DEFAULT_REFERRAL_TIER_TWO_BPS);
    write_param(env, &ParameterKey::ReferralTierBps(3), DEFAULT_REFERRAL_TIER_THREE_BPS);
    write_param(env, &ParameterKey::ReferralMaxTiers, DEFAULT_REFERRAL_MAX_TIERS);
    write_param(env, &ParameterKey::ReferralRewardCap, DEFAULT_REFERRAL_REWARD_CAP);
    proof {
        assert forall|k: ParameterKey| #[trigger] stored(final(env), k) == (if default_value(k) is Some {
            default_value(k)
        } else {
            stored(old(env), k)
        }) by {
            match k {
                ParameterKey::ReferralTierBps(t) => {},
                _ => {},
            }
        }
        if params_within_bounds(old(env)) {
            assert forall|k: ParameterKey| #[trigger] stored(final(env), k) is Some implies in_bounds(
                k,
                stored(final(env), k)->0,
            ) by {
                if default_value(k) is None {
                    assert(stored(old(env), k) is Some);
                }
            }
        }
    }
}

fn require_governance(env: &GovernanceEnv, caller: AccountId) -> (r: Result<(), Error>)
    requires
        env.shared.admin is Some,
    ensures
        auth::is_admin(&env.shared, caller) ==> r == Ok::<(), Error>(()),
        !auth::is_admin(&env.shared, caller) ==> r == Err::<(), Error>(Error::Unauthorized),
{
    if caller != auth::get_admin(&env.shared) {
        return Err(Error::Unauthorized);
    }
    Ok(())
}

/// Checks `value` against the bounds of `key`: `InvalidArgument` when the key
/// has no bounds or the value lies outside them.
pub fn validate_param(key: &ParameterKey, value: i128) -> (r: Result<(), Error>)
    ensures
        in_bounds(*key, value) ==> r == Ok::<(), Error>(()),
        !in_bounds(*key, value) ==> r == Err::<(), Error>(Error::InvalidArgument),
{
    let bounds = match bounds_for(key) {
        Some(b) => b,
        None => {
            return Err(Error::InvalidArgument);
        },
    };
    if value < bounds.min || value > bounds.max {
        return Err(Error::InvalidArgument);
    }
    Ok(())
}

/// The documented bounds of `key`; `None` for a tier outside `1..=10`.
pub fn bounds_for(key: &ParameterKey) -> (r: Option<ParameterBounds>)
    ensures
        r == spec_bounds(*key),
{
    match key {
        ParameterKey::AidDefaultExpiry => Some(
            ParameterBounds { min: MIN_AID_DEFAULT_EXPIRY, max: MAX_AID_DEFAULT_EXPIRY },
        ),
        ParameterKey::TreasuryWithdrawalLimit => Some(
            ParameterBounds { min: MIN_TREASURY_WITHDRAWAL_LIMIT, max: MAX_TREASURY_WITHDRAWAL_LIMIT },
        ),
        ParameterKey::ReferralTierBps(tier) => {
            if *tier == 0 || (*tier as i128) > MAX_REFERRAL_MAX_TIERS {
                None
            } else {
                Some(ParameterBounds { min: MIN_REFERRAL_TIER_BPS, max: MAX_REFERRAL_TIER_BPS })
            }
        },
        ParameterKey::ReferralMaxTiers => Some(
            ParameterBounds { min: MIN_REFERRAL_MAX_TIERS, max: MAX_REFERRAL_MAX_TIERS },
        ),
        ParameterKey::ReferralRewardCap => Some(
            ParameterBounds { min: MIN_REFERRAL_REWARD_CAP, max: MAX_REFERRAL_REWARD_CAP },
        ),
    }
}

fn write_param(env: &mut GovernanceEnv, key: &ParameterKey, value: i128)
    ensures
        final(env).shared.admin == old(env).shared.admin,
        final(env).shared.paused == old(env).shared.paused,
        auth::same_roles(&final(env).shared, &old(env).shared),
        forall|k: ParameterKey| #[trigger] stored(final(env), k) == (if k == *key {
            Some(value)
        } else {
            stored(old(env), k)
        }),
        params_within_bounds(old(env)) && in_bounds(*key, value) ==> params_within_bounds(final(env)),
{
    match key {
        ParameterKey::AidDefaultExpiry => {
            env.aid_default_expiry = Some(value);
        },
        ParameterKey::TreasuryWithdrawalLimit => {
            env.treasury_withdrawal_limit = Some(value);
        },
        ParameterKey::ReferralTierBps(tier) => {
            env.referral_tier_bps.insert(*tier, value);
        },
        ParameterKey::ReferralMaxTiers => {
            env.referral_max_tiers = Some(value);
        },
        ParameterKey::ReferralRewardCap => {
            env.referral_reward_cap = Some(value);
        },
    }
    proof {
        assert forall|k: ParameterKey| #[trigger] stored(final(env), k) == (if k == *key {
            Some(value)
        } else {
            stored(old(env), k)
        }) by {
            match k {
                ParameterKey::ReferralTierBps(t) => {},
                _ => {},
            }
        }
    }
}

fn read_param(env: &GovernanceEnv, key: &ParameterKey) -> (r: Result<i128, Error>)
    ensures
        r == read_result(env, *key),
{
    let v = match key {
        ParameterKey::AidDefaultExpiry => env.aid_default_expiry,
        ParameterKey::TreasuryWithdrawalLimit => env.treasury_withdrawal_limit,
        ParameterKey::ReferralTierBps(tier) => match env.referral_tier_bps.get(tier) {
            Some(v) => Some(*v),
            None => None,
        },
        ParameterKey::ReferralMaxTiers => env.referral_max_tiers,
        ParameterKey::ReferralRewardCap => env.referral_reward_cap,
    };
    match v {
        Some(v) => Ok(v),
        None => Err(Error::NotFound),
    }
}

/// The seeded defaults lie within their documented bounds, so a freshly
/// initialised catalog satisfies the invariant.
pub proof fn lemma_defaults_within_bounds(key: ParameterKey)
    ensures
        default_value(key) matches Some(v) ==> in_bounds(key, v),
{
}

/// A parameter reads back the last value that governance set for it.
pub proof fn lemma_set_then_get(
    before: &GovernanceEnv,
    after: &GovernanceEnv,
    key: ParameterKey,
    value: i128,
)
    requires
        forall|k: ParameterKey| #[trigger] stored(after, k) == (if k == key {
            Some(value)
        } else {
            stored(before, k)
        }),
    ensures
        read_result(after, key) == Ok::<i128, Error>(value),
        forall|k: ParameterKey| k != key ==> read_result(after, k) == #[trigger] read_result(before, k),
{
    assert(stored(after, key) == Some(value));
    assert forall|k: ParameterKey| k != key implies read_result(after, k) == #[trigger] read_result(before, k) by {
        assert(stored(after, k) == stored(before, k));
    }
}

/// Initialising a fresh catalog seeds exactly the documented defaults:
/// every seeded value passes validation, each parameter with a default reads
/// it back, and every other parameter (the rates of tiers 4 to 10 among
/// them) reads `NotFound`.
pub proof fn lemma_fresh_initialize_seeds_defaults(before: &GovernanceEnv, after: &GovernanceEnv)
    requires
        forall|k: ParameterKey| #[trigger] stored(before, k) is None,
        forall|k: ParameterKey| #[trigger] stored(after, k) == (if default_value(k) is Some {
            default_value(k)
        } else {
            stored(before, k)
        }),
    ensures
        forall|k: ParameterKey| #[trigger] default_value(k) matches Some(v) ==> in_bounds(k, v),
        forall|k: ParameterKey| #[trigger] read_result(after, k) == match default_value(k) {
            Some(v) => Ok::<i128, Error>(v),
            None => Err::<i128, Error>(Error::NotFound),
        },
        forall|t: u32| 4 <= t <= 10 ==> #[trigger] read_result(after, ParameterKey::ReferralTierBps(t))
            == Err::<i128, Error>(Error::NotFound),
{
    assert forall|k: ParameterKey| #[trigger] read_result(after, k) == match default_value(k) {
        Some(v) => Ok::<i128, Error>(v),
        None => Err::<i128, Error>(Error::NotFound),
    } by {
        assert(stored(before, k) is None);
        assert(stored(after, k) == default_value(k));
    }
    assert forall|t: u32| 4 <= t <= 10 implies #[trigger] read_result(after, ParameterKey::ReferralTierBps(t))
        == Err::<i128, Error>(Error::NotFound) by {
        assert(default_value(ParameterKey::ReferralTierBps(t)) is None);
        assert(read_result(after, ParameterKey::ReferralTierBps(t)) == match default_value(
            ParameterKey::ReferralTierBps(t),
        ) {
            Some(v) => Ok::<i128, Error>(v),
            None => Err::<i128, Error>(Error::NotFound),
        });
    }
}

/// Each parameter accepts exactly its documented range: an expiry of one
/// minute to one year (60 to 31 536 000 seconds), a withdrawal limit and a
/// reward cap of 0 to 10^18, 1 to 10 tiers, and for each of tiers 1 to 10 a
/// rate of 0 to 10 000 basis points; a tier outside 1 to 10 accepts nothing.
/// The admin's `set_param` succeeds on exactly these values.
pub proof fn lemma_documented_parameter_ranges(value: i128, tier: u32)
    ensures
        in_bounds(ParameterKey::AidDefaultExpiry, value) <==> 60 <= value <= 31_536_000,
        in_bounds(ParameterKey::TreasuryWithdrawalLimit, value) <==> 0 <= value
            <= 1_000_000_000_000_000_000,
        in_bounds(ParameterKey::ReferralMaxTiers, value) <==> 1 <= value <= 10,
        in_bounds(ParameterKey::ReferralRewardCap, value) <==> 0 <= value <= 1_000_000_000_000_000_000,
        1 <= tier <= 10 ==> (in_bounds(ParameterKey::ReferralTierBps(tier), value) <==> 0 <= value
            <= 10_000),
        !(1 <= tier <= 10) ==> !in_bounds(ParameterKey::ReferralTierBps(tier), value),
        spec_bounds(ParameterKey::AidDefaultExpiry) == Some(ParameterBounds { min: 60, max: 31_536_000 }),
{
}

} // verus!
