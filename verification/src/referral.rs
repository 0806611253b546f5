//! Multi-tier referral rewards: an admin records who referred whom, and
//! each accrual pays every referrer up the chain a tier's share of the base
//! amount, within a lifetime cap per referrer. Accrued rewards are paid out
//! by the treasury contract on claim.
use vstd::prelude::*;

use std::collections::HashMap;

use crate::shared::address::AccountId;
use crate::shared::auth;
use crate::shared::errors::Error;
use crate::shared::math::{bps_of, div_toward_zero, fits_i128, safe_add, safe_sub};
use crate::shared::storage::SharedStore;

verus! {

broadcast use vstd::std_specs::hash::group_hash_axioms;

/// The deepest referral chain that is paid or checked for cycles.
pub const MAX_SUPPORTED_TIERS: u32 = 10;
pub const MIN_REWARD_CAP: i128 = 0;
pub const MAX_REWARD_CAP: i128 = 1_000_000_000_000_000_000;
pub const MIN_TIER_BPS: i128 = 0;
pub const MAX_TIER_BPS: i128 = 10_000;

/// The active tier configuration.
#[derive(Debug, PartialEq, Eq)]
pub struct TierConfig {
    /// Basis points of tier 1, 2, ...
    pub tier_bps: Vec<i128>,
    pub max_tiers: u32,
    /// Lifetime cap on what one referrer can accrue.
    pub reward_cap: i128,
}

/// Published when a referral edge is stored.
#[derive(Clone, Copy, Debug, PartialEq, Eq, Structural)]
pub struct ReferrerSetEvent {
    pub referred_wallet: AccountId,
    pub referrer: AccountId,
}

/// Published for every non-zero credit of an accrual.
#[derive(Clone, Copy, Debug, PartialEq, Eq, Structural)]
pub struct AccruedRewardEvent {
    pub referred_wallet: AccountId,
    pub referrer: AccountId,
    pub tier: u32,
    pub amount: i128,
    pub accrued_balance: i128,
    pub lifetime_accrued: i128,
}

/// Published when a referrer's rewards are paid out.
#[derive(Clone, Copy, Debug, PartialEq, Eq, Structural)]
pub struct ClaimRewardsEvent {
    pub referrer: AccountId,
    pub amount: i128,
}

/// What one accrual credited: the total, and one event per non-zero credit
/// in tier order.
#[derive(Debug)]
pub struct Accrual {
    pub total: i128,
    pub events: Vec<AccruedRewardEvent>,
}

/// The first step of a claim: either nothing is owed, or `amount` must be
/// paid by the treasury contract's `distribute_reward`.
#[derive(Clone, Copy, Debug, PartialEq, Eq, Structural)]
pub enum RewardClaim {
    /// Nothing is accrued: the claim returns zero and the treasury is not called.
    Nothing,
    /// The treasury must pay `amount` to the referrer.
    Pay { treasury: AccountId, amount: i128 },
}

/// How the cross-contract call to the treasury's `distribute_reward` ended.
#[derive(Clone, Copy, Debug, PartialEq, Eq, Structural)]
pub enum InvokeOutcome {
    /// The call returned `Ok(())`.
    Succeeded,
    /// The call returned a value that did not convert to `()`.
    UnexpectedReturn,
    /// The call failed with a contract error.
    Failed(Error),
    /// The call failed with an error that is not a contract error.
    Aborted,
}

/// The referral contract's storage.
pub struct ReferralEnv {
    pub shared: SharedStore,
    /// The treasury contract that pays claims.
    pub treasury: Option<AccountId>,
    pub max_tiers: Option<u32>,
    pub reward_cap: Option<i128>,
    /// Basis points by tier number (1-based).
    pub tier_bps: HashMap<u32, i128>,
    /// The direct referrer of each referred wallet.
    pub referrers: HashMap<AccountId, AccountId>,
    /// Claimable rewards per referrer.
    pub accrued: HashMap<AccountId, i128>,
    /// Everything ever accrued per referrer, against which the cap applies.
    pub lifetime_accrued: HashMap<AccountId, i128>,
}

impl ReferralEnv {
    /// The storage of a freshly deployed contract.
    pub fn new() -> (env: Self)
        ensures
            env.shared.admin is None,
            env.treasury is None,
            env.max_tiers is None,
            env.reward_cap is None,
            env.tier_bps@ == Map::<u32, i128>::empty(),
            env.referrers@ == Map::<AccountId, AccountId>::empty(),
            env.accrued@ == Map::<AccountId, i128>::empty(),
            env.lifetime_accrued@ == Map::<AccountId, i128>::empty(),
    {
        ReferralEnv {
            shared: SharedStore::new(),
            treasury: None,
            max_tiers: None,
            reward_cap: None,
            tier_bps: HashMap::new(),
            referrers: HashMap::new(),
            accrued: HashMap::new(),
            lifetime_accrued: HashMap::new(),
        }
    }

    /// Only the accrued and lifetime balances may differ between `self` and `other`.
    pub open spec fn same_config(&self, other: &ReferralEnv) -> bool {
        &&& self.shared.admin == other.shared.admin
        &&& self.treasury == other.treasury
        &&& self.max_tiers == other.max_tiers
        &&& self.reward_cap == other.reward_cap
        &&& self.tier_bps@ == other.tier_bps@
        &&& self.referrers@ == other.referrers@
    }

    /// `self` and `other` hold the same entries.
    pub open spec fn same_state(&self, other: &ReferralEnv) -> bool {
        &&& self.same_config(other)
        &&& self.accrued@ == other.accrued@
        &&& self.lifetime_accrued@ == other.lifetime_accrued@
    }
}

/// The balance `m` holds for `a`; an absent entry reads as zero.
pub open spec fn amount_of(m: Map<AccountId, i128>, a: AccountId) -> i128 {
    if m.contains_key(a) {
        m[a]
    } else {
        0
    }
}

/// The wallet reached after following `k` referral edges from `start`.
pub open spec fn nth_referrer(refs: Map<AccountId, AccountId>, start: AccountId, k: nat) -> Option<
    AccountId,
>
    decreases k,
{
    if k == 0 {
        Some(start)
    } else {
        match nth_referrer(refs, start, (k - 1) as nat) {
            Some(w) => if refs.contains_key(w) {
                Some(refs[w])
            } else {
                None
            },
            None => None,
        }
    }
}

/// Storing the edge `referred -> referrer` would close a cycle that the
/// contract can see: `referred` is reached within the first
/// [`MAX_SUPPORTED_TIERS`] steps up from `referrer`.
pub open spec fn closes_cycle(refs: Map<AccountId, AccountId>, referred: AccountId, referrer: AccountId) -> bool {
    exists|k: nat| k < MAX_SUPPORTED_TIERS && #[trigger] nth_referrer(refs, referrer, k) == Some(referred)
}

/// Once a chain ends it stays ended.
proof fn lemma_chain_end_persists(refs: Map<AccountId, AccountId>, start: AccountId, k: nat, j: nat)
    requires
        nth_referrer(refs, start, k) is None,
        k <= j,
    ensures
        nth_referrer(refs, start, j) is None,
    decreases j - k,
{
    if k < j {
        lemma_chain_end_persists(refs, start, k, (j - 1) as nat);
    }
}

/// The sum of a sequence of basis points.
pub open spec fn bps_sum(s: Seq<i128>) -> int
    decreases s.len(),
{
    if s.len() == 0 {
        0
    } else {
        bps_sum(s.drop_last()) + s.last()
    }
}

/// A tier configuration is accepted.
pub open spec fn valid_tier_config(tier_bps: Seq<i128>, max_tiers: u32, reward_cap: i128) -> bool {
    &&& 1 <= max_tiers <= MAX_SUPPORTED_TIERS
    &&& tier_bps.len() == max_tiers
    &&& MIN_REWARD_CAP <= reward_cap <= MAX_REWARD_CAP
    &&& forall|i: int| 0 <= i < tier_bps.len() ==> MIN_TIER_BPS <= #[trigger] tier_bps[i] <= MAX_TIER_BPS
    &&& bps_sum(tier_bps) <= MAX_TIER_BPS
}

/// The balances an accrual works on and what it has produced so far.
pub struct AccrualState {
    pub accrued: Map<AccountId, i128>,
    pub lifetime: Map<AccountId, i128>,
    pub total: i128,
    pub events: Seq<AccruedRewardEvent>,
}

/// What an accrual reads and does not change.
pub struct AccrualParams {
    pub tier_bps: Map<u32, i128>,
    pub referrers: Map<AccountId, AccountId>,
    pub referred: AccountId,
    pub base: i128,
    pub max_tiers: u32,
    pub reward_cap: i128,
}

/// Crediting `commission` to `referrer` within `reward_cap`: the new
/// balances and the amount actually credited.
pub open spec fn credit_outcome(
    accrued: Map<AccountId, i128>,
    lifetime: Map<AccountId, i128>,
    referrer: AccountId,
    commission: i128,
    reward_cap: i128,
) -> Result<(Map<AccountId, i128>, Map<AccountId, i128>, i128), Error> {
    let lt = amount_of(lifetime, referrer);
    if lt >= reward_cap {
        Ok((accrued, lifetime, 0))
    } else if !fits_i128(reward_cap - lt) {
        Err(Error::Overflow)
    } else {
        let remaining = reward_cap - lt;
        let credited = if commission > remaining {
            remaining
        } else {
            commission as int
        };
        if credited == 0 {
            Ok((accrued, lifetime, 0))
        } else {
            let ab = amount_of(accrued, referrer);
            if !fits_i128(ab + credited) {
                Err(Error::Overflow)
            } else if !fits_i128(lt + credited) {
                Err(Error::Overflow)
            } else {
                Ok(
                    (
                        accrued.insert(referrer, (ab + credited) as i128),
                        lifetime.insert(referrer, (lt + credited) as i128),
                        credited as i128,
                    ),
                )
            }
        }
    }
}

/// The rest of an accrual from tier `tier`, at wallet `current`.
pub open spec fn accrue_from(p: AccrualParams, current: AccountId, tier: int, st: AccrualState) -> Result<
    AccrualState,
    Error,
>
    decreases p.max_tiers + 1 - tier,
{
    if tier > p.max_tiers || !p.referrers.contains_key(current) {
        Ok(st)
    } else {
        let referrer = p.referrers[current];
        if !p.tier_bps.contains_key(tier as u32) {
            Err(Error::NotFound)
        } else if !fits_i128(p.base * p.tier_bps[tier as u32]) {
            Err(Error::Overflow)
        } else {
            let commission = div_toward_zero(p.base * p.tier_bps[tier as u32], 10_000) as i128;
            if commission > 0 {
                match credit_outcome(st.accrued, st.lifetime, referrer, commission, p.reward_cap) {
                    Err(e) => Err(e),
                    Ok((accrued, lifetime, credited)) => if !fits_i128(st.total + credited) {
                        Err(Error::Overflow)
                    } else {
                        let events = if credited != 0 {
                            st.events.push(
                                AccruedRewardEvent {
                                    referred_wallet: p.referred,
                                    referrer,
                                    tier: tier as u32,
                                    amount: credited,
                                    accrued_balance: amount_of(accrued, referrer),
                                    lifetime_accrued: amount_of(lifetime, referrer),
                                },
                            )
                        } else {
                            st.events
                        };
                        accrue_from(
                            p,
                            referrer,
                            tier + 1,
                            AccrualState {
                                accrued,
                                lifetime,
                                total: (st.total + credited) as i128,
                                events,
                            },
                        )
                    },
                }
            } else {
                accrue_from(p, referrer, tier + 1, st)
            }
        }
    }
}

/// The parameters an accrual of `base_amount` for `referred` reads from `env`.
pub open spec fn accrual_params(env: &ReferralEnv, referred: AccountId, base_amount: i128) -> AccrualParams {
    AccrualParams {
        tier_bps: env.tier_bps@,
        referrers: env.referrers@,
        referred,
        base: base_amount,
        max_tiers: env.max_tiers->0,
        reward_cap: env.reward_cap->0,
    }
}

/// The balances of `env` before an accrual.
pub open spec fn initial_state(env: &ReferralEnv) -> AccrualState {
    AccrualState {
        accrued: env.accrued@,
        lifetime: env.lifetime_accrued@,
        total: 0,
        events: Seq::empty(),
    }
}

/// What an accrual of `base_amount` for `referred` by `caller` returns, once
/// the admin check has passed.
pub open spec fn accrue_outcome(env: &ReferralEnv, referred: AccountId, base_amount: i128) -> Result<
    AccrualState,
    Error,
> {
    if base_amount <= 0 {
        Err(Error::InvalidArgument)
    } else if env.max_tiers is None || env.reward_cap is None {
        Err(Error::NotFound)
    } else {
        accrue_from(accrual_params(env, referred, base_amount), referred, 1, initial_state(env))
    }
}

/// Every referrer's claimable balance is non-negative and never exceeds what
/// it has accrued over its lifetime.
pub open spec fn balances_consistent(accrued: Map<AccountId, i128>, lifetime: Map<AccountId, i128>) -> bool {
    forall|a: AccountId| 0 <= #[trigger] amount_of(accrued, a) <= amount_of(lifetime, a)
}

/// No referrer's lifetime total went past the cap, unless it was already
/// past it before.
pub open spec fn within_cap(before: Map<AccountId, i128>, after: Map<AccountId, i128>, cap: i128) -> bool {
    forall|a: AccountId| #[trigger] amount_of(after, a) <= amount_of(before, a) || amount_of(after, a) <= cap
}

/// The sum of the rates of tiers `1..=n`; a tier without a rate counts zero.
pub open spec fn rate_prefix_sum(rates: Map<u32, i128>, n: int) -> int
    decreases n,
{
    if n <= 0 {
        0
    } else {
        rate_prefix_sum(rates, n - 1) + (if rates.contains_key(n as u32) {
            rates[n as u32] as int
        } else {
            0
        })
    }
}

/// The rates in force are each between 0 and 10 000 basis points and
/// together at most 10 000: no accrual pays out more than its base amount.
pub open spec fn tier_rates_valid(env: &ReferralEnv) -> bool {
    match env.max_tiers {
        None => true,
        Some(m) => {
            &&& forall|t: u32|
                1 <= t <= m && env.tier_bps@.contains_key(t) ==> MIN_TIER_BPS <= #[trigger] env.tier_bps@[t]
                    <= MAX_TIER_BPS
            &&& rate_prefix_sum(env.tier_bps@, m as int) <= MAX_TIER_BPS
        },
    }
}

/// The sum of the amounts of `events`.
pub open spec fn event_total(events: Seq<AccruedRewardEvent>) -> int
    decreases events.len(),
{
    if events.len() == 0 {
        0
    } else {
        event_total(events.drop_last()) + events.last().amount
    }
}

/// What the first step of a claim by `referrer` returns: nothing owed when
/// its balance is zero, otherwise the payment the treasury must make
/// (`NotFound` when no treasury is configured).
pub open spec fn claim_result(env: &ReferralEnv, referrer: AccountId) -> Result<RewardClaim, Error> {
    let amount = amount_of(env.accrued@, referrer);
    if amount == 0 {
        Ok(RewardClaim::Nothing)
    } else {
        match env.treasury {
            Some(treasury) => Ok(RewardClaim::Pay { treasury, amount }),
            None => Err(Error::NotFound),
        }
    }
}

/// The referral contract's entry points.
pub struct ReferralContract;

impl ReferralContract {
    /// Initialise the contract, setting the admin address and a single tier
    /// that pays nothing, with a zero cap.
    pub fn initialize(env: &mut ReferralEnv, admin: AccountId)
        ensures
            final(env).shared.admin == Some(admin),
            final(env).max_tiers == Some(1u32),
            final(env).reward_cap == Some(0i128),
            final(env).tier_bps@ == old(env).tier_bps@.insert(1, 0),
            final(env).treasury == old(env).treasury,
            final(env).referrers@ == old(env).referrers@,
            final(env).accrued@ == old(env).accrued@,
            final(env).lifetime_accrued@ == old(env).lifetime_accrued@,
            tier_rates_valid(final(env)),
    {
        auth::set_admin(&mut env.shared, admin);
        env.max_tiers = Some(1);
        env.reward_cap = Some(0);
        env.tier_bps.insert(1, 0);
        assert(rate_prefix_sum(env.tier_bps@, 0) == 0);
        assert(rate_prefix_sum(env.tier_bps@, 1) == 0);
    }

    /// Configure the treasury contract used for referral reward claims.
    /// Admin only (`Unauthorized` otherwise); an admin must have been set.
    pub fn set_treasury(env: &mut ReferralEnv, caller: AccountId, treasury: AccountId) -> (r: Result<
        (),
        Error,
    >)
        requires
            old(env).shared.admin is Some,
        ensures
            !auth::is_admin(&old(env).shared, caller) ==> r == Err::<(), Error>(Error::Unauthorized)
                && final(env).same_state(old(env)),
            auth::is_admin(&old(env).shared, caller) ==> r == Ok::<(), Error>(())
                && final(env).treasury == Some(treasury) && final(env).shared.admin
                == old(env).shared.admin && final(env).max_tiers == old(env).max_tiers
                && final(env).reward_cap == old(env).reward_cap && final(env).tier_bps@
                == old(env).tier_bps@ && final(env).referrers@ == old(env).referrers@
                && final(env).accrued@ == old(env).accrued@ && final(env).lifetime_accrued@
                == old(env).lifetime_accrued@,
            tier_rates_valid(old(env)) ==> tier_rates_valid(final(env)),
    {
        match require_admin(env, caller) {
            Ok(()) => {},
            Err(e) => {
                return Err(e);
            },
        }
        env.treasury = Some(treasury);
        Ok(())
    }

    /// Read the configured treasury contract: `NotFound` when none is set.
    pub fn get_treasury(env: &ReferralEnv) -> (r: Result<AccountId, Error>)
        ensures
            env.treasury matches Some(t) ==> r == Ok::<AccountId, Error>(t),
            env.treasury is None ==> r == Err::<AccountId, Error>(Error::NotFound),
    {
        read_treasury(env)
    }

    /// Configure tier percentages and the lifetime cap enforced per referrer.
    /// Admin only (`Unauthorized`); the configuration must have between 1 and
    /// [`MAX_SUPPORTED_TIERS`] tiers, one rate per tier, each rate and their
    /// sum at most 10 000 basis points and the cap within bounds
    /// (`InvalidArgument` otherwise). An admin must have been set.
    pub fn set_tier_config(
        env: &mut ReferralEnv,
        caller: AccountId,
        tier_bps: Vec<i128>,
        max_tiers: u32,
        reward_cap: i128,
    ) -> (r: Result<(), Error>)
        requires
            old(env).shared.admin is Some,
        ensures
            !auth::is_admin(&old(env).shared, caller) ==> r == Err::<(), Error>(Error::Unauthorized),
            auth::is_admin(&old(env).shared, caller) && !valid_tier_config(tier_bps@, max_tiers, reward_cap)
                ==> r == Err::<(), Error>(Error::InvalidArgument),
            r is Err ==> final(env).same_state(old(env)),
            auth::is_admin(&old(env).shared, caller) && valid_tier_config(tier_bps@, max_tiers, reward_cap)
                ==> {
                &&& r == Ok::<(), Error>(())
                &&& final(env).max_tiers == Some(max_tiers)
                &&& final(env).reward_cap == Some(reward_cap)
                &&& forall|t: u32| #[trigger] final(env).tier_bps@.contains_key(t) <==> (
                    old(env).tier_bps@.contains_key(t) || 1 <= t <= max_tiers)
                &&& forall|t: u32| 1 <= t <= max_tiers ==> #[trigger] final(env).tier_bps@[t] == tier_bps@[t - 1]
                &&& forall|t: u32| !(1 <= t <= max_tiers) && old(env).tier_bps@.contains_key(t)
                    ==> #[trigger] final(env).tier_bps@[t] == old(env).tier_bps@[t]
                &&& final(env).shared.admin == old(env).shared.admin
                &&& final(env).treasury == old(env).treasury
                &&& final(env).referrers@ == old(env).referrers@
                &&& final(env).accrued@ == old(env).accrued@
                &&& final(env).lifetime_accrued@ == old(env).lifetime_accrued@
            },
            tier_rates_valid(old(env)) ==> tier_rates_valid(final(env)),
            r is Ok ==> tier_rates_valid(final(env)),
    {
        match require_admin(env, caller) {
            Ok(()) => {},
            Err(e) => {
                return Err(e);
            },
        }
        match validate_tier_config(&tier_bps, max_tiers, reward_cap) {
            Ok(()) => {},
            Err(e) => {
                return Err(e);
            },
        }
        env.max_tiers = Some(max_tiers);
        env.reward_cap = Some(reward_cap);
        let mut tier: u32 = 1;
        while tier <= max_tiers
            invariant
                1 <= tier <= max_tiers + 1,
                max_tiers <= MAX_SUPPORTED_TIERS,
                tier_bps@.len() == max_tiers,
                forall|t: u32| #[trigger] env.tier_bps@.contains_key(t) <==> (
                    old(env).tier_bps@.contains_key(t) || 1 <= t < tier),
                forall|t: u32| 1 <= t < tier ==> #[trigger] env.tier_bps@[t] == tier_bps@[t - 1],
                forall|t: u32| !(1 <= t < tier) && old(env).tier_bps@.contains_key(t)
                    ==> #[trigger] env.tier_bps@[t] == old(env).tier_bps@[t],
                env.max_tiers == Some(max_tiers),
                env.reward_cap == Some(reward_cap),
                env.shared.admin == old(env).shared.admin,
                env.treasury == old(env).treasury,
                env.referrers@ == old(env).referrers@,
                env.accrued@ == old(env).accrued@,
                env.lifetime_accrued@ == old(env).lifetime_accrued@,
            decreases max_tiers + 1 - tier,
        {
            let bps = tier_bps[(tier - 1) as usize];
            env.tier_bps.insert(tier, bps);
            tier = tier + 1;
        }
        proof {
            lemma_rate_prefix_of_seq(env.tier_bps@, tier_bps@, max_tiers as int);
            assert(tier_bps@.take(max_tiers as int) =~= tier_bps@);
            assert forall|t: u32| 1 <= t <= max_tiers && env.tier_bps@.contains_key(t) implies MIN_TIER_BPS
                <= #[trigger] env.tier_bps@[t] <= MAX_TIER_BPS by {
                assert(env.tier_bps@[t] == tier_bps@[t - 1]);
            }
        }
        Ok(())
    }

    /// The active tier configuration: `NotFound` when the tier count, a
    /// tier's rate or the cap is missing.
    pub fn get_tier_config(env: &ReferralEnv) -> (r: Result<TierConfig, Error>)
        ensures
            (env.max_tiers is Some && env.reward_cap is Some && forall|t: u32|
                1 <= t <= env.max_tiers->0 ==> #[trigger] env.tier_bps@.contains_key(t)) ==> (
            r matches Ok(c) && {
                &&& c.max_tiers == env.max_tiers->0
                &&& c.reward_cap == env.reward_cap->0
                &&& c.tier_bps@.len() == c.max_tiers
                &&& forall|i: int| 0 <= i < c.max_tiers ==> #[trigger] c.tier_bps@[i]
                    == env.tier_bps@[(i + 1) as u32]
            }),
            !(env.max_tiers is Some && env.reward_cap is Some && forall|t: u32|
                1 <= t <= env.max_tiers->0 ==> #[trigger] env.tier_bps@.contains_key(t)) ==> (r
                matches Err(e) && e == Error::NotFound),
    {
        let max_tiers = match read_max_tiers(env) {
            Ok(m) => m,
            Err(e) => {
                return Err(e);
            },
        };
        let mut tier_bps: Vec<i128> = Vec::new();
        let mut tier: u64 = 1;
        while tier <= max_tiers as u64
            invariant
                env.max_tiers == Some(max_tiers),
                1 <= tier <= max_tiers as u64 + 1,
                tier_bps@.len() == tier - 1,
                forall|t: u32| 1 <= t < tier ==> #[trigger] env.tier_bps@.contains_key(t),
                forall|i: int| 0 <= i < tier - 1 ==> #[trigger] tier_bps@[i] == env.tier_bps@[(i
                    + 1) as u32],
            decreases max_tiers as u64 + 1 - tier,
        {
            let bps = match read_tier_bps(env, tier as u32) {
                Ok(b) => b,
                Err(e) => {
                    return Err(e);
                },
            };
            tier_bps.push(bps);
            tier = tier + 1;
        }
        let reward_cap = match read_reward_cap(env) {
            Ok(c) => c,
            Err(e) => {
                return Err(e);
            },
        };
        Ok(TierConfig { tier_bps, max_tiers, reward_cap })
    }

    /// Store the referral edge `referred_wallet -> referrer`. Admin only
    /// (`Unauthorized`); a self-referral or an edge that closes a cycle
    /// within [`MAX_SUPPORTED_TIERS`] steps is refused with
    /// `InvalidArgument`. An admin must have been set.
    pub fn set_referrer(
        env: &mut ReferralEnv,
        caller: AccountId,
        referred_wallet: AccountId,
        referrer: AccountId,
    ) -> (r: Result<ReferrerSetEvent, Error>)
        requires
            old(env).shared.admin is Some,
        ensures
            !auth::is_admin(&old(env).shared, caller) ==> r == Err::<ReferrerSetEvent, Error>(
                Error::Unauthorized,
            ),
            auth::is_admin(&old(env).shared, caller) && (referred_wallet == referrer || closes_cycle(
                old(env).referrers@,
                referred_wallet,
                referrer,
            )) ==> r == Err::<ReferrerSetEvent, Error>(Error::InvalidArgument),
            r is Err ==> final(env).same_state(old(env)),
            auth::is_admin(&old(env).shared, caller) && referred_wallet != referrer && !closes_cycle(
                old(env).referrers@,
                referred_wallet,
                referrer,
            ) ==> {
                &&& r == Ok::<ReferrerSetEvent, Error>(ReferrerSetEvent { referred_wallet, referrer })
                &&& final(env).referrers@ == old(env).referrers@.insert(referred_wallet, referrer)
                &&& final(env).shared.admin == old(env).shared.admin
                &&& final(env).treasury == old(env).treasury
                &&& final(env).max_tiers == old(env).max_tiers
                &&& final(env).reward_cap == old(env).reward_cap
                &&& final(env).tier_bps@ == old(env).tier_bps@
                &&& final(env).accrued@ == old(env).accrued@
                &&& final(env).lifetime_accrued@ == old(env).lifetime_accrued@
            },
            tier_rates_valid(old(env)) ==> tier_rates_valid(final(env)),
    {
        match require_admin(env, caller) {
            Ok(()) => {},
            Err(e) => {
                return Err(e);
            },
        }
        if referred_wallet == referrer || would_create_cycle(env, referred_wallet, referrer) {
            return Err(Error::InvalidArgument);
        }
        env.referrers.insert(referred_wallet, referrer);
        Ok(ReferrerSetEvent { referred_wallet, referrer })
    }

    /// A wallet's direct referrer, if one has been registered.
    pub fn get_referrer(env: &ReferralEnv, wallet: AccountId) -> (r: Option<AccountId>)
        ensures
            r == env.referrers@.get(wallet),
    {
        read_referrer(env, wallet)
    }

    /// Accrue referral rewards for `referred_wallet` on a base transaction
    /// amount. Admin only (`Unauthorized`); `base_amount` must be positive
    /// (`InvalidArgument`). Walking up the referral chain for at most
    /// `max_tiers` tiers, each referrer is credited its tier's share of the
    /// base amount, cut to what remains of its lifetime cap. On success the
    /// total credited and one event per credit are returned; on any error
    /// nothing changes. An admin must have been set.
    pub fn accrue(env: &mut ReferralEnv, caller: AccountId, referred_wallet: AccountId, base_amount: i128) -> (r:
        Result<Accrual, Error>)
        requires
            old(env).shared.admin is Some,
        ensures
            !auth::is_admin(&old(env).shared, caller) ==> (r matches Err(e) && e == Error::Unauthorized),
            auth::is_admin(&old(env).shared, caller) ==> match accrue_outcome(
                old(env),
                referred_wallet,
                base_amount,
            ) {
                Err(e) => (r matches Err(e2) && e2 == e),
                Ok(st) => (r matches Ok(a) && {
                    &&& a.total == st.total
                    &&& a.events@ == st.events
                    &&& final(env).accrued@ == st.accrued
                    &&& final(env).lifetime_accrued@ == st.lifetime
                }),
            },
            r is Err ==> final(env).same_state(old(env)),
            final(env).same_config(old(env)),
            balances_consistent(old(env).accrued@, old(env).lifetime_accrued@) ==> balances_consistent(
                final(env).accrued@,
                final(env).lifetime_accrued@,
            ),
            r is Ok ==> within_cap(
                old(env).lifetime_accrued@,
                final(env).lifetime_accrued@,
                old(env).reward_cap->0,
            ),
            tier_rates_valid(old(env)) ==> tier_rates_valid(final(env)),
    {
        match require_admin(env, caller) {
            Ok(()) => {},
            Err(e) => {
                return Err(e);
            },
        }
        if base_amount <= 0 {
            return Err(Error::InvalidArgument);
        }
        let max_tiers = match read_max_tiers(env) {
            Ok(m) => m,
            Err(e) => {
                return Err(e);
            },
        };
        let reward_cap = match read_reward_cap(env) {
            Ok(c) => c,
            Err(e) => {
                return Err(e);
            },
        };
        let ghost p = accrual_params(env, referred_wallet, base_amount);
        let mut accrued = env.accrued.clone();
        let mut lifetime = env.lifetime_accrued.clone();
        let mut events: Vec<AccruedRewardEvent> = Vec::new();
        let mut tier: u64 = 1;
        let mut current_wallet = referred_wallet;
        let mut total_credited: i128 = 0;
        while tier <= max_tiers as u64
            invariant
                auth::is_admin(&old(env).shared, caller),
                base_amount > 0,
                p == accrual_params(env, referred_wallet, base_amount),
                env.max_tiers == Some(max_tiers),
                env.reward_cap == Some(reward_cap),
                env.same_state(old(env)),
                1 <= tier <= max_tiers as u64 + 1,
                accrue_from(p, referred_wallet, 1, initial_state(env)) == accrue_from(
                    p,
                    current_wallet,
                    tier as int,
                    AccrualState {
                        accrued: accrued@,
                        lifetime: lifetime@,
                        total: total_credited,
                        events: events@,
                    },
                ),
            ensures
                accrue_from(p, referred_wallet, 1, initial_state(env)) == Ok::<AccrualState, Error>(
                    AccrualState {
                        accrued: accrued@,
                        lifetime: lifetime@,
                        total: total_credited,
                        events: events@,
                    },
                ),
            decreases max_tiers as u64 + 1 - tier,
        {
            let ghost st = AccrualState {
                accrued: accrued@,
                lifetime: lifetime@,
                total: total_credited,
                events: events@,
            };
            let referrer = match read_referrer(env, current_wallet) {
                Some(address) => address,
                None => {
                    break;
                },
            };
            let tier_bps = match read_tier_bps(env, tier as u32) {
                Ok(b) => b,
                Err(e) => {
                    return Err(e);
                },
            };
            let commission = match bps_of(base_amount, tier_bps) {
                Some(c) => c,
                None => {
                    return Err(Error::Overflow);
                },
            };
            if commission > 0 {
                let credited = match credit_referrer(
                    &mut accrued,
                    &mut lifetime,
                    &mut events,
                    referred_wallet,
                    referrer,
                    tier as u32,
                    commission,
                    reward_cap,
                ) {
                    Ok(c) => c,
                    Err(e) => {
                        return Err(e);
                    },
                };
                total_credited = match safe_add(total_credited, credited) {
                    Some(t) => t,
                    None => {
                        return Err(Error::Overflow);
                    },
                };
            }
            current_wallet = referrer;
            tier = tier + 1;
        }
        proof {
            lemma_accrue_preserves_balances(p, referred_wallet, 1, initial_state(env));
        }
        env.accrued = accrued;
        env.lifetime_accrued = lifetime;
        Ok(Accrual { total: total_credited, events })
    }

    /// The claimable accrued balance of a referrer.
    pub fn accrued_balance(env: &ReferralEnv, referrer: AccountId) -> (r: i128)
        ensures
            r == amount_of(env.accrued@, referrer),
    {
        read_accrued(env, referrer)
    }

    /// Total lifetime rewards accrued by a referrer, for cap enforcement.
    pub fn lifetime_accrued(env: &ReferralEnv, referrer: AccountId) -> (r: i128)
        ensures
            r == amount_of(env.lifetime_accrued@, referrer),
    {
        read_lifetime_accrued(env, referrer)
    }

    /// First step of claiming a referrer's rewards: when nothing is accrued
    /// the claim pays zero and the treasury is left untouched; otherwise the
    /// treasury must pay the accrued amount (`NotFound` when no treasury is
    /// configured). Nothing changes yet.
    pub fn claim_rewards(env: &ReferralEnv, referrer: AccountId) -> (r: Result<RewardClaim, Error>)
        ensures
            r == claim_result(env, referrer),
    {
        let amount = read_accrued(env, referrer);
        if amount == 0 {
            return Ok(RewardClaim::Nothing);
        }
        let treasury = match read_treasury(env) {
            Ok(t) => t,
            Err(e) => {
                return Err(e);
            },
        };
        Ok(RewardClaim::Pay { treasury, amount })
    }

    /// Second step of a claim, once the treasury has been asked to pay
    /// `amount`, which is the referrer's accrued balance that the first step
    /// asked the treasury to pay: when it paid, that balance drops to zero
    /// and `amount` is returned; otherwise the error is returned and nothing
    /// changes.
    pub fn finish_claim_rewards(
        env: &mut ReferralEnv,
        referrer: AccountId,
        amount: i128,
        outcome: InvokeOutcome,
    ) -> (r: Result<ClaimRewardsEvent, Error>)
        requires
            amount == amount_of(old(env).accrued@, referrer),
        ensures
            treasury_call_result(outcome) matches Err(e) ==> r == Err::<ClaimRewardsEvent, Error>(e)
                && final(env).same_state(old(env)),
            treasury_call_result(outcome) is Ok ==> r == Ok::<ClaimRewardsEvent, Error>(
                ClaimRewardsEvent { referrer, amount },
            ) && final(env).accrued@ == old(env).accrued@.insert(referrer, 0),
            final(env).same_config(old(env)),
            final(env).lifetime_accrued@ == old(env).lifetime_accrued@,
            balances_consistent(old(env).accrued@, old(env).lifetime_accrued@) ==> balances_consistent(
                final(env).accrued@,
                final(env).lifetime_accrued@,
            ),
            tier_rates_valid(old(env)) ==> tier_rates_valid(final(env)),
    {
        match treasury_call_result(outcome) {
            Ok(()) => {},
            Err(e) => {
                return Err(e);
            },
        }
        env.accrued.insert(referrer, 0);
        proof {
            if balances_consistent(old(env).accrued@, old(env).lifetime_accrued@) {
                assert forall|a: AccountId| 0 <= #[trigger] amount_of(env.accrued@, a) <= amount_of(
                    env.lifetime_accrued@,
                    a,
                ) by {
                    assert(0 <= amount_of(old(env).accrued@, a) <= amount_of(old(env).lifetime_accrued@, a));
                }
            }
        }
        Ok(ClaimRewardsEvent { referrer, amount })
    }
}

/// How a `distribute_reward` call ending in `outcome` reads: a failure with a
/// contract error passes that error on; a return value that does not
/// convert, or a failure without a contract error, reads as
/// `InvalidArgument`.
pub open spec fn spec_treasury_call_result(outcome: InvokeOutcome) -> Result<(), Error> {
    match outcome {
        InvokeOutcome::Succeeded => Ok(()),
        InvokeOutcome::UnexpectedReturn => Err(Error::InvalidArgument),
        InvokeOutcome::Failed(e) => Err(e),
        InvokeOutcome::Aborted => Err(Error::InvalidArgument),
    }
}

/// The result of the treasury's `distribute_reward` call, read as the
/// referral contract's own result.
#[verifier::when_used_as_spec(spec_treasury_call_result)]
pub fn treasury_call_result(outcome: InvokeOutcome) -> (r: Result<(), Error>)
    ensures
        r == spec_treasury_call_result(outcome),
{
    match outcome {
        InvokeOutcome::Succeeded => Ok(()),
        InvokeOutcome::UnexpectedReturn => Err(Error::InvalidArgument),
        InvokeOutcome::Failed(e) => Err(e),
        InvokeOutcome::Aborted => Err(Error::InvalidArgument),
    }
}

fn require_admin(env: &ReferralEnv, caller: AccountId) -> (r: Result<(), Error>)
    requires
        env.shared.admin is Some,
    ensures
        auth::is_admin(&env.shared, caller) ==> r == Ok::<(), Error>(()),
        !auth::is_admin(&env.shared, caller) ==> r == Err::<(), Error>(Error::Unauthorized),
{
    if caller != auth::get_admin(&env.shared) {
        return Err(Error::Unauthorized);
    }
    Ok(())
}

/// Checks a tier configuration: `InvalidArgument` unless it is
/// [`valid_tier_config`].
pub fn validate_tier_config(tier_bps: &Vec<i128>, max_tiers: u32, reward_cap: i128) -> (r: Result<(), Error>)
    ensures
        valid_tier_config(tier_bps@, max_tiers, reward_cap) ==> r == Ok::<(), Error>(()),
        !valid_tier_config(tier_bps@, max_tiers, reward_cap) ==> r == Err::<(), Error>(
            Error::InvalidArgument,
        ),
{
    if max_tiers == 0 || max_tiers > MAX_SUPPORTED_TIERS || tier_bps.len() != max_tiers as usize {
        return Err(Error::InvalidArgument);
    }
    if !(MIN_REWARD_CAP <= reward_cap && reward_cap <= MAX_REWARD_CAP) {
        return Err(Error::InvalidArgument);
    }
    let mut total_bps: i128 = 0;
    let mut index: usize = 0;
    while index < tier_bps.len()
        invariant
            tier_bps@.len() == max_tiers,
            max_tiers <= MAX_SUPPORTED_TIERS,
            0 <= index <= tier_bps@.len(),
            total_bps == bps_sum(tier_bps@.take(index as int)),
            0 <= total_bps <= index * MAX_TIER_BPS,
            forall|i: int| 0 <= i < index ==> MIN_TIER_BPS <= #[trigger] tier_bps@[i] <= MAX_TIER_BPS,
        decreases tier_bps@.len() - index,
    {
        let bps = tier_bps[index];
        if !(MIN_TIER_BPS <= bps && bps <= MAX_TIER_BPS) {
            return Err(Error::InvalidArgument);
        }
        assert(tier_bps@.take(index + 1).drop_last() == tier_bps@.take(index as int));
        total_bps = match safe_add(total_bps, bps) {
            Some(t) => t,
            None => {
                return Err(Error::Overflow);
            },
        };
        index = index + 1;
    }
    assert(tier_bps@.take(index as int) == tier_bps@);
    if total_bps > MAX_TIER_BPS {
        return Err(Error::InvalidArgument);
    }
    Ok(())
}

/// Whether storing `referred_wallet -> referrer` would close a cycle within
/// [`MAX_SUPPORTED_TIERS`] steps.
fn would_create_cycle(env: &ReferralEnv, referred_wallet: AccountId, referrer: AccountId) -> (r: bool)
    ensures
        r == closes_cycle(env.referrers@, referred_wallet, referrer),
{
    let mut current_wallet = referrer;
    let mut depth: u32 = 0;
    while depth < MAX_SUPPORTED_TIERS
        invariant
            depth <= MAX_SUPPORTED_TIERS,
            nth_referrer(env.referrers@, referrer, depth as nat) == Some(current_wallet),
            forall|k: nat| k < depth ==> #[trigger] nth_referrer(env.referrers@, referrer, k) != Some(
                referred_wallet,
            ),
        decreases MAX_SUPPORTED_TIERS - depth,
    {
        if current_wallet == referred_wallet {
            return true;
        }
        current_wallet = match read_referrer(env, current_wallet) {
            Some(address) => address,
            None => {
                proof {
                    assert(nth_referrer(env.referrers@, referrer, (depth + 1) as nat) is None);
                    assert forall|k: nat| k < MAX_SUPPORTED_TIERS implies #[trigger] nth_referrer(
                        env.referrers@,
                        referrer,
                        k,
                    ) != Some(referred_wallet) by {
                        if k > depth {
                            lemma_chain_end_persists(env.referrers@, referrer, (depth + 1) as nat, k);
                        }
                    }
                }
                return false;
            },
        };
        depth = depth + 1;
    }
    false
}

fn read_treasury(env: &ReferralEnv) -> (r: Result<AccountId, Error>)
    ensures
        env.treasury matches Some(t) ==> r == Ok::<AccountId, Error>(t),
        env.treasury is None ==> r == Err::<AccountId, Error>(Error::NotFound),
{
    match env.treasury {
        Some(t) => Ok(t),
        None => Err(Error::NotFound),
    }
}

fn read_max_tiers(env: &ReferralEnv) -> (r: Result<u32, Error>)
    ensures
        env.max_tiers matches Some(m) ==> r == Ok::<u32, Error>(m),
        env.max_tiers is None ==> r == Err::<u32, Error>(Error::NotFound),
{
    match env.max_tiers {
        Some(m) => Ok(m),
        None => Err(Error::NotFound),
    }
}

fn read_reward_cap(env: &ReferralEnv) -> (r: Result<i128, Error>)
    ensures
        env.reward_cap matches Some(c) ==> r == Ok::<i128, Error>(c),
        env.reward_cap is None ==> r == Err::<i128, Error>(Error::NotFound),
{
    match env.reward_cap {
        Some(c) => Ok(c),
        None => Err(Error::NotFound),
    }
}

fn read_tier_bps(env: &ReferralEnv, tier: u32) -> (r: Result<i128, Error>)
    ensures
        env.tier_bps@.contains_key(tier) ==> r == Ok::<i128, Error>(env.tier_bps@[tier]),
        !env.tier_bps@.contains_key(tier) ==> r == Err::<i128, Error>(Error::NotFound),
{
    match env.tier_bps.get(&tier) {
        Some(b) => Ok(*b),
        None => Err(Error::NotFound),
    }
}

fn read_referrer(env: &ReferralEnv, wallet: AccountId) -> (r: Option<AccountId>)
    ensures
        r == env.referrers@.get(wallet),
{
    match env.referrers.get(&wallet) {
        Some(a) => Some(*a),
        None => None,
    }
}

fn read_amount(m: &HashMap<AccountId, i128>, a: AccountId) -> (r: i128)
    ensures
        r == amount_of(m@, a),
{
    match m.get(&a) {
        Some(v) => *v,
        None => 0,
    }
}

fn read_accrued(env: &ReferralEnv, referrer: AccountId) -> (r: i128)
    ensures
        r == amount_of(env.accrued@, referrer),
{
    read_amount(&env.accrued, referrer)
}

fn read_lifetime_accrued(env: &ReferralEnv, referrer: AccountId) -> (r: i128)
    ensures
        r == amount_of(env.lifetime_accrued@, referrer),
{
    read_amount(&env.lifetime_accrued, referrer)
}

/// Credits `commission` to `referrer` within `reward_cap`, recording an
/// event for a non-zero credit; returns the amount credited.
fn credit_referrer(
    accrued: &mut HashMap<AccountId, i128>,
    lifetime: &mut HashMap<AccountId, i128>,
    events: &mut Vec<AccruedRewardEvent>,
    referred_wallet: AccountId,
    referrer: AccountId,
    tier: u32,
    commission: i128,
    reward_cap: i128,
) -> (r: Result<i128, Error>)
    ensures
        match credit_outcome(old(accrued)@, old(lifetime)@, referrer, commission, reward_cap) {
            Err(e) => r == Err::<i128, Error>(e),
            Ok((a2, l2, credited)) => {
                &&& r == Ok::<i128, Error>(credited)
                &&& final(accrued)@ == a2
                &&& final(lifetime)@ == l2
                &&& final(events)@ == if credited != 0 {
                    old(events)@.push(
                        AccruedRewardEvent {
                            referred_wallet,
                            referrer,
                            tier,
                            amount: credited,
                            accrued_balance: amount_of(a2, referrer),
                            lifetime_accrued: amount_of(l2, referrer),
                        },
                    )
                } else {
                    old(events)@
                }
            },
        },
{
    let lifetime_accrued = read_amount(lifetime, referrer);
    if lifetime_accrued >= reward_cap {
        return Ok(0);
    }
    let remaining_cap = match safe_sub(reward_cap, lifetime_accrued) {
        Some(r) => r,
        None => {
            return Err(Error::Overflow);
        },
    };
    let credited = if commission > remaining_cap {
        remaining_cap
    } else {
        commission
    };
    if credited == 0 {
        return Ok(0);
    }
    let accrued_balance = read_amount(accrued, referrer);
    let new_accrued_balance = match safe_add(accrued_balance, credited) {
        Some(v) => v,
        None => {
            return Err(Error::Overflow);
        },
    };
    let new_lifetime_accrued = match safe_add(lifetime_accrued, credited) {
        Some(v) => v,
        None => {
            return Err(Error::Overflow);
        },
    };
    accrued.insert(referrer, new_accrued_balance);
    lifetime.insert(referrer, new_lifetime_accrued);
    events.push(
        AccruedRewardEvent {
            referred_wallet,
            referrer,
            tier,
            amount: credited,
            accrued_balance: new_accrued_balance,
            lifetime_accrued: new_lifetime_accrued,
        },
    );
    Ok(credited)
}


/// An accrual keeps every claimable balance between zero and the lifetime
/// total, takes no referrer's lifetime total past the cap (unless it was
/// already past it), and never lowers the running total.
pub proof fn lemma_accrue_preserves_balances(p: AccrualParams, current: AccountId, tier: int, st: AccrualState)
    ensures
        accrue_from(p, current, tier, st) matches Ok(st2) ==> {
            &&& balances_consistent(st.accrued, st.lifetime) ==> balances_consistent(st2.accrued, st2.lifetime)
            &&& within_cap(st.lifetime, st2.lifetime, p.reward_cap)
            &&& st.total <= st2.total
        },
    decreases p.max_tiers + 1 - tier,
{
    if tier > p.max_tiers || !p.referrers.contains_key(current) {
    } else {
        let referrer = p.referrers[current];
        if !p.tier_bps.contains_key(tier as u32) {
        } else if !fits_i128(p.base * p.tier_bps[tier as u32]) {
        } else {
            let commission = div_toward_zero(p.base * p.tier_bps[tier as u32], 10_000) as i128;
            if commission > 0 {
                match credit_outcome(st.accrued, st.lifetime, referrer, commission, p.reward_cap) {
                    Err(e) => {},
                    Ok((accrued, lifetime, credited)) => {
                        if fits_i128(st.total + credited) {
                            let events = if credited != 0 {
                                st.events.push(
                                    AccruedRewardEvent {
                                        referred_wallet: p.referred,
                                        referrer,
                                        tier: tier as u32,
                                        amount: credited,
                                        accrued_balance: amount_of(accrued, referrer),
                                        lifetime_accrued: amount_of(lifetime, referrer),
                                    },
                                )
                            } else {
                                st.events
                            };
                            let st1 = AccrualState {
                                accrued,
                                lifetime,
                                total: (st.total + credited) as i128,
                                events,
                            };
                            assert(credited >= 0);
                            if balances_consistent(st.accrued, st.lifetime) {
                                assert forall|a: AccountId| 0 <= #[trigger] amount_of(accrued, a) <= amount_of(
                                    lifetime,
                                    a,
                                ) by {
                                    assert(0 <= amount_of(st.accrued, a) <= amount_of(st.lifetime, a));
                                }
                            }
                            assert(within_cap(st.lifetime, lifetime, p.reward_cap));
                            lemma_accrue_preserves_balances(p, referrer, tier + 1, st1);
                            match accrue_from(p, referrer, tier + 1, st1) {
                                Ok(st2) => {
                                assert forall|a: AccountId| #[trigger] amount_of(st2.lifetime, a) <= amount_of(
                                    st.lifetime,
                                    a,
                                ) || amount_of(st2.lifetime, a) <= p.reward_cap by {
                                    assert(amount_of(st2.lifetime, a) <= amount_of(lifetime, a) || amount_of(
                                        st2.lifetime,
                                        a,
                                    ) <= p.reward_cap);
                                    assert(amount_of(lifetime, a) <= amount_of(st.lifetime, a) || amount_of(
                                        lifetime,
                                        a,
                                    ) <= p.reward_cap);
                                }
                            },
                                Err(_) => {},
                            }
                        }
                    },
                }
            } else {
                lemma_accrue_preserves_balances(p, referrer, tier + 1, st);
            }
        }
    }
}

/// Following `k + 1` edges from `start` is following `k` edges from its
/// direct referrer.
proof fn lemma_chain_shift(refs: Map<AccountId, AccountId>, start: AccountId, k: nat)
    requires
        refs.contains_key(start),
    ensures
        nth_referrer(refs, start, k + 1) == nth_referrer(refs, refs[start], k),
    decreases k,
{
    assert(nth_referrer(refs, start, k + 1) == match nth_referrer(refs, start, k) {
        Some(w) => if refs.contains_key(w) {
            Some(refs[w])
        } else {
            None
        },
        None => None,
    });
    if k > 0 {
        lemma_chain_shift(refs, start, (k - 1) as nat);
        assert(nth_referrer(refs, refs[start], k) == match nth_referrer(refs, refs[start], (k - 1) as nat) {
            Some(w) => if refs.contains_key(w) {
                Some(refs[w])
            } else {
                None
            },
            None => None,
        });
    }
}

/// Adding the edge `referred -> referrer` leaves the first `k` steps up from
/// `referrer` unchanged while none of them reaches `referred`.
proof fn lemma_chain_unchanged(
    refs: Map<AccountId, AccountId>,
    referred: AccountId,
    referrer: AccountId,
    k: nat,
)
    requires
        forall|j: nat| j < k ==> #[trigger] nth_referrer(refs, referrer, j) != Some(referred),
    ensures
        nth_referrer(refs.insert(referred, referrer), referrer, k) == nth_referrer(refs, referrer, k),
    decreases k,
{
    if k > 0 {
        lemma_chain_unchanged(refs, referred, referrer, (k - 1) as nat);
        assert(nth_referrer(refs, referrer, (k - 1) as nat) != Some(referred));
    }
}

/// An edge that `set_referrer` accepts closes no cycle of
/// [`MAX_SUPPORTED_TIERS`] edges or fewer: walking up from the referred
/// wallet for that many steps never comes back to it.
pub proof fn lemma_accepted_edge_closes_no_short_cycle(
    refs: Map<AccountId, AccountId>,
    referred: AccountId,
    referrer: AccountId,
    k: nat,
)
    requires
        referred != referrer,
        !closes_cycle(refs, referred, referrer),
        1 <= k <= MAX_SUPPORTED_TIERS,
    ensures
        nth_referrer(refs.insert(referred, referrer), referred, k) != Some(referred),
{
    let refs2 = refs.insert(referred, referrer);
    lemma_chain_shift(refs2, referred, (k - 1) as nat);
    assert forall|j: nat| j < (k - 1) as nat implies #[trigger] nth_referrer(refs, referrer, j) != Some(
        referred,
    ) by {
        if nth_referrer(refs, referrer, j) == Some(referred) {
            assert(closes_cycle(refs, referred, referrer));
        }
    }
    lemma_chain_unchanged(refs, referred, referrer, (k - 1) as nat);
    if nth_referrer(refs, referrer, (k - 1) as nat) == Some(referred) {
        assert(closes_cycle(refs, referred, referrer));
    }
}

/// A second claim after a successful payout owes nothing: once the payout
/// has zeroed the referrer's balance, the next claim pays zero and leaves the
/// treasury untouched, whatever else is configured.
pub proof fn lemma_second_claim_pays_nothing(
    before: &ReferralEnv,
    after: &ReferralEnv,
    referrer: AccountId,
)
    requires
        after.accrued@ == before.accrued@.insert(referrer, 0),
    ensures
        claim_result(after, referrer) == Ok::<RewardClaim, Error>(RewardClaim::Nothing),
{
}

/// With non-negative rates on tiers `a + 1..=b`, the prefix sum grows from
/// `a` to `b`.
proof fn lemma_rate_prefix_monotone(rates: Map<u32, i128>, a: int, b: int)
    requires
        0 <= a <= b <= u32::MAX,
        forall|t: u32| a < t <= b && rates.contains_key(t) ==> #[trigger] rates[t] >= 0,
    ensures
        rate_prefix_sum(rates, a) <= rate_prefix_sum(rates, b),
    decreases b - a,
{
    if a < b {
        lemma_rate_prefix_monotone(rates, a, b - 1);
        if rates.contains_key(b as u32) {
            assert(rates[b as u32] >= 0);
        }
    }
}

/// The prefix sum of rates stored from a sequence is the sum of that
/// sequence's prefix.
proof fn lemma_rate_prefix_of_seq(rates: Map<u32, i128>, s: Seq<i128>, n: int)
    requires
        0 <= n <= s.len(),
        s.len() <= u32::MAX,
        forall|t: u32| 1 <= t <= n ==> #[trigger] rates.contains_key(t) && rates[t] == s[t - 1],
    ensures
        rate_prefix_sum(rates, n) == bps_sum(s.take(n)),
    decreases n,
{
    if n > 0 {
        lemma_rate_prefix_of_seq(rates, s, n - 1);
        assert(s.take(n).drop_last() =~= s.take(n - 1));
        assert(rates.contains_key(n as u32));
    }
}

/// An accrual from tier `tier` on credits at most the base amount's share at
/// the summed rates of the tiers still ahead.
proof fn lemma_accrue_total_bound(p: AccrualParams, current: AccountId, tier: int, st: AccrualState)
    requires
        p.base > 0,
        1 <= tier <= p.max_tiers + 1,
        forall|t: u32|
            tier <= t <= p.max_tiers && p.tier_bps.contains_key(t) ==> #[trigger] p.tier_bps[t] >= 0,
    ensures
        accrue_from(p, current, tier, st) matches Ok(st2) ==> st2.total - st.total <= (p.base * (
        rate_prefix_sum(p.tier_bps, p.max_tiers as int) - rate_prefix_sum(p.tier_bps, tier - 1)))
            / 10_000,
    decreases p.max_tiers + 1 - tier,
{
    let rest_sum = rate_prefix_sum(p.tier_bps, p.max_tiers as int) - rate_prefix_sum(p.tier_bps, tier - 1);
    lemma_rate_prefix_monotone(p.tier_bps, tier - 1, p.max_tiers as int);
    assert(0 <= (p.base * rest_sum) / 10_000) by (nonlinear_arith)
        requires
            p.base > 0,
            rest_sum >= 0,
    ;
    if tier > p.max_tiers || !p.referrers.contains_key(current) {
    } else {
        let referrer = p.referrers[current];
        if !p.tier_bps.contains_key(tier as u32) {
        } else if !fits_i128(p.base * p.tier_bps[tier as u32]) {
        } else {
            let b = p.tier_bps[tier as u32] as int;
            assert(b >= 0);
            let after_sum = rate_prefix_sum(p.tier_bps, p.max_tiers as int) - rate_prefix_sum(p.tier_bps, tier);
            assert(rate_prefix_sum(p.tier_bps, tier) == rate_prefix_sum(p.tier_bps, tier - 1) + b);
            assert(rest_sum == b + after_sum);
            assert(0 <= p.base * b) by (nonlinear_arith)
                requires
                    p.base > 0,
                    b >= 0,
            ;
            let commission = div_toward_zero(p.base * b, 10_000) as i128;
            assert(commission == (p.base * b) / 10_000);
            lemma_accrue_total_bound(p, referrer, tier + 1, st);
            lemma_rate_prefix_monotone(p.tier_bps, tier, p.max_tiers as int);
            assert((p.base * b) / 10_000 + (p.base * after_sum) / 10_000 <= (p.base * rest_sum) / 10_000)
                by (nonlinear_arith)
                requires
                    rest_sum == b + after_sum,
                    p.base * b >= 0,
                    after_sum >= 0,
                    p.base > 0,
            ;
            assert((p.base * after_sum) / 10_000 <= (p.base * rest_sum) / 10_000) by (nonlinear_arith)
                requires
                    rest_sum == b + after_sum,
                    b >= 0,
                    p.base > 0,
            ;
            if commission > 0 {
                match credit_outcome(st.accrued, st.lifetime, referrer, commission, p.reward_cap) {
                    Err(e) => {},
                    Ok((accrued, lifetime, credited)) => {
                        assert(0 <= credited <= commission);
                        if fits_i128(st.total + credited) {
                            let events = if credited != 0 {
                                st.events.push(
                                    AccruedRewardEvent {
                                        referred_wallet: p.referred,
                                        referrer,
                                        tier: tier as u32,
                                        amount: credited,
                                        accrued_balance: amount_of(accrued, referrer),
                                        lifetime_accrued: amount_of(lifetime, referrer),
                                    },
                                )
                            } else {
                                st.events
                            };
                            let st1 = AccrualState {
                                accrued,
                                lifetime,
                                total: (st.total + credited) as i128,
                                events,
                            };
                            lemma_accrue_total_bound(p, referrer, tier + 1, st1);
                        }
                    },
                }
            }
        }
    }
}

/// No accrual credits more than its base amount in total, and none credits
/// a negative total, in any state whose rates are valid (which every entry
/// point keeps).
pub proof fn lemma_accrual_within_base(env: &ReferralEnv, referred: AccountId, base_amount: i128)
    requires
        tier_rates_valid(env),
    ensures
        accrue_outcome(env, referred, base_amount) matches Ok(st) ==> 0 <= st.total <= base_amount,
{
    if base_amount > 0 && env.max_tiers is Some && env.reward_cap is Some {
        let p = accrual_params(env, referred, base_amount);
        let m = env.max_tiers->0;
        assert forall|t: u32| 1 <= t <= p.max_tiers && p.tier_bps.contains_key(t) implies #[trigger] p.tier_bps[t]
            >= 0 by {
            assert(MIN_TIER_BPS <= env.tier_bps@[t]);
        }
        lemma_accrue_total_bound(p, referred, 1, initial_state(env));
        lemma_accrue_preserves_balances(p, referred, 1, initial_state(env));
        let total_sum = rate_prefix_sum(p.tier_bps, m as int);
        assert(rate_prefix_sum(p.tier_bps, 0) == 0);
        assert((base_amount * total_sum) / 10_000 <= base_amount) by (nonlinear_arith)
            requires
                base_amount > 0,
                total_sum <= 10_000,
        ;
    }
}

/// An accrual from tier `tier` on credits each referrer's claimable balance
/// by exactly what it adds to its lifetime total, and its running total
/// grows by exactly the amounts of the events it records.
proof fn lemma_accrue_credits(p: AccrualParams, current: AccountId, tier: int, st: AccrualState)
    ensures
        accrue_from(p, current, tier, st) matches Ok(st2) ==> {
            &&& forall|a: AccountId| #[trigger] amount_of(st2.accrued, a) - amount_of(st.accrued, a)
                == amount_of(st2.lifetime, a) - amount_of(st.lifetime, a)
            &&& st2.total - st.total == event_total(st2.events) - event_total(st.events)
        },
    decreases p.max_tiers + 1 - tier,
{
    if tier > p.max_tiers || !p.referrers.contains_key(current) {
    } else {
        let referrer = p.referrers[current];
        if !p.tier_bps.contains_key(tier as u32) {
        } else if !fits_i128(p.base * p.tier_bps[tier as u32]) {
        } else {
            let commission = div_toward_zero(p.base * p.tier_bps[tier as u32], 10_000) as i128;
            if commission > 0 {
                match credit_outcome(st.accrued, st.lifetime, referrer, commission, p.reward_cap) {
                    Err(e) => {},
                    Ok((accrued, lifetime, credited)) => {
                        if fits_i128(st.total + credited) {
                            let ev = AccruedRewardEvent {
                                referred_wallet: p.referred,
                                referrer,
                                tier: tier as u32,
                                amount: credited,
                                accrued_balance: amount_of(accrued, referrer),
                                lifetime_accrued: amount_of(lifetime, referrer),
                            };
                            let events = if credited != 0 {
                                st.events.push(ev)
                            } else {
                                st.events
                            };
                            let st1 = AccrualState {
                                accrued,
                                lifetime,
                                total: (st.total + credited) as i128,
                                events,
                            };
                            if credited != 0 {
                                assert(st.events.push(ev).drop_last() =~= st.events);
                            }
                            assert(event_total(events) == event_total(st.events) + credited);
                            assert forall|a: AccountId| #[trigger] amount_of(accrued, a) - amount_of(st.accrued, a)
                                == amount_of(lifetime, a) - amount_of(st.lifetime, a) by {
                            }
                            lemma_accrue_credits(p, referrer, tier + 1, st1);
                            match accrue_from(p, referrer, tier + 1, st1) {
                                Ok(st2) => {
                                    assert forall|a: AccountId| #[trigger] amount_of(st2.accrued, a)
                                        - amount_of(st.accrued, a) == amount_of(st2.lifetime, a)
                                        - amount_of(st.lifetime, a) by {
                                        assert(amount_of(st2.accrued, a) - amount_of(accrued, a)
                                            == amount_of(st2.lifetime, a) - amount_of(lifetime, a));
                                        assert(amount_of(accrued, a) - amount_of(st.accrued, a)
                                            == amount_of(lifetime, a) - amount_of(st.lifetime, a));
                                    }
                                },
                                Err(_) => {},
                            }
                        }
                    },
                }
            } else {
                lemma_accrue_credits(p, referrer, tier + 1, st);
            }
        }
    }
}

/// What an accrual credits it credits to both balances: each referrer's
/// claimable balance grows by exactly what its lifetime total grows by, and
/// the returned total is the sum of the amounts of the returned events.
pub proof fn lemma_accrual_credits_both_balances(env: &ReferralEnv, referred: AccountId, base_amount: i128)
    ensures
        accrue_outcome(env, referred, base_amount) matches Ok(st) ==> {
            &&& forall|a: AccountId| #[trigger] amount_of(st.accrued, a) - amount_of(env.accrued@, a)
                == amount_of(st.lifetime, a) - amount_of(env.lifetime_accrued@, a)
            &&& st.total == event_total(st.events)
        },
{
    if base_amount > 0 && env.max_tiers is Some && env.reward_cap is Some {
        lemma_accrue_credits(accrual_params(env, referred, base_amount), referred, 1, initial_state(env));
        assert(event_total(Seq::<AccruedRewardEvent>::empty()) == 0);
    }
}

/// A claim asks the treasury for exactly the claimable balance: with a
/// treasury set and a non-zero accrued balance, the first step of a claim
/// asks that treasury to pay that balance, whatever the lifetime total; so
/// after a paid claim and a new accrual, only the newly accrued amount is
/// asked for.
pub proof fn lemma_claim_asks_for_the_accrued_balance(env: &ReferralEnv, referrer: AccountId, treasury: AccountId)
    requires
        env.treasury == Some(treasury),
        amount_of(env.accrued@, referrer) != 0,
    ensures
        claim_result(env, referrer) == Ok::<RewardClaim, Error>(
            RewardClaim::Pay { treasury, amount: amount_of(env.accrued@, referrer) },
        ),
{
}

/// The second tier of a chain `.. -> r1 -> r2` that ends at `r2` credits
/// `r2` its commission cut to the room left under its own cap.
proof fn lemma_second_tier_credit(p: AccrualParams, r1: AccountId, r2: AccountId, st: AccrualState)
    requires
        p.base > 0,
        p.max_tiers >= 2,
        p.referrers.contains_key(r1),
        p.referrers[r1] == r2,
        !p.referrers.contains_key(r2),
        p.tier_bps.contains_key(2),
        0 <= p.tier_bps[2],
        fits_i128(p.base * p.tier_bps[2]),
        (p.base * p.tier_bps[2]) / 10_000 > 0,
        0 <= p.reward_cap <= MAX_REWARD_CAP,
        0 <= amount_of(st.accrued, r2) <= amount_of(st.lifetime, r2),
        amount_of(st.lifetime, r2) < p.reward_cap,
        0 <= st.total <= MAX_REWARD_CAP,
    ensures
        accrue_from(p, r1, 2, st) matches Ok(st2) && {
            let c = (p.base * p.tier_bps[2]) / 10_000;
            let room = p.reward_cap - amount_of(st.lifetime, r2);
            let credit = if c < room {
                c
            } else {
                room
            };
            &&& amount_of(st2.accrued, r2) == amount_of(st.accrued, r2) + credit
            &&& amount_of(st2.lifetime, r2) == amount_of(st.lifetime, r2) + credit
        },
{
    let b = p.tier_bps[2];
    assert(0 <= p.base * b) by (nonlinear_arith)
        requires
            p.base > 0,
            b >= 0,
    ;
    assert(0 <= (p.base * b) / 10_000 <= p.base * b) by (nonlinear_arith)
        requires
            p.base * b >= 0,
    ;
    assert(div_toward_zero(p.base * b, 10_000) == (p.base * b) / 10_000);
    let c = div_toward_zero(p.base * b, 10_000) as i128;
    assert(c == (p.base * b) / 10_000);
    let out = credit_outcome(st.accrued, st.lifetime, r2, c, p.reward_cap);
    assert(out is Ok);
    let (accrued, lifetime, credited) = out->Ok_0;
    let events = if credited != 0 {
        st.events.push(
            AccruedRewardEvent {
                referred_wallet: p.referred,
                referrer: r2,
                tier: 2,
                amount: credited,
                accrued_balance: amount_of(accrued, r2),
                lifetime_accrued: amount_of(lifetime, r2),
            },
        )
    } else {
        st.events
    };
    let st2 = AccrualState { accrued, lifetime, total: (st.total + credited) as i128, events };
    assert(fits_i128(st.total + credited));
    assert(accrue_from(p, r2, 3, st2) == Ok::<AccrualState, Error>(st2));
    assert(accrue_from(p, r1, 2, st) == accrue_from(p, r2, 3int, st2));
}

/// A referrer's credit in an accrual depends only on its own lifetime total,
/// not on whether the referrers below it are capped: on a chain
/// `referred -> r1 -> r2` (ending at `r2`) with at least two tiers paid, a
/// positive tier-2 commission `c` and `r2` below the cap, the accrual
/// succeeds and credits `r2` exactly `min(c, cap - lifetime(r2))` to both its
/// claimable and its lifetime balance, whatever `r1`'s balances are.
pub proof fn lemma_accrual_credit_depends_on_own_cap(
    env: &ReferralEnv,
    referred: AccountId,
    r1: AccountId,
    r2: AccountId,
    base_amount: i128,
)
    requires
        base_amount > 0,
        env.max_tiers matches Some(m) && m >= 2,
        env.reward_cap matches Some(cap) && 0 <= cap <= MAX_REWARD_CAP,
        env.referrers@.contains_key(referred),
        env.referrers@[referred] == r1,
        env.referrers@.contains_key(r1),
        env.referrers@[r1] == r2,
        !env.referrers@.contains_key(r2),
        r1 != r2,
        env.tier_bps@.contains_key(1),
        0 <= env.tier_bps@[1] <= MAX_TIER_BPS,
        env.tier_bps@.contains_key(2),
        0 <= env.tier_bps@[2] <= MAX_TIER_BPS,
        fits_i128(base_amount * env.tier_bps@[1]),
        fits_i128(base_amount * env.tier_bps@[2]),
        balances_consistent(env.accrued@, env.lifetime_accrued@),
        (base_amount * env.tier_bps@[2]) / 10_000 > 0,
        amount_of(env.lifetime_accrued@, r2) < env.reward_cap->0,
    ensures
        accrue_outcome(env, referred, base_amount) matches Ok(st) && {
            let c = (base_amount * env.tier_bps@[2]) / 10_000;
            let room = env.reward_cap->0 - amount_of(env.lifetime_accrued@, r2);
            let credit = if c < room {
                c
            } else {
                room
            };
            &&& amount_of(st.accrued, r2) == amount_of(env.accrued@, r2) + credit
            &&& amount_of(st.lifetime, r2) == amount_of(env.lifetime_accrued@, r2) + credit
        },
{
    let p = accrual_params(env, referred, base_amount);
    let st0 = initial_state(env);
    let cap = env.reward_cap->0;
    let b = env.tier_bps@[1];
    assert(0 <= amount_of(env.accrued@, r1) <= amount_of(env.lifetime_accrued@, r1));
    assert(0 <= amount_of(env.accrued@, r2) <= amount_of(env.lifetime_accrued@, r2));
    assert(0 <= base_amount * b) by (nonlinear_arith)
        requires
            base_amount > 0,
            b >= 0,
    ;
    assert(0 <= (base_amount * b) / 10_000 <= base_amount * b) by (nonlinear_arith)
        requires
            base_amount * b >= 0,
    ;
    assert(div_toward_zero(base_amount * b, 10_000) == (base_amount * b) / 10_000);
    let c = div_toward_zero(base_amount * b, 10_000) as i128;
    if c > 0 {
        let out = credit_outcome(st0.accrued, st0.lifetime, r1, c, cap);
        assert(out is Ok);
        let (accrued, lifetime, credited) = out->Ok_0;
        assert(0 <= credited <= cap);
        let events = if credited != 0 {
            st0.events.push(
                AccruedRewardEvent {
                    referred_wallet: referred,
                    referrer: r1,
                    tier: 1,
                    amount: credited,
                    accrued_balance: amount_of(accrued, r1),
                    lifetime_accrued: amount_of(lifetime, r1),
                },
            )
        } else {
            st0.events
        };
        let st1 = AccrualState { accrued, lifetime, total: (st0.total + credited) as i128, events };
        assert(accrue_from(p, referred, 1, st0) == accrue_from(p, r1, 2int, st1));
        assert(amount_of(accrued, r2) == amount_of(env.accrued@, r2));
        assert(amount_of(lifetime, r2) == amount_of(env.lifetime_accrued@, r2));
        lemma_second_tier_credit(p, r1, r2, st1);
    } else {
        assert(accrue_from(p, referred, 1, st0) == accrue_from(p, r1, 2int, st0));
        lemma_second_tier_credit(p, r1, r2, st0);
    }
}

} // verus!
