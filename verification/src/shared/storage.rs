//! The configuration that every contract keeps through the shared storage
//! helpers, and the time-to-live constants the host applies to entries.
//!
//! | Data category                     | Storage type  |
//! |-----------------------------------|---------------|
//! | Contract config (admin, token...) | `instance`    |
//! | Pause flag                        | `instance`    |
//! | Aid records                       | `persistent`  |
//! | Referral edges & accrued balances | `persistent`  |
//! | Role assignments                  | `persistent`  |
//! | One-time claim nonces             | `temporary`   |
//! | Oracle verification proofs        | `temporary`   |
use vstd::prelude::*;

use std::collections::HashSet;

use crate::shared::address::AccountId;

verus! {

/// Persistent entries are bumped to this lifetime on every read / write.
pub const PERSISTENT_BUMP_AMOUNT: u32 = 120_960;

/// Only bump a persistent entry when its remaining TTL drops below this
/// (one day before it runs out).
pub const PERSISTENT_TTL_THRESHOLD: u32 = PERSISTENT_BUMP_AMOUNT - 17_280;

/// Temporary entries are bumped to this lifetime on every read / write.
pub const TEMPORARY_BUMP_AMOUNT: u32 = 17_280;

/// Only bump a temporary entry when its remaining TTL drops below this
/// (half of its lifetime).
pub const TEMPORARY_TTL_THRESHOLD: u32 = TEMPORARY_BUMP_AMOUNT / 2;

/// A threshold below its bump amount is what lets an entry be renewed
/// before it expires: both tiers satisfy it.
pub proof fn lemma_ttl_thresholds_below_bump_amounts()
    ensures
        PERSISTENT_TTL_THRESHOLD < PERSISTENT_BUMP_AMOUNT,
        TEMPORARY_TTL_THRESHOLD < TEMPORARY_BUMP_AMOUNT,
{
}

/// The entries that the shared helpers manage in every contract: the admin
/// address, the pause flag and the role assignments.
pub struct SharedStore {
    /// The admin address, once one has been set.
    pub admin: Option<AccountId>,
    /// The pause flag; an unset flag reads as `false`.
    pub paused: bool,
    /// Holders of the `TreasuryManager` role.
    pub treasury_managers: HashSet<AccountId>,
    /// Holders of the `ReferralManager` role.
    pub referral_managers: HashSet<AccountId>,
    /// Holders of the `OracleSigner` role.
    pub oracle_signers: HashSet<AccountId>,
}

impl SharedStore {
    /// The store of a contract whose storage is still empty.
    pub fn new() -> (s: Self)
        ensures
            s.admin is None,
            !s.paused,
            s.treasury_managers@ == Set::<AccountId>::empty(),
            s.referral_managers@ == Set::<AccountId>::empty(),
            s.oracle_signers@ == Set::<AccountId>::empty(),
    {
        SharedStore {
            admin: None,
            paused: false,
            treasury_managers: HashSet::new(),
            referral_managers: HashSet::new(),
            oracle_signers: HashSet::new(),
        }
    }
}

/// Returns `true` when the contract is paused.
pub fn is_paused(env: &SharedStore) -> (r: bool)
    ensures
        r == env.paused,
{
    env.paused
}

/// Set (or clear) the paused flag.
pub fn set_paused(env: &mut SharedStore, paused: bool)
    ensures
        final(env).paused == paused,
        final(env).admin == old(env).admin,
        final(env).treasury_managers@ == old(env).treasury_managers@,
        final(env).referral_managers@ == old(env).referral_managers@,
        final(env).oracle_signers@ == old(env).oracle_signers@,
{
    env.paused = paused;
}

} // verus!
