//! The ledger entries of the aid contract: one persistent record per aid id
//! and the contract's own pause flag.
use vstd::prelude::*;

use std::collections::HashMap;

use crate::aid::types::AidRecord;
use crate::shared::auth::same_roles;
use crate::shared::storage::SharedStore;
use crate::shared::utils::Ledger;

verus! {

broadcast use vstd::std_specs::hash::group_hash_axioms;

/// Everything the aid contract reads and writes: the shared configuration,
/// the current ledger, the aid records and the pause flag that gates claims.
pub struct AidEnv {
    pub shared: SharedStore,
    pub ledger: Ledger,
    /// Aid records by id.
    pub records: HashMap<u64, AidRecord>,
    /// When set, claims are refused; nothing else is affected.
    pub paused: bool,
}

impl AidEnv {
    /// The environment of a freshly deployed contract.
    pub fn new(ledger: Ledger) -> (env: Self)
        ensures
            env.ledger == ledger,
            env.records@ == Map::<u64, AidRecord>::empty(),
            !env.paused,
            env.shared.admin is None,
            !env.shared.paused,
    {
        AidEnv { shared: SharedStore::new(), ledger, records: HashMap::new(), paused: false }
    }

    /// Everything but the records is the same in `self` and `other`.
    pub open spec fn same_config(&self, other: &AidEnv) -> bool {
        &&& self.shared.admin == other.shared.admin
        &&& self.shared.paused == other.shared.paused
        &&& same_roles(&self.shared, &other.shared)
        &&& self.ledger == other.ledger
        &&& self.paused == other.paused
    }
}

/// Reads the record stored under `aid_id`.
pub fn get_aid(env: &AidEnv, aid_id: u64) -> (r: Option<AidRecord>)
    ensures
        r == env.records@.get(aid_id),
{
    match env.records.get(&aid_id) {
        Some(record) => Some(*record),
        None => None,
    }
}

/// Writes `record` under `aid_id`.
pub fn set_aid(env: &mut AidEnv, aid_id: u64, record: &AidRecord)
    ensures
        final(env).records@ == old(env).records@.insert(aid_id, *record),
        final(env).same_config(old(env)),
{
    env.records.insert(aid_id, *record);
}

/// Whether a record is stored under `aid_id`.
pub fn has_aid(env: &AidEnv, aid_id: u64) -> (r: bool)
    ensures
        r == env.records@.contains_key(aid_id),
{
    env.records.contains_key(&aid_id)
}

/// Whether claims are paused.
pub fn is_paused(env: &AidEnv) -> (r: bool)
    ensures
        r == env.paused,
{
    env.paused
}

/// Sets or clears the claim pause.
pub fn set_paused(env: &mut AidEnv, paused: bool)
    ensures
        final(env).paused == paused,
        final(env).records@ == old(env).records@,
        final(env).shared.admin == old(env).shared.admin,
        final(env).shared.paused == old(env).shared.paused,
        same_roles(&final(env).shared, &old(env).shared),
        final(env).ledger == old(env).ledger,
{
    env.paused = paused;
}

} // verus!
