//! Oracle-contract storage layer.
//!
//! | Entry                        | Storage type | Holds                                   |
//! |------------------------------|--------------|-----------------------------------------|
//! | `Verification(id)`           | persistent   | one verification record                 |
//! | `VerificationIndex(subject)` | persistent   | append-only record ids of one subject   |
//! | `VerificationCount`          | instance     | the id counter                          |
use vstd::prelude::*;

use std::collections::HashMap;

use crate::oracle::types::{VerificationRecord, VerificationRecordView};
use crate::shared::address::AccountId;
use crate::shared::storage::SharedStore;
use crate::shared::utils::Ledger;

verus! {

broadcast use vstd::std_specs::hash::group_hash_axioms;

/// Everything the oracle contract reads and writes.
pub struct OracleEnv {
    pub shared: SharedStore,
    pub ledger: Ledger,
    pub store: OracleStore,
}

/// The oracle's own entries: records, subject indexes and the id counter.
pub struct OracleStore {
    records: HashMap<u32, VerificationRecord>,
    subject_index: HashMap<AccountId, Vec<u32>>,
    count: u32,
}

impl OracleEnv {
    /// The environment of a freshly deployed contract.
    pub fn new(ledger: Ledger) -> (env: Self)
        ensures
            env.ledger == ledger,
            env.shared.admin is None,
            !env.shared.paused,
            env.records() == Map::<u32, VerificationRecordView>::empty(),
            forall|s: AccountId| #[trigger] env.subject_ids(s) == Seq::<u32>::empty(),
            env.count() == 0,
            env.wf(),
    {
        let env = OracleEnv {
            shared: SharedStore::new(),
            ledger,
            store: OracleStore { records: HashMap::new(), subject_index: HashMap::new(), count: 0 },
        };
        assert(env.records() =~= Map::<u32, VerificationRecordView>::empty());
        env
    }

    /// The stored records, by id.
    pub open spec fn records(&self) -> Map<u32, VerificationRecordView> {
        self.store.records()
    }

    /// The ids indexed for `subject`, in submission order.
    pub open spec fn subject_ids(&self, subject: AccountId) -> Seq<u32> {
        self.store.subject_ids(subject)
    }

    /// The number of ids allocated so far.
    pub open spec fn count(&self) -> u32 {
        self.store.count()
    }

    /// The storage invariant: ids are `1..=count` with each record stored
    /// under its own id; every indexed id has been allocated and, while its
    /// record is stored, names a record of that subject; no index is longer
    /// than the number of ids allocated.
    pub open spec fn wf(&self) -> bool {
        &&& forall|id: u32| #[trigger] self.records().contains_key(id) ==> 1 <= id <= self.count()
            && self.records()[id].id == id
        &&& forall|s: AccountId, i: int|
            0 <= i < self.subject_ids(s).len() ==> 1 <= #[trigger] self.subject_ids(s)[i] <= self.count()
                && (self.records().contains_key(self.subject_ids(s)[i]) ==> self.records()[self.subject_ids(
                s,
            )[i]].subject == s)
        &&& forall|s: AccountId| #[trigger] self.subject_ids(s).len() <= self.count()
    }

    /// Only the records differ between `self` and `other`.
    pub open spec fn same_except_records(&self, other: &OracleEnv) -> bool {
        &&& forall|s: AccountId| #[trigger] self.subject_ids(s) == other.subject_ids(s)
        &&& self.count() == other.count()
        &&& self.shared.admin == other.shared.admin
        &&& self.shared.paused == other.shared.paused
        &&& self.ledger == other.ledger
    }

}

impl OracleStore {
    /// The stored records, by id.
    pub closed spec fn records(&self) -> Map<u32, VerificationRecordView> {
        Map::new(
            |id: u32| self.records@.contains_key(id),
            |id: u32| self.records@[id]@,
        )
    }

    /// The ids indexed for `subject`, in submission order.
    pub closed spec fn subject_ids(&self, subject: AccountId) -> Seq<u32> {
        if self.subject_index@.contains_key(subject) {
            self.subject_index@[subject]@
        } else {
            Seq::empty()
        }
    }

    /// The number of ids allocated so far.
    pub closed spec fn count(&self) -> u32 {
        self.count
    }

}

/// Read a verification record, extending its time-to-live on the ledger.
pub fn get_verification_with_bump(env: &OracleEnv, id: u32) -> (r: Option<VerificationRecord>)
    ensures
        r is Some <==> env.records().contains_key(id),
        r matches Some(rec) ==> rec@ == env.records()[id],
{
    get_verification_no_bump(env, id)
}

/// Read a verification record without extending its time-to-live.
pub fn get_verification_no_bump(env: &OracleEnv, id: u32) -> (r: Option<VerificationRecord>)
    ensures
        r is Some <==> env.records().contains_key(id),
        r matches Some(rec) ==> rec@ == env.records()[id],
{
    match env.store.records.get(&id) {
        Some(record) => Some(record.duplicate()),
        None => None,
    }
}

/// Write (or overwrite) a verification record.
pub fn set_verification(env: &mut OracleEnv, id: u32, record: &VerificationRecord)
    ensures
        final(env).records() == old(env).records().insert(id, record@),
        final(env).same_except_records(old(env)),
{
    env.store.records.insert(id, record.duplicate());
    assert(env.records() =~= old(env).records().insert(id, record@));
}

/// Whether a verification record with the given id exists.
pub fn has_verification(env: &OracleEnv, id: u32) -> (r: bool)
    ensures
        r == env.records().contains_key(id),
{
    get_verification_no_bump(env, id).is_some()
}

/// The ids submitted for `subject`, oldest first.
pub fn get_subject_index(env: &OracleEnv, subject: AccountId) -> (r: Vec<u32>)
    ensures
        r@ == env.subject_ids(subject),
{
    match env.store.subject_index.get(&subject) {
        Some(ids) => {
            let mut out: Vec<u32> = Vec::new();
            let n = ids.len();
            for i in 0..n
                invariant
                    n == ids@.len(),
                    out@ == ids@.take(i as int),
            {
                out.push(ids[i]);
                assert(ids@.take(i + 1) == ids@.take(i as int).push(ids@[i as int]));
            }
            assert(ids@.take(n as int) == ids@);
            out
        },
        None => Vec::new(),
    }
}

/// Append `id` to `subject`'s index.
pub fn append_subject_index(env: &mut OracleEnv, subject: AccountId, id: u32)
    ensures
        final(env).subject_ids(subject) == old(env).subject_ids(subject).push(id),
        forall|s: AccountId| s != subject ==> #[trigger] final(env).subject_ids(s) == old(env).subject_ids(s),
        final(env).records() == old(env).records(),
        final(env).count() == old(env).count(),
        final(env).shared.admin == old(env).shared.admin,
        final(env).shared.paused == old(env).shared.paused,
        final(env).ledger == old(env).ledger,
{
    let mut ids = get_subject_index(env, subject);
    ids.push(id);
    env.store.subject_index.insert(subject, ids);
}

/// Read the current verification counter.
pub fn get_verification_counter(env: &OracleEnv) -> (c: u32)
    ensures
        c == env.count(),
{
    env.store.count
}

/// Write the verification counter.
pub fn set_verification_counter(env: &mut OracleEnv, counter: u32)
    ensures
        final(env).count() == counter,
        final(env).records() == old(env).records(),
        forall|s: AccountId| #[trigger] final(env).subject_ids(s) == old(env).subject_ids(s),
        final(env).shared.admin == old(env).shared.admin,
        final(env).shared.paused == old(env).shared.paused,
        final(env).ledger == old(env).ledger,
{
    env.store.count = counter;
}

/// Allocate the next verification id (1-based). The id space must not be
/// exhausted.
pub fn next_verification_id(env: &mut OracleEnv) -> (id: u32)
    requires
        old(env).count() < u32::MAX,
    ensures
        id == old(env).count() + 1,
        final(env).count() == id,
        final(env).records() == old(env).records(),
        forall|s: AccountId| #[trigger] final(env).subject_ids(s) == old(env).subject_ids(s),
        final(env).shared.admin == old(env).shared.admin,
        final(env).shared.paused == old(env).shared.paused,
        final(env).ledger == old(env).ledger,
{
    let next = get_verification_counter(env) + 1;
    set_verification_counter(env, next);
    next
}

} // verus!
