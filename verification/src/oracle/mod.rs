//! Verification records: anyone may submit evidence about a subject (by hash
//! and pointer, never personal data); the admin verifies or rejects it once.
use vstd::prelude::*;

pub mod storage;
pub mod types;

use crate::oracle::storage::{
    append_subject_index, get_subject_index, get_verification_counter, get_verification_no_bump,
    next_verification_id, set_verification, OracleEnv,
};
use crate::oracle::types::{
    record_views, VerificationPage, VerificationRecord, VerificationRecordView, VerificationStatus,
    MAX_METADATA_URI_LEN,
};
use crate::shared::address::AccountId;
use crate::shared::auth;
use crate::shared::storage::is_paused;
use crate::shared::symbol::Symbol;

verus! {

/// Hard cap on records per listing page.
pub const MAX_PAGE_SIZE: u32 = 50;

/// Errors of the oracle contract (codes 500-599).
#[derive(Clone, Copy, Debug, PartialEq, Eq, Structural, PartialOrd, Ord)]
pub enum OracleError {
    /// The requested verification record does not exist.
    VerificationNotFound,
    /// A decision (verify/reject) has already been recorded for this verification.
    AlreadyDecided,
    /// The caller is not authorised to decide verifications.
    NotVerifier,
    /// The submitted evidence is invalid (empty or oversized metadata URI),
    /// or a query cursor is out of range.
    InvalidEvidence,
    /// The operation is not permitted while the contract is paused.
    Paused,
    /// The attestation has expired and must be re-verified.
    Expired,
    /// The attestation was verified and later revoked.
    Revoked,
    /// The contract has already been initialized.
    AlreadyInitialized,
}

impl OracleError {
    /// The published numeric code of each variant.
    pub open spec fn spec_code(self) -> u32 {
        match self {
            OracleError::VerificationNotFound => 500,
            OracleError::AlreadyDecided => 501,
            OracleError::NotVerifier => 502,
            OracleError::InvalidEvidence => 503,
            OracleError::Paused => 507,
            OracleError::Expired => 504,
            OracleError::Revoked => 505,
            OracleError::AlreadyInitialized => 506,
        }
    }

    /// Returns the stable numeric code of this error.
    #[verifier::when_used_as_spec(spec_code)]
    pub fn code(self) -> (c: u32)
        ensures
            c == self.spec_code(),
    {
        match self {
            OracleError::VerificationNotFound => 500,
            OracleError::AlreadyDecided => 501,
            OracleError::NotVerifier => 502,
            OracleError::InvalidEvidence => 503,
            OracleError::Paused => 507,
            OracleError::Expired => 504,
            OracleError::Revoked => 505,
            OracleError::AlreadyInitialized => 506,
        }
    }
}

/// Oracle error codes are unique and lie in the oracle's range 500-599.
pub proof fn lemma_oracle_error_codes(a: OracleError, b: OracleError)
    ensures
        500 <= a.spec_code() < 600,
        a.spec_code() == b.spec_code() ==> a == b,
{
}

/// A metadata URI of `len` bytes is accepted.
pub open spec fn uri_acceptable(len: nat) -> bool {
    0 < len <= MAX_METADATA_URI_LEN
}

/// The record a submission creates.
pub open spec fn submitted_record(
    id: u32,
    subject: AccountId,
    kind: Seq<u8>,
    evidence_hash: [u8; 32],
    metadata_uri: Seq<u8>,
    now: u64,
) -> VerificationRecordView {
    VerificationRecordView {
        id,
        subject,
        kind,
        status: VerificationStatus::Pending,
        evidence_hash,
        metadata_uri,
        verifier: None,
        submitted_at: now,
        decided_at: None,
        expires_at: None,
    }
}

/// `record` once `verifier` has decided it at `now`.
pub open spec fn decided_record(
    record: VerificationRecordView,
    approved: bool,
    verifier: AccountId,
    now: u64,
    expires_at: Option<u64>,
) -> VerificationRecordView {
    VerificationRecordView {
        status: if approved {
            VerificationStatus::Verified
        } else {
            VerificationStatus::Rejected
        },
        verifier: Some(verifier),
        decided_at: Some(now),
        expires_at,
        ..record
    }
}

/// Why a decision is refused, checked in this order; `None` when accepted.
pub open spec fn decide_refusal(env: &OracleEnv, caller: AccountId, id: u32) -> Option<OracleError> {
    if env.shared.paused {
        Some(OracleError::Paused)
    } else if !auth::is_admin(&env.shared, caller) {
        Some(OracleError::NotVerifier)
    } else if !env.records().contains_key(id) {
        Some(OracleError::VerificationNotFound)
    } else if env.records()[id].status != VerificationStatus::Pending {
        Some(OracleError::AlreadyDecided)
    } else {
        None
    }
}

/// The page size actually used for a requested `limit`.
pub open spec fn capped_limit(limit: u32) -> u32 {
    if limit > MAX_PAGE_SIZE || limit == 0 {
        MAX_PAGE_SIZE
    } else {
        limit
    }
}

/// One past the last index entry of the page that starts at `cursor`.
pub open spec fn page_end(cursor: u32, limit: u32, total: u32) -> u32 {
    let sum = cursor + capped_limit(limit);
    let saturated = if sum > u32::MAX {
        u32::MAX
    } else {
        sum as u32
    };
    if saturated < total {
        saturated
    } else {
        total
    }
}

/// The records named by `ids` that are still stored, in order; ids whose
/// record is gone are skipped.
pub open spec fn present_records(records: Map<u32, VerificationRecordView>, ids: Seq<u32>) -> Seq<
    VerificationRecordView,
>
    decreases ids.len(),
{
    if ids.len() == 0 {
        Seq::empty()
    } else {
        let rest = present_records(records, ids.drop_last());
        if records.contains_key(ids.last()) {
            rest.push(records[ids.last()])
        } else {
            rest
        }
    }
}

/// The oracle contract's entry points.
pub struct OracleContract;

impl OracleContract {
    /// Initialise the contract, setting the admin address:
    /// `AlreadyInitialized` when an admin is already set.
    pub fn initialize(env: &mut OracleEnv, admin: AccountId) -> (r: Result<(), OracleError>)
        requires
            old(env).wf(),
        ensures
            final(env).wf(),
            old(env).shared.admin is Some ==> r == Err::<(), OracleError>(
                OracleError::AlreadyInitialized,
            ) && final(env).shared.admin == old(env).shared.admin,
            old(env).shared.admin is None ==> r == Ok::<(), OracleError>(()) && final(env).shared.admin
                == Some(admin),
            final(env).records() == old(env).records(),
            final(env).same_except_records(old(env)) || old(env).shared.admin is None,
            final(env).shared.paused == old(env).shared.paused,
            final(env).ledger == old(env).ledger,
            final(env).count() == old(env).count(),
            forall|s: AccountId| #[trigger] final(env).subject_ids(s) == old(env).subject_ids(s),
    {
        if env.shared.admin.is_some() {
            return Err(OracleError::AlreadyInitialized);
        }
        auth::set_admin(&mut env.shared, admin);
        assert(env.records() == old(env).records());
        assert(env.count() == old(env).count());
        assert(forall|s: AccountId| #[trigger] env.subject_ids(s) == old(env).subject_ids(s));
        Ok(())
    }

    /// Get the admin address. An admin must have been set.
    pub fn get_admin(env: &OracleEnv) -> (a: AccountId)
        requires
            env.shared.admin is Some,
        ensures
            env.shared.admin == Some(a),
    {
        auth::get_admin(&env.shared)
    }

    /// Submit a verification for `subject`. Permissionless: the record
    /// starts `Pending` and gets the next id (1-based, sequential), which is
    /// returned and appended to the subject's index. Refused with `Paused`
    /// while paused and with `InvalidEvidence` when `metadata_uri` is empty
    /// or longer than [`MAX_METADATA_URI_LEN`]. The id space must not be
    /// exhausted for a submission that would be accepted.
    pub fn submit_verification(
        env: &mut OracleEnv,
        subject: AccountId,
        kind: Symbol,
        evidence_hash: [u8; 32],
        metadata_uri: Vec<u8>,
    ) -> (r: Result<u32, OracleError>)
        requires
            old(env).wf(),
            old(env).shared.paused || !uri_acceptable(metadata_uri@.len()) || old(env).count()
                < u32::MAX,
        ensures
            final(env).wf(),
            old(env).shared.paused ==> r == Err::<u32, OracleError>(OracleError::Paused),
            !old(env).shared.paused && !uri_acceptable(metadata_uri@.len()) ==> r == Err::<
                u32,
                OracleError,
            >(OracleError::InvalidEvidence),
            r is Err ==> final(env).records() == old(env).records() && final(env).same_except_records(
                old(env),
            ),
            !old(env).shared.paused && uri_acceptable(metadata_uri@.len()) ==> {
                let id = (old(env).count() + 1) as u32;
                &&& r == Ok::<u32, OracleError>(id)
                &&& final(env).count() == id
                &&& final(env).records() == old(env).records().insert(
                    id,
                    submitted_record(
                        id,
                        subject,
                        kind@,
                        evidence_hash,
                        metadata_uri@,
                        old(env).ledger.timestamp,
                    ),
                )
                &&& final(env).subject_ids(subject) == old(env).subject_ids(subject).push(id)
                &&& forall|s: AccountId| s != subject ==> #[trigger] final(env).subject_ids(s)
                    == old(env).subject_ids(s)
                &&& final(env).shared.admin == old(env).shared.admin
                &&& final(env).shared.paused == old(env).shared.paused
                &&& final(env).ledger == old(env).ledger
            },
    {
        if is_paused(&env.shared) {
            return Err(OracleError::Paused);
        }
        if metadata_uri.len() == 0 || metadata_uri.len() > MAX_METADATA_URI_LEN as usize {
            return Err(OracleError::InvalidEvidence);
        }
        let id = next_verification_id(env);
        let now = env.ledger.timestamp;
        let record = VerificationRecord {
            id,
            subject,
            kind,
            status: VerificationStatus::Pending,
            evidence_hash,
            metadata_uri,
            verifier: None,
            submitted_at: now,
            decided_at: None,
            expires_at: None,
        };
        set_verification(env, id, &record);
        append_subject_index(env, subject, id);
        proof {
            let e = *env;
            let o = *old(env);
            assert forall|s: AccountId, i: int| 0 <= i < e.subject_ids(s).len() implies 1
                <= #[trigger] e.subject_ids(s)[i] <= e.count() && (e.records().contains_key(
                e.subject_ids(s)[i],
            ) ==> e.records()[e.subject_ids(s)[i]].subject == s) by {
                if s == subject && i == e.subject_ids(s).len() - 1 {
                } else {
                    assert(e.subject_ids(s)[i] == o.subject_ids(s)[i]);
                    assert(1 <= o.subject_ids(s)[i] <= o.count());
                }
            }
            assert forall|s: AccountId| #[trigger] e.subject_ids(s).len() <= e.count() by {
                assert(o.subject_ids(s).len() <= o.count());
            }
        }
        Ok(id)
    }

    /// Verify or reject a pending verification. Only the admin decides:
    /// `Paused` while paused, `NotVerifier` for any other caller,
    /// `VerificationNotFound` for an unknown id and `AlreadyDecided` when the
    /// record is no longer pending. An admin must have been set for a
    /// decision made while not paused.
    pub fn decide_verification(
        env: &mut OracleEnv,
        caller: AccountId,
        id: u32,
        approved: bool,
        expires_at: Option<u64>,
    ) -> (r: Result<(), OracleError>)
        requires
            old(env).wf(),
            old(env).shared.paused || old(env).shared.admin is Some,
        ensures
            final(env).wf(),
            final(env).same_except_records(old(env)),
            decide_refusal(old(env), caller, id) matches Some(e) ==> r == Err::<(), OracleError>(e)
                && final(env).records() == old(env).records(),
            decide_refusal(old(env), caller, id) is None ==> r == Ok::<(), OracleError>(())
                && final(env).records() == old(env).records().insert(
                id,
                decided_record(
                    old(env).records()[id],
                    approved,
                    caller,
                    old(env).ledger.timestamp,
                    expires_at,
                ),
            ),
    {
        if is_paused(&env.shared) {
            return Err(OracleError::Paused);
        }
        let admin = auth::get_admin(&env.shared);
        if caller != admin {
            return Err(OracleError::NotVerifier);
        }
        let mut record = match get_verification_no_bump(env, id) {
            Some(record) => record,
            None => {
                return Err(OracleError::VerificationNotFound);
            },
        };
        if record.status != VerificationStatus::Pending {
            return Err(OracleError::AlreadyDecided);
        }
        let decided_at = env.ledger.timestamp;
        record.status = if approved {
            VerificationStatus::Verified
        } else {
            VerificationStatus::Rejected
        };
        record.verifier = Some(caller);
        record.decided_at = Some(decided_at);
        record.expires_at = expires_at;
        set_verification(env, id, &record);
        proof {
            let e = *env;
            let o = *old(env);
            assert forall|s: AccountId, i: int| 0 <= i < e.subject_ids(s).len() implies 1
                <= #[trigger] e.subject_ids(s)[i] <= e.count() && (e.records().contains_key(
                e.subject_ids(s)[i],
            ) ==> e.records()[e.subject_ids(s)[i]].subject == s) by {
                assert(1 <= o.subject_ids(s)[i] <= o.count());
            }
            assert forall|s: AccountId| #[trigger] e.subject_ids(s).len() <= e.count() by {
                assert(o.subject_ids(s).len() <= o.count());
            }
        }
        Ok(())
    }

    /// Get a verification record by id, or `None` when unknown.
    pub fn get_verification(env: &OracleEnv, id: u32) -> (r: Option<VerificationRecord>)
        ensures
            r is Some <==> env.records().contains_key(id),
            r matches Some(rec) ==> rec@ == env.records()[id],
    {
        get_verification_no_bump(env, id)
    }

    /// List verifications for `subject` with cursor pagination. `cursor` is
    /// the number of index entries already returned (0 to start); `limit` is
    /// capped at [`MAX_PAGE_SIZE`], and 0 asks for a full page. Only records
    /// that are still stored are returned: the index is append-only, and an
    /// entry whose record is gone is skipped. A cursor past the end of the
    /// subject's index is refused with `InvalidEvidence`.
    pub fn list_verifications_by_subject(
        env: &OracleEnv,
        subject: AccountId,
        cursor: u32,
        limit: u32,
    ) -> (r: Result<VerificationPage, OracleError>)
        requires
            env.wf(),
        ensures
            cursor > env.subject_ids(subject).len() ==> (r matches Err(e) && e
                == OracleError::InvalidEvidence),
            cursor <= env.subject_ids(subject).len() ==> (r matches Ok(page) && {
                let ids = env.subject_ids(subject);
                let end = page_end(cursor, limit, ids.len() as u32);
                &&& page.total == ids.len()
                &&& record_views(page.records@) == present_records(
                    env.records(),
                    ids.subrange(cursor as int, end as int),
                )
            }),
    {
        let ids = get_subject_index(env, subject);
        proof {
            assert(env.subject_ids(subject).len() <= env.count());
        }
        let total = ids.len() as u32;
        if cursor > total {
            return Err(OracleError::InvalidEvidence);
        }
        let capped = if limit > MAX_PAGE_SIZE || limit == 0 {
            MAX_PAGE_SIZE
        } else {
            limit
        };
        let sum = cursor.saturating_add(capped);
        let end = if sum < total {
            sum
        } else {
            total
        };
        let mut records: Vec<VerificationRecord> = Vec::new();
        let mut i = cursor;
        while i < end
            invariant
                env.wf(),
                ids@ == env.subject_ids(subject),
                cursor <= i <= end,
                end <= total,
                total == ids@.len(),
                record_views(records@) == present_records(
                    env.records(),
                    ids@.subrange(cursor as int, i as int),
                ),
            decreases end - i,
        {
            let id = ids[i as usize];
            let ghost prev = records@;
            let ghost sub = ids@.subrange(cursor as int, i as int);
            let ghost sub1 = ids@.subrange(cursor as int, i + 1);
            assert(sub1.drop_last() =~= sub);
            assert(sub1.last() == id);
            match get_verification_no_bump(env, id) {
                Some(record) => {
                    records.push(record);
                    assert(record_views(records@) =~= record_views(prev).push(env.records()[id]));
                },
                None => {},
            }
            i = i + 1;
        }
        Ok(VerificationPage { records, total })
    }

    /// Total number of verifications ever submitted.
    pub fn verification_count(env: &OracleEnv) -> (c: u32)
        ensures
            c == env.count(),
    {
        get_verification_counter(env)
    }
}

/// A page holds at most [`MAX_PAGE_SIZE`] records, exactly the index
/// entries from the cursor on, so consecutive pages neither skip nor repeat
/// an entry and a page is empty only at the end of the index.
pub proof fn lemma_page_bounds(cursor: u32, limit: u32, total: u32)
    requires
        cursor <= total,
    ensures
        cursor <= page_end(cursor, limit, total) <= total,
        page_end(cursor, limit, total) - cursor <= MAX_PAGE_SIZE,
        cursor < total ==> page_end(cursor, limit, total) > cursor,
        limit == 0 || limit >= MAX_PAGE_SIZE ==> page_end(cursor, limit, total) == (if cursor
            + MAX_PAGE_SIZE <= total {
            cursor + MAX_PAGE_SIZE
        } else {
            total as int
        }),
{
}

/// Every record `present_records` returns for ids of which each stored one
/// belongs to `subject` belongs to `subject`.
proof fn lemma_present_records_of_subject(
    records: Map<u32, VerificationRecordView>,
    ids: Seq<u32>,
    subject: AccountId,
)
    requires
        forall|i: int| 0 <= i < ids.len() && records.contains_key(#[trigger] ids[i]) ==> records[ids[i]].subject
            == subject,
    ensures
        forall|k: int| 0 <= k < present_records(records, ids).len() ==> (#[trigger] present_records(
            records,
            ids,
        )[k]).subject == subject,
    decreases ids.len(),
{
    if ids.len() > 0 {
        let rest = ids.drop_last();
        assert forall|i: int| 0 <= i < rest.len() && records.contains_key(#[trigger] rest[i]) implies records[rest[i]].subject
            == subject by {
            assert(rest[i] == ids[i]);
        }
        lemma_present_records_of_subject(records, rest, subject);
        assert(ids.last() == ids[ids.len() - 1]);
    }
}

/// A listing only ever returns records of the subject it was asked for:
/// every record on any page of `subject`'s index has `subject` as its
/// subject.
pub proof fn lemma_listing_holds_only_the_subject(env: &OracleEnv, subject: AccountId, start: int, end: int)
    requires
        env.wf(),
        0 <= start <= end <= env.subject_ids(subject).len(),
    ensures
        forall|k: int|
            0 <= k < present_records(env.records(), env.subject_ids(subject).subrange(start, end)).len()
                ==> (#[trigger] present_records(
                env.records(),
                env.subject_ids(subject).subrange(start, end),
            )[k]).subject == subject,
{
    let ids = env.subject_ids(subject).subrange(start, end);
    assert forall|i: int| 0 <= i < ids.len() && env.records().contains_key(#[trigger] ids[i]) implies env.records()[ids[i]].subject
        == subject by {
        assert(ids[i] == env.subject_ids(subject)[start + i]);
    }
    lemma_present_records_of_subject(env.records(), ids, subject);
}

/// `present_records` never returns more records than it is given ids.
proof fn lemma_present_records_len(records: Map<u32, VerificationRecordView>, ids: Seq<u32>)
    ensures
        present_records(records, ids).len() <= ids.len(),
    decreases ids.len(),
{
    if ids.len() > 0 {
        lemma_present_records_len(records, ids.drop_last());
    }
}

/// A page honours the limit asked for: for a limit of 1 to
/// [`MAX_PAGE_SIZE`] it covers exactly the index entries from the cursor to
/// the cursor plus the limit (or the end of the index), so it holds at most
/// `limit` records; a limit of 0 or above the cap covers
/// [`MAX_PAGE_SIZE`] entries.
pub proof fn lemma_page_respects_limit(env: &OracleEnv, subject: AccountId, cursor: u32, limit: u32)
    requires
        cursor <= env.subject_ids(subject).len() <= u32::MAX,
    ensures
        ({
            let total = env.subject_ids(subject).len();
            let end = page_end(cursor, limit, total as u32);
            &&& 0 < limit <= 50 ==> end == (if cursor + limit <= total {
                cursor + limit
            } else {
                total as int
            })
            &&& (limit == 0 || limit > 50) ==> end == (if cursor + 50 <= total {
                cursor + 50
            } else {
                total as int
            })
            &&& 0 < limit <= 50 ==> present_records(
                env.records(),
                env.subject_ids(subject).subrange(cursor as int, end as int),
            ).len() <= limit
        }),
{
    let total = env.subject_ids(subject).len();
    let end = page_end(cursor, limit, total as u32);
    lemma_page_bounds(cursor, limit, total as u32);
    lemma_present_records_len(env.records(), env.subject_ids(subject).subrange(cursor as int, end as int));
}

/// A decision is final: once a stored record is no longer pending (it was
/// verified or rejected), every later decision on it, even by the admin
/// while not paused, is refused with `AlreadyDecided` (and so changes
/// nothing); in particular a record just decided cannot be decided again.
pub proof fn lemma_decision_is_final(
    env: &OracleEnv,
    admin: AccountId,
    id: u32,
    approved: bool,
    now: u64,
    expires_at: Option<u64>,
)
    requires
        env.shared.admin == Some(admin),
        !env.shared.paused,
        env.records().contains_key(id),
    ensures
        env.records()[id].status != VerificationStatus::Pending ==> decide_refusal(env, admin, id)
            == Some(OracleError::AlreadyDecided),
        env.records()[id].status == VerificationStatus::Pending ==> decide_refusal(env, admin, id)
            is None,
        decided_record(env.records()[id], approved, admin, now, expires_at).status
            != VerificationStatus::Pending,
        approved ==> decided_record(env.records()[id], approved, admin, now, expires_at).status
            == VerificationStatus::Verified,
        !approved ==> decided_record(env.records()[id], approved, admin, now, expires_at).status
            == VerificationStatus::Rejected,
{
}

} // verus!
