//! Oracle-contract types.
//!
//! A [`VerificationRecord`] carries no personal data: evidence is referenced
//! by its SHA-256 `evidence_hash`, and off-chain systems resolve
//! `metadata_uri` (an IPFS/HTTPS pointer).
use vstd::prelude::*;

use crate::shared::address::AccountId;
use crate::shared::symbol::{copy_bytes, Symbol};

verus! {

/// Status of a verification record.
#[derive(Clone, Copy, Debug, PartialEq, Eq, Structural)]
pub enum VerificationStatus {
    /// Submitted, awaiting a verifier decision.
    Pending,
    /// Approved by a verifier.
    Verified,
    /// Rejected by a verifier.
    Rejected,
    /// Was `Verified` and later revoked.
    Revoked,
}

/// Maximum accepted length of `metadata_uri` in bytes.
pub const MAX_METADATA_URI_LEN: u32 = 256;

/// A single verification record.
#[derive(Debug)]
pub struct VerificationRecord {
    /// Unique record identifier (1-based, sequential).
    pub id: u32,
    /// Verified wallet/recipient address.
    pub subject: AccountId,
    /// Verification kind, e.g. `"identity"`, `"need"`.
    pub kind: Symbol,
    /// Current lifecycle status.
    pub status: VerificationStatus,
    /// SHA-256 of the off-chain evidence bundle.
    pub evidence_hash: [u8; 32],
    /// IPFS/HTTPS pointer to the evidence bundle (no PII).
    pub metadata_uri: Vec<u8>,
    /// Verifier that decided the record; `None` while `Pending`.
    pub verifier: Option<AccountId>,
    /// Ledger timestamp of submission.
    pub submitted_at: u64,
    /// Ledger timestamp of the decision; `None` while `Pending`.
    pub decided_at: Option<u64>,
    /// Optional expiry timestamp; enforced by consumers.
    pub expires_at: Option<u64>,
}

/// The mathematical value of a [`VerificationRecord`].
pub struct VerificationRecordView {
    pub id: u32,
    pub subject: AccountId,
    pub kind: Seq<u8>,
    pub status: VerificationStatus,
    pub evidence_hash: [u8; 32],
    pub metadata_uri: Seq<u8>,
    pub verifier: Option<AccountId>,
    pub submitted_at: u64,
    pub decided_at: Option<u64>,
    pub expires_at: Option<u64>,
}

impl View for VerificationRecord {
    type V = VerificationRecordView;

    open spec fn view(&self) -> VerificationRecordView {
        VerificationRecordView {
            id: self.id,
            subject: self.subject,
            kind: self.kind@,
            status: self.status,
            evidence_hash: self.evidence_hash,
            metadata_uri: self.metadata_uri@,
            verifier: self.verifier,
            submitted_at: self.submitted_at,
            decided_at: self.decided_at,
            expires_at: self.expires_at,
        }
    }
}

impl VerificationRecord {
    /// A copy of this record.
    pub fn duplicate(&self) -> (r: VerificationRecord)
        ensures
            r@ == self@,
    {
        VerificationRecord {
            id: self.id,
            subject: self.subject,
            kind: self.kind.duplicate(),
            status: self.status,
            evidence_hash: self.evidence_hash,
            metadata_uri: copy_bytes(&self.metadata_uri),
            verifier: self.verifier,
            submitted_at: self.submitted_at,
            decided_at: self.decided_at,
            expires_at: self.expires_at,
        }
    }
}

/// The views of a sequence of records.
pub open spec fn record_views(records: Seq<VerificationRecord>) -> Seq<VerificationRecordView> {
    records.map_values(|r: VerificationRecord| r@)
}

/// One page of cursor-paginated verification results.
#[derive(Debug)]
pub struct VerificationPage {
    /// Records on this page (length at most `MAX_PAGE_SIZE`).
    pub records: Vec<VerificationRecord>,
    /// Total number of records in the subject's index.
    pub total: u32,
}

} // verus!
