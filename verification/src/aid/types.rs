use vstd::prelude::*;

use crate::shared::address::AccountId;

verus! {

/// Lifecycle state of an aid record.
#[derive(Clone, Copy, Debug, PartialEq, Eq, Structural)]
pub enum AidStatus {
    /// Escrowed, waiting for a valid claim.
    Pending,
    /// Claimed by the recipient; funds transferred out.
    Settled,
    /// Expired and refunded back to the donor (never claimed).
    Refunded,
}

/// A single aid disbursement record, escrowed inside the contract until
/// claimed by the recipient (or refunded to the donor after expiry).
#[derive(Clone, Copy, Debug, PartialEq, Eq, Structural)]
pub struct AidRecord {
    pub id: u64,
    pub donor: AccountId,
    pub recipient: AccountId,
    pub token: AccountId,
    pub amount: i128,
    /// Ledger sequence after which the aid can no longer be claimed.
    pub expiry_ledger: u32,
    pub status: AidStatus,
}

} // verus!
