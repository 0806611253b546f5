//! Escrowed aid: a donor locks tokens for a recipient, who can claim them
//! until an expiry ledger; afterwards anyone can send them back to the donor.
use vstd::prelude::*;

pub mod errors;
pub mod storage;
pub mod types;

use crate::aid::errors::AidError;
use crate::aid::storage::AidEnv;
use crate::aid::types::{AidRecord, AidStatus};
use crate::shared::address::{AccountId, Party, TokenTransfer};
use crate::shared::auth;
use crate::shared::errors::Error;

verus! {

/// The aid contract's entry points.
pub struct AidContract;

/// Why a claim of `aid_id` by `claimant` is refused, checked in this order;
/// `None` when it is accepted.
pub open spec fn claim_refusal(env: &AidEnv, aid_id: u64, claimant: AccountId) -> Option<AidError> {
    if env.paused {
        Some(AidError::Paused)
    } else if !env.records@.contains_key(aid_id) {
        Some(AidError::NotFound)
    } else if env.records@[aid_id].status != AidStatus::Pending {
        Some(AidError::AlreadyClaimed)
    } else if env.ledger.sequence > env.records@[aid_id].expiry_ledger {
        Some(AidError::Expired)
    } else if env.records@[aid_id].recipient != claimant {
        Some(AidError::Unauthorized)
    } else {
        None
    }
}

/// Why a refund of `aid_id` is refused, checked in this order; `None` when it
/// is accepted.
pub open spec fn refund_refusal(env: &AidEnv, aid_id: u64) -> Option<AidError> {
    if !env.records@.contains_key(aid_id) {
        Some(AidError::NotFound)
    } else if env.records@[aid_id].status == AidStatus::Settled {
        Some(AidError::AlreadyClaimed)
    } else if env.records@[aid_id].status == AidStatus::Refunded {
        Some(AidError::AlreadyRefunded)
    } else if env.ledger.sequence <= env.records@[aid_id].expiry_ledger {
        Some(AidError::NotExpiredYet)
    } else {
        None
    }
}

/// `record` with its status replaced.
pub open spec fn with_status(record: AidRecord, status: AidStatus) -> AidRecord {
    AidRecord { status, ..record }
}

/// The transfer that pays `record` out of escrow to `to`.
pub open spec fn payout(record: AidRecord, to: AccountId) -> TokenTransfer {
    TokenTransfer { token: record.token, from: Party::Contract, to: Party::Account(to), amount: record.amount }
}

impl AidContract {
    /// Initialise the contract, setting the admin address. A second
    /// initialisation is refused with `AlreadyInitialized` and leaves the
    /// admin as it was.
    pub fn initialize(env: &mut AidEnv, admin: AccountId) -> (r: Result<(), Error>)
        ensures
            old(env).shared.admin is Some ==> r == Err::<(), Error>(Error::AlreadyInitialized)
                && final(env).shared.admin == old(env).shared.admin,
            old(env).shared.admin is None ==> r == Ok::<(), Error>(()) && final(env).shared.admin == Some(
                admin,
            ),
            final(env).records@ == old(env).records@,
            final(env).paused == old(env).paused,
            final(env).ledger == old(env).ledger,
            final(env).shared.paused == old(env).shared.paused,
            auth::same_roles(&final(env).shared, &old(env).shared),
    {
        if env.shared.admin.is_some() {
            return Err(Error::AlreadyInitialized);
        }
        auth::set_admin(&mut env.shared, admin);
        Ok(())
    }

    /// Admin-only: pause/unpause claims. Existing records are unaffected;
    /// only `claim_aid` is gated on this flag. An admin must have been set.
    pub fn set_paused(env: &mut AidEnv, admin: AccountId, paused: bool) -> (r: Result<(), AidError>)
        requires
            old(env).shared.admin is Some,
        ensures
            auth::is_admin(&old(env).shared, admin) ==> {
                &&& r == Ok::<(), AidError>(())
                &&& final(env).paused == paused
            },
            !auth::is_admin(&old(env).shared, admin) ==> {
                &&& r == Err::<(), AidError>(AidError::Unauthorized)
                &&& final(env).paused == old(env).paused
            },
            final(env).records@ == old(env).records@,
            final(env).shared.admin == old(env).shared.admin,
            final(env).shared.paused == old(env).shared.paused,
            auth::same_roles(&final(env).shared, &old(env).shared),
            final(env).ledger == old(env).ledger,
    {
        match auth::require_admin(&env.shared, admin) {
            Ok(()) => {},
            Err(_) => {
                return Err(AidError::Unauthorized);
            },
        }
        storage::set_paused(env, paused);
        Ok(())
    }

    /// Create an escrowed aid record. On success the host pulls `amount` of
    /// `token` from `donor` into the contract's balance (the returned
    /// transfer). An id that is already used is refused with
    /// `AlreadyClaimed`, so no record's history is ever overwritten.
    pub fn create_aid(
        env: &mut AidEnv,
        aid_id: u64,
        donor: AccountId,
        recipient: AccountId,
        token: AccountId,
        amount: i128,
        expiry_ledger: u32,
    ) -> (r: Result<TokenTransfer, AidError>)
        ensures
            old(env).records@.contains_key(aid_id) ==> {
                &&& r == Err::<TokenTransfer, AidError>(AidError::AlreadyClaimed)
                &&& final(env).records@ == old(env).records@
            },
            !old(env).records@.contains_key(aid_id) ==> {
                &&& r == Ok::<TokenTransfer, AidError>(
                    TokenTransfer { token, from: Party::Account(donor), to: Party::Contract, amount },
                )
                &&& final(env).records@ == old(env).records@.insert(
                    aid_id,
                    AidRecord {
                        id: aid_id,
                        donor,
                        recipient,
                        token,
                        amount,
                        expiry_ledger,
                        status: AidStatus::Pending,
                    },
                )
            },
            final(env).same_config(old(env)),
    {
        if storage::has_aid(env, aid_id) {
            return Err(AidError::AlreadyClaimed);
        }
        let record = AidRecord {
            id: aid_id,
            donor,
            recipient,
            token,
            amount,
            expiry_ledger,
            status: AidStatus::Pending,
        };
        storage::set_aid(env, aid_id, &record);
        Ok(TokenTransfer { token, from: Party::Account(donor), to: Party::Contract, amount })
    }

    /// Claim an aid record: the caller must be the designated recipient, the
    /// record must still be pending and unexpired, and claims must not be
    /// paused. The record is marked `Settled` and the escrowed amount is
    /// paid to the claimant (the returned transfer).
    pub fn claim_aid(env: &mut AidEnv, aid_id: u64, claimant: AccountId) -> (r: Result<
        TokenTransfer,
        AidError,
    >)
        ensures
            claim_refusal(old(env), aid_id, claimant) matches Some(e) ==> {
                &&& r == Err::<TokenTransfer, AidError>(e)
                &&& final(env).records@ == old(env).records@
            },
            claim_refusal(old(env), aid_id, claimant) is None ==> {
                let record = old(env).records@[aid_id];
                &&& r == Ok::<TokenTransfer, AidError>(payout(record, claimant))
                &&& final(env).records@ == old(env).records@.insert(
                    aid_id,
                    with_status(record, AidStatus::Settled),
                )
            },
            final(env).same_config(old(env)),
    {
        if storage::is_paused(env) {
            return Err(AidError::Paused);
        }
        let mut record = match storage::get_aid(env, aid_id) {
            Some(record) => record,
            None => {
                return Err(AidError::NotFound);
            },
        };
        if record.status != AidStatus::Pending {
            return Err(AidError::AlreadyClaimed);
        }
        if env.ledger.sequence > record.expiry_ledger {
            return Err(AidError::Expired);
        }
        if record.recipient != claimant {
            return Err(AidError::Unauthorized);
        }
        record.status = AidStatus::Settled;
        storage::set_aid(env, aid_id, &record);
        Ok(TokenTransfer {
            token: record.token,
            from: Party::Contract,
            to: Party::Account(claimant),
            amount: record.amount,
        })
    }

    /// Claiming is settlement in this design (a single atomic step), so this
    /// is `claim_aid`.
    pub fn settle_aid(env: &mut AidEnv, aid_id: u64, claimant: AccountId) -> (r: Result<
        TokenTransfer,
        AidError,
    >)
        ensures
            claim_refusal(old(env), aid_id, claimant) matches Some(e) ==> {
                &&& r == Err::<TokenTransfer, AidError>(e)
                &&& final(env).records@ == old(env).records@
            },
            claim_refusal(old(env), aid_id, claimant) is None ==> {
                let record = old(env).records@[aid_id];
                &&& r == Ok::<TokenTransfer, AidError>(payout(record, claimant))
                &&& final(env).records@ == old(env).records@.insert(
                    aid_id,
                    with_status(record, AidStatus::Settled),
                )
            },
            final(env).same_config(old(env)),
    {
        Self::claim_aid(env, aid_id, claimant)
    }

    /// After expiry, anyone may refund an unclaimed record to its donor: the
    /// record is marked `Refunded` and the escrowed amount is paid back (the
    /// returned transfer).
    pub fn refund_expired(env: &mut AidEnv, aid_id: u64) -> (r: Result<TokenTransfer, AidError>)
        ensures
            refund_refusal(old(env), aid_id) matches Some(e) ==> {
                &&& r == Err::<TokenTransfer, AidError>(e)
                &&& final(env).records@ == old(env).records@
            },
            refund_refusal(old(env), aid_id) is None ==> {
                let record = old(env).records@[aid_id];
                &&& r == Ok::<TokenTransfer, AidError>(payout(record, record.donor))
                &&& final(env).records@ == old(env).records@.insert(
                    aid_id,
                    with_status(record, AidStatus::Refunded),
                )
            },
            final(env).same_config(old(env)),
    {
        let mut record = match storage::get_aid(env, aid_id) {
            Some(record) => record,
            None => {
                return Err(AidError::NotFound);
            },
        };
        match record.status {
            AidStatus::Settled => {
                return Err(AidError::AlreadyClaimed);
            },
            AidStatus::Refunded => {
                return Err(AidError::AlreadyRefunded);
            },
            AidStatus::Pending => {},
        }
        if env.ledger.sequence <= record.expiry_ledger {
            return Err(AidError::NotExpiredYet);
        }
        record.status = AidStatus::Refunded;
        storage::set_aid(env, aid_id, &record);
        Ok(TokenTransfer {
            token: record.token,
            from: Party::Contract,
            to: Party::Account(record.donor),
            amount: record.amount,
        })
    }

    /// Read-only lookup of a record.
    pub fn get_aid(env: &AidEnv, aid_id: u64) -> (r: Option<AidRecord>)
        ensures
            r == env.records@.get(aid_id),
    {
        storage::get_aid(env, aid_id)
    }
}

/// Once a record has left `Pending` it can be neither claimed nor refunded:
/// each escrow is paid out at most once.
pub proof fn lemma_settled_or_refunded_is_final(env: &AidEnv, aid_id: u64, claimant: AccountId)
    requires
        env.records@.contains_key(aid_id),
        env.records@[aid_id].status != AidStatus::Pending,
    ensures
        claim_refusal(env, aid_id, claimant) is Some,
        refund_refusal(env, aid_id) is Some,
{
}

/// On any one ledger a pending record can be claimed or refunded, never both:
/// claims close when refunds open.
pub proof fn lemma_claim_and_refund_exclusive(env: &AidEnv, aid_id: u64, claimant: AccountId)
    ensures
        !(claim_refusal(env, aid_id, claimant) is None && refund_refusal(env, aid_id) is None),
{
}

/// Once the expiry ledger has passed, an unclaimed pending record can always
/// be refunded, whatever the pause flag: escrowed funds are never stuck.
pub proof fn lemma_expired_pending_is_refundable(env: &AidEnv, aid_id: u64)
    requires
        env.records@.contains_key(aid_id),
        env.records@[aid_id].status == AidStatus::Pending,
        env.ledger.sequence > env.records@[aid_id].expiry_ledger,
    ensures
        refund_refusal(env, aid_id) is None,
{
}

} // verus!
