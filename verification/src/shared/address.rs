use vstd::prelude::*;

verus! {

/// Identifies an account or a contract on the ledger. The host maps each
/// on-chain address to one identifier; the contracts only ever compare them.
pub type AccountId = u64;

/// One side of a token movement: an outside account, or the contract's own
/// balance (its escrow).
#[derive(Clone, Copy, Debug, PartialEq, Eq, Structural)]
pub enum Party {
    /// The contract executing the call.
    Contract,
    /// Any other account.
    Account(AccountId),
}

/// A token transfer that the host must carry out once a call has succeeded.
#[derive(Clone, Copy, Debug, PartialEq, Eq, Structural)]
pub struct TokenTransfer {
    /// The token contract whose balance moves.
    pub token: AccountId,
    /// The party that pays.
    pub from: Party,
    /// The party that is paid.
    pub to: Party,
    /// The amount that moves.
    pub amount: i128,
}

} // verus!
