use vstd::prelude::*;

verus! {

/// What a contract reads of the ledger it runs on.
#[derive(Clone, Copy, Debug, PartialEq, Eq, Structural)]
pub struct Ledger {
    /// The close time of the current ledger, in seconds.
    pub timestamp: u64,
    /// The sequence number of the current ledger.
    pub sequence: u32,
}

/// Returns the current ledger timestamp.
pub fn now(ledger: &Ledger) -> (t: u64)
    ensures
        t == ledger.timestamp,
{
    ledger.timestamp
}

/// Returns `true` if the given timestamp is in the past.
pub fn is_expired(ledger: &Ledger, expires_at: u64) -> (r: bool)
    ensures
        r == (ledger.timestamp > expires_at),
{
    now(ledger) > expires_at
}

} // verus!
