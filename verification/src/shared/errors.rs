use vstd::prelude::*;

verus! {

/// Stable error codes shared by every contract in the workspace.
///
/// Codes from 900 to 999 are reserved for errors whose meaning is shared
/// consistently across multiple contract modules; the errors only the
/// treasury contract returns take codes in its range 200-299. `code` gives
/// each variant its published number.
#[derive(Clone, Copy, Debug, PartialEq, Eq, Structural, PartialOrd, Ord)]
pub enum Error {
    /// The caller is not authorized to perform the requested operation.
    NotAuthorized,
    /// The contract or component has already been initialized.
    AlreadyInitialized,
    /// The contract or component has not been initialized.
    NotInitialized,
    /// The supplied amount is invalid.
    InvalidAmount,
    /// The requested operation or resource has expired.
    Expired,
    /// The requested resource or entitlement has already been claimed.
    AlreadyClaimed,
    /// The operation is unavailable while the contract is paused.
    Paused,
    /// An arithmetic operation exceeded the supported numeric range.
    Overflow,
    /// One or more supplied values are invalid.
    InvalidInput,
    /// The requested resource could not be found.
    NotFound,
    /// The caller does not hold the admin address or the role an entry point requires.
    Unauthorized,
    /// An argument lies outside the range an entry point accepts.
    InvalidArgument,
    /// A balance is smaller than the amount requested from it.
    InsufficientBalance,
    /// A withdrawal exceeds the configured per-transaction limit.
    WithdrawalLimitExceeded,
    /// An emergency path was used while the contract is not paused.
    NotPaused,
}

impl Error {
    /// The published numeric code of each variant.
    pub open spec fn spec_code(self) -> u32 {
        match self {
            Error::NotAuthorized => 900,
            Error::AlreadyInitialized => 901,
            Error::NotInitialized => 902,
            Error::InvalidAmount => 903,
            Error::Expired => 904,
            Error::AlreadyClaimed => 905,
            Error::Paused => 906,
            Error::Overflow => 907,
            Error::InvalidInput => 908,
            Error::NotFound => 909,
            Error::Unauthorized => 910,
            Error::InvalidArgument => 911,
            Error::InsufficientBalance => 200,
            Error::WithdrawalLimitExceeded => 201,
            Error::NotPaused => 202,
        }
    }

    /// Returns the stable numeric code of this error.
    #[verifier::when_used_as_spec(spec_code)]
    pub fn code(self) -> (c: u32)
        ensures
            c == self.spec_code(),
    {
        match self {
            Error::NotAuthorized => 900,
            Error::AlreadyInitialized => 901,
            Error::NotInitialized => 902,
            Error::InvalidAmount => 903,
            Error::Expired => 904,
            Error::AlreadyClaimed => 905,
            Error::Paused => 906,
            Error::Overflow => 907,
            Error::InvalidInput => 908,
            Error::NotFound => 909,
            Error::Unauthorized => 910,
            Error::InvalidArgument => 911,
            Error::InsufficientBalance => 200,
            Error::WithdrawalLimitExceeded => 201,
            Error::NotPaused => 202,
        }
    }
}

/// No two shared error variants carry the same numeric code.
pub proof fn lemma_error_codes_unique(a: Error, b: Error)
    ensures
        a.spec_code() == b.spec_code() ==> a == b,
{
}

/// Whether only the treasury contract returns `e`.
pub open spec fn treasury_only(e: Error) -> bool {
    e == Error::InsufficientBalance || e == Error::WithdrawalLimitExceeded || e == Error::NotPaused
}

/// Every error shared by several contracts has its code in the range 900-999
/// reserved for them; the treasury's own errors have theirs in 200-299.
pub proof fn lemma_error_codes_in_shared_range(e: Error)
    ensures
        !treasury_only(e) ==> 900 <= e.spec_code() < 1000,
        treasury_only(e) ==> 200 <= e.spec_code() < 300,
{
}

} // verus!
