use vstd::prelude::*;

verus! {

/// Errors of the aid contract (codes 100-199, the aid contract's range).
#[derive(Clone, Copy, Debug, PartialEq, Eq, Structural, PartialOrd, Ord)]
pub enum AidError {
    NotFound,
    AlreadyClaimed,
    Expired,
    Paused,
    Unauthorized,
    NotExpiredYet,
    AlreadyRefunded,
}

impl AidError {
    /// The published numeric code of each variant.
    pub open spec fn spec_code(self) -> u32 {
        match self {
            AidError::NotFound => 100,
            AidError::AlreadyClaimed => 101,
            AidError::Expired => 102,
            AidError::Paused => 103,
            AidError::Unauthorized => 104,
            AidError::NotExpiredYet => 105,
            AidError::AlreadyRefunded => 106,
        }
    }

    /// Returns the stable numeric code of this error.
    #[verifier::when_used_as_spec(spec_code)]
    pub fn code(self) -> (c: u32)
        ensures
            c == self.spec_code(),
    {
        match self {
            AidError::NotFound => 100,
            AidError::AlreadyClaimed => 101,
            AidError::Expired => 102,
            AidError::Paused => 103,
            AidError::Unauthorized => 104,
            AidError::NotExpiredYet => 105,
            AidError::AlreadyRefunded => 106,
        }
    }
}

/// No two aid error variants carry the same numeric code, and every code
/// lies in the aid contract's range 100-199.
pub proof fn lemma_aid_error_codes_unique_in_range(a: AidError, b: AidError)
    ensures
        a.spec_code() == b.spec_code() ==> a == b,
        100 <= a.spec_code() < 200,
{
}

} // verus!
