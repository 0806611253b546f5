use alian_contracts::aid::errors::AidError;
use alian_contracts::oracle::OracleError;
use alian_contracts::shared::errors::Error;

const ALL_ERRORS: [Error; 10] = [
    Error::NotAuthorized,
    Error::AlreadyInitialized,
    Error::NotInitialized,
    Error::InvalidAmount,
    Error::Expired,
    Error::AlreadyClaimed,
    Error::Paused,
    Error::Overflow,
    Error::InvalidInput,
    Error::NotFound,
];

#[test]
fn every_error_variant_has_a_unique_u32_code() {
    for (index, error) in ALL_ERRORS.iter().enumerate() {
        let code = error.code();

        for other in ALL_ERRORS.iter().skip(index + 1) {
            assert_ne!(
                code,
                other.code(),
                "shared error variants must not reuse numeric code {code}"
            );
        }
    }
}

#[test]
fn shared_error_codes_are_stable() {
    let expected = [
        (Error::NotAuthorized, 900),
        (Error::AlreadyInitialized, 901),
        (Error::NotInitialized, 902),
        (Error::InvalidAmount, 903),
        (Error::Expired, 904),
        (Error::AlreadyClaimed, 905),
        (Error::Paused, 906),
        (Error::Overflow, 907),
        (Error::InvalidInput, 908),
        (Error::NotFound, 909),
    ];

    for (error, expected_code) in expected {
        assert_eq!(error.code(), expected_code);
    }
}

#[test]
fn contract_specific_errors_have_unique_codes_in_their_ranges() {
    let shared = [
        Error::NotAuthorized,
        Error::AlreadyInitialized,
        Error::NotInitialized,
        Error::InvalidAmount,
        Error::Expired,
        Error::AlreadyClaimed,
        Error::Paused,
        Error::Overflow,
        Error::InvalidInput,
        Error::NotFound,
        Error::Unauthorized,
        Error::InvalidArgument,
    ];
    let treasury = [Error::InsufficientBalance, Error::WithdrawalLimitExceeded, Error::NotPaused];
    for e in &shared {
        assert!((900..1000).contains(&e.code()));
    }
    for e in &treasury {
        assert!((200..300).contains(&e.code()));
    }
    assert_eq!(Error::Unauthorized.code(), 910);
    assert_eq!(Error::InvalidArgument.code(), 911);
    assert_eq!(Error::InsufficientBalance.code(), 200);
    assert_eq!(Error::WithdrawalLimitExceeded.code(), 201);
    assert_eq!(Error::NotPaused.code(), 202);
    let mut codes: Vec<u32> = shared.iter().chain(treasury.iter()).map(|e| e.code()).collect();
    codes.sort_unstable();
    codes.dedup();
    assert_eq!(codes.len(), shared.len() + treasury.len());
}

#[test]
fn error_codes_are_unique_and_within_oracle_range() {
    let codes: Vec<u32> = Vec::from([
        OracleError::VerificationNotFound.code(),
        OracleError::AlreadyDecided.code(),
        OracleError::NotVerifier.code(),
        OracleError::InvalidEvidence.code(),
        OracleError::Expired.code(),
        OracleError::Revoked.code(),
        OracleError::AlreadyInitialized.code(),
        OracleError::Paused.code(),
    ]);

    for code in &codes {
        assert!(
            (500..600).contains(code),
            "code {} outside the oracle range 500-599",
            code
        );
    }

    let mut sorted = codes.clone();
    sorted.sort_unstable();
    sorted.dedup();
    assert_eq!(sorted.len(), codes.len(), "duplicate error codes detected");
}

#[test]
fn aid_error_codes_are_stable() {
    let expected = [
        (AidError::NotFound, 100),
        (AidError::AlreadyClaimed, 101),
        (AidError::Expired, 102),
        (AidError::Paused, 103),
        (AidError::Unauthorized, 104),
        (AidError::NotExpiredYet, 105),
        (AidError::AlreadyRefunded, 106),
    ];
    for (error, code) in expected {
        assert_eq!(error.code(), code);
        assert!((100..200).contains(&error.code()));
    }
}
