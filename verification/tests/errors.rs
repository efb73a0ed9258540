use rex_axum_sdk::error::{JwtError, STATUS_INTERNAL_ERROR, STATUS_UNAUTHORIZED};

#[test]
fn test_jwt_error_display() {
    let errors = vec![
        (JwtError::MissingToken, "Missing authorization token"),
        (JwtError::InvalidToken, "Invalid token"),
        (JwtError::NoValidKeyError, "No valid public key found"),
    ];

    for (error, expected_message) in errors {
        assert_eq!(error.message(), expected_message);
    }
}

#[test]
fn test_jwt_error_response_status() {
    // A token that no key accepts is a failure of the credential, so it is
    // answered as unauthorized, like the other two.
    let test_cases = vec![
        (JwtError::MissingToken, 401),
        (JwtError::InvalidToken, 401),
        (JwtError::NoValidKeyError, 401),
    ];

    for (error, expected_status) in test_cases {
        assert_eq!(error.status_code(), expected_status);
    }
}

#[test]
fn key_source_failure_is_an_internal_error() {
    assert_eq!(JwtError::KeySourceUnavailable.status_code(), 500);
    assert_eq!(JwtError::KeySourceUnavailable.message(), "Failed to fetch public keys");
    assert_eq!(JwtError::KeySourceUnavailable.response_message(), "Failed to fetch public keys");
    assert!(!JwtError::KeySourceUnavailable.is_credential_error());
    assert_eq!(STATUS_UNAUTHORIZED, 401);
    assert_eq!(STATUS_INTERNAL_ERROR, 500);
}

#[test]
fn credential_failures_look_alike_from_outside() {
    let kinds = [JwtError::MissingToken, JwtError::InvalidToken, JwtError::NoValidKeyError];
    for kind in kinds {
        assert!(kind.is_credential_error());
        assert_eq!(kind.status_code(), 401);
        assert_eq!(kind.response_message(), "Unauthorized");
    }
}

#[test]
fn kinds_stay_apart_inside() {
    assert_ne!(JwtError::MissingToken, JwtError::InvalidToken);
    assert_ne!(JwtError::MissingToken.message(), JwtError::InvalidToken.message());
    assert_ne!(JwtError::NoValidKeyError.message(), JwtError::InvalidToken.message());
    assert_ne!(JwtError::NoValidKeyError, JwtError::KeySourceUnavailable);
}
