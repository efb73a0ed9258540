use rex_axum_sdk::error::JwtError;
use rex_axum_sdk::extractor::{
    bearer_token, credential_token, extract_jwt_token, keys_from_response, starts_with,
    Credential, KeyResponse,
};
use rex_axum_sdk::keys::SignatureAlgorithm;
use rex_axum_sdk::trial::VerifierConfig;

fn answer(status: u16, body: &str) -> KeyResponse {
    KeyResponse::Answer { status, body: body.to_string() }
}

#[test]
fn absent_header_is_missing_token() {
    assert_eq!(bearer_token(None), Err(JwtError::MissingToken));
}

#[test]
fn wrong_scheme_is_invalid_token() {
    assert_eq!(bearer_token(Some("Token abc")), Err(JwtError::InvalidToken));
    assert_eq!(bearer_token(Some("bearer abc")), Err(JwtError::InvalidToken));
    assert_eq!(bearer_token(Some("Bearer")), Err(JwtError::InvalidToken));
    assert_eq!(bearer_token(Some("Bearerabc")), Err(JwtError::InvalidToken));
    assert_eq!(bearer_token(Some(" Bearer abc")), Err(JwtError::InvalidToken));
    assert_eq!(bearer_token(Some("")), Err(JwtError::InvalidToken));
    assert_ne!(bearer_token(Some("Token abc")), bearer_token(None));
}

#[test]
fn scheme_is_stripped() {
    assert_eq!(bearer_token(Some("Bearer abc")), Ok("abc".to_string()));
    assert_eq!(bearer_token(Some("Bearer ")), Ok(String::new()));
    assert_eq!(bearer_token(Some("Bearer  a b ")), Ok(" a b ".to_string()));
    assert_eq!(bearer_token(Some("Bearer Bearer x")), Ok("Bearer x".to_string()));
    assert_eq!(bearer_token(Some("Bearer h\u{e9}llo\u{4e16}")), Ok("h\u{e9}llo\u{4e16}".to_string()));
}

#[test]
fn prefix_test_is_exact() {
    assert!(starts_with("Bearer x", "Bearer "));
    assert!(starts_with("abc", ""));
    assert!(starts_with("", ""));
    assert!(starts_with("abc", "abc"));
    assert!(!starts_with("ab", "abc"));
    assert!(!starts_with("abd", "abc"));
    assert!(!starts_with("", "a"));
    assert!(starts_with("\u{e9}t\u{e9}", "\u{e9}t"));
}

#[test]
fn no_answer_is_key_source_unavailable() {
    assert_eq!(
        keys_from_response(&KeyResponse::Unreachable).unwrap_err(),
        JwtError::KeySourceUnavailable
    );
}

#[test]
fn status_outside_success_is_key_source_unavailable() {
    let body = "{\"k1\": \"pem\"}";
    for status in [0, 100, 199, 300, 301, 404, 500, 503, 65535] {
        assert_eq!(
            keys_from_response(&answer(status, body)).unwrap_err(),
            JwtError::KeySourceUnavailable
        );
    }
    for status in [200, 204, 299] {
        assert_eq!(keys_from_response(&answer(status, body)).unwrap().len(), 1);
    }
}

#[test]
fn malformed_body_is_key_source_unavailable() {
    for body in ["", "not json", "[]", "{\"k1\": 5}", "{\"k1\": null}", "{\"k1\": \"a\"", "\"k1\"", "7"] {
        assert_eq!(
            keys_from_response(&answer(200, body)).unwrap_err(),
            JwtError::KeySourceUnavailable
        );
    }
}

#[test]
fn keys_come_by_ascending_identifier() {
    let keys = keys_from_response(&answer(200, "{\"b\": \"pem-b\", \"a\": \"pem-a\", \"c\": \"\"}"))
        .unwrap();
    assert_eq!(keys.len(), 3);
    assert_eq!((keys[0].key_id.as_str(), keys[0].pem.as_str()), ("a", "pem-a"));
    assert_eq!((keys[1].key_id.as_str(), keys[1].pem.as_str()), ("b", "pem-b"));
    assert_eq!((keys[2].key_id.as_str(), keys[2].pem.as_str()), ("c", ""));
    assert_eq!(keys_from_response(&answer(200, "{}")).unwrap().len(), 0);
}

#[test]
fn failed_fetch_is_never_no_valid_key() {
    let config = VerifierConfig::new(
        "app1".to_string(),
        SignatureAlgorithm::RS256,
        "https://issuer.example/keys".to_string(),
        5,
    );
    for response in [KeyResponse::Unreachable, answer(500, "{}"), answer(200, "oops")] {
        let result = extract_jwt_token("a.b.c", &response, &config, 1_700_000_000);
        assert_eq!(result.unwrap_err(), JwtError::KeySourceUnavailable);
    }
    let result = extract_jwt_token("a.b.c", &answer(200, "{\"k\": \"pem\"}"), &config, 1_700_000_000);
    assert_eq!(result.unwrap_err(), JwtError::NoValidKeyError);
}

#[test]
fn configuration_keeps_what_it_is_given() {
    let config = VerifierConfig::new(
        "leaveanote-4af85".to_string(),
        SignatureAlgorithm::RS512,
        "https://issuer.example/keys".to_string(),
        7,
    );
    assert_eq!(config.audience, "leaveanote-4af85");
    assert_eq!(config.algorithm, SignatureAlgorithm::RS512);
    assert_eq!(config.key_endpoint, "https://issuer.example/keys");
    assert_eq!(config.fetch_timeout_secs, 7);
}

#[test]
fn credential_is_classified() {
    assert_eq!(credential_token(Credential::Absent), Err(JwtError::MissingToken));
    assert_eq!(credential_token(Credential::NotText), Err(JwtError::InvalidToken));
    assert_eq!(credential_token(Credential::Text("Token abc")), Err(JwtError::InvalidToken));
    assert_eq!(credential_token(Credential::Text("")), Err(JwtError::InvalidToken));
    assert_eq!(credential_token(Credential::Text("Bearer abc")), Ok("abc".to_string()));
    assert_eq!(credential_token(Credential::Text("Bearer ")), Ok(String::new()));
}

#[test]
fn no_key_identifier_comes_twice() {
    let keys = keys_from_response(&answer(200, "{\"k\": \"first\", \"j\": \"x\", \"k\": \"last\"}"))
        .unwrap();
    assert_eq!(keys.len(), 2);
    assert_eq!((keys[0].key_id.as_str(), keys[0].pem.as_str()), ("j", "x"));
    assert_eq!((keys[1].key_id.as_str(), keys[1].pem.as_str()), ("k", "last"));
}
