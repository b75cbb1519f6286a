use nonce_verifier::error::{CryptoError, HandlerError, ValidationFailure};
use nonce_verifier::pipeline::now_millis;
use nonce_verifier::registry::NonceRegistry;
use nonce_verifier::types::{AppConfig, Nonce, VerifySignatureResponse, MAX_NONCE_AGE_MILLIS};

#[test]
fn check_and_record_consumes_exactly_once() {
    let mut registry = NonceRegistry::new();
    let id = "one-shot".to_string();
    assert!(!registry.contains(&id));
    assert!(registry.check_and_record(&id));
    assert!(registry.contains(&id));
    assert!(!registry.check_and_record(&id));
    assert!(!registry.check_and_record(&id));
    assert!(registry.contains(&id));
}

#[test]
fn check_and_record_keeps_ids_apart() {
    let mut registry = NonceRegistry::new();
    assert!(registry.check_and_record(&"left".to_string()));
    assert!(registry.check_and_record(&"right".to_string()));
    assert!(!registry.check_and_record(&"left".to_string()));
    assert!(!registry.contains(&"middle".to_string()));
}

#[test]
fn status_codes_match_error_classes() {
    assert_eq!(
        HandlerError::PayloadValidation(ValidationFailure::ExpiredNonce).status_code(),
        400
    );
    assert_eq!(HandlerError::ReplayAttack.status_code(), 409);
    assert_eq!(
        HandlerError::SignatureValidation(CryptoError::InvalidSignature).status_code(),
        401
    );
    assert_eq!(HandlerError::RateLimitExceeded.status_code(), 429);
}

#[test]
fn freshness_window_edges() {
    let now = now_millis();
    assert_eq!(Nonce::validate_issued_at(now, now), Ok(()));
    assert_eq!(Nonce::validate_issued_at(now - MAX_NONCE_AGE_MILLIS, now), Ok(()));
    assert_eq!(
        Nonce::validate_issued_at(now - MAX_NONCE_AGE_MILLIS - 1, now),
        Err(ValidationFailure::ExpiredNonce)
    );
    assert_eq!(
        Nonce::validate_issued_at(now + 1, now),
        Err(ValidationFailure::IssuedAtInFuture)
    );
    assert_eq!(
        Nonce::validate_issued_at(i64::MIN, i64::MAX),
        Err(ValidationFailure::ExpiredNonce)
    );
    assert_eq!(
        Nonce::validate_issued_at(i64::MAX, i64::MIN),
        Err(ValidationFailure::IssuedAtInFuture)
    );
}

#[test]
fn plain_value_types_round_trip() {
    let response = VerifySignatureResponse {
        message: "Signature is valid and nonce accepted".to_string(),
    };
    assert_eq!(response.message, "Signature is valid and nonce accepted");
    let config = AppConfig {
        api_url: "http://localhost:3000/api/verify-signature".to_string(),
    };
    assert_eq!(config.api_url, "http://localhost:3000/api/verify-signature");
}
