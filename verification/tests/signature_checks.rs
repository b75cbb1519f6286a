use base64::Engine;

use nonce_verifier::canon::canonical_bytes;
use nonce_verifier::crypto::verify_signature;
use nonce_verifier::error::CryptoError;
use nonce_verifier::types::{Nonce, NoncePayload};

fn sample_payload() -> NoncePayload {
    NoncePayload {
        nonce: Nonce {
            id: "a734bb9e-9f7b-4f8d-b2b2-5a6e7f3f3021".to_string(),
            issued_at: 1713038460000,
        },
        message: "Hello Verifier!".to_string(),
    }
}

fn b64(bytes: &[u8]) -> String {
    base64::engine::general_purpose::URL_SAFE_NO_PAD.encode(bytes)
}

fn good_signature_and_key(payload: &NoncePayload, key: [u8; 32]) -> (String, String) {
    let sk = ed25519_dalek::SigningKey::from_bytes(&key);
    let sig = ed25519_dalek::Signer::sign(&sk, canonical_bytes(payload).as_slice());
    (b64(&sig.to_bytes()), b64(sk.verifying_key().as_bytes()))
}

#[test]
fn valid_signature_accepted() {
    let payload = sample_payload();
    let (sig, pk) = good_signature_and_key(&payload, [42u8; 32]);
    assert_eq!(verify_signature(&payload, &sig, &pk), Ok(()));
}

#[test]
fn malformed_key_base64_rejected() {
    let payload = sample_payload();
    let (sig, _) = good_signature_and_key(&payload, [42u8; 32]);
    assert_eq!(
        verify_signature(&payload, &sig, "!not*base64"),
        Err(CryptoError::DecodeError)
    );
    // padded base64 is refused by the unpadded engine
    assert_eq!(
        verify_signature(&payload, &sig, "AAAA=="),
        Err(CryptoError::DecodeError)
    );
}

#[test]
fn short_key_rejected() {
    let payload = sample_payload();
    let (sig, _) = good_signature_and_key(&payload, [42u8; 32]);
    assert_eq!(
        verify_signature(&payload, &sig, &b64(&[0u8; 31])),
        Err(CryptoError::InvalidKeyLength)
    );
}

#[test]
fn malformed_signature_base64_rejected() {
    let payload = sample_payload();
    let (_, pk) = good_signature_and_key(&payload, [42u8; 32]);
    assert_eq!(
        verify_signature(&payload, "***", &pk),
        Err(CryptoError::DecodeError)
    );
}

#[test]
fn short_signature_rejected() {
    let payload = sample_payload();
    let (_, pk) = good_signature_and_key(&payload, [42u8; 32]);
    assert_eq!(
        verify_signature(&payload, &b64(&[0u8; 63]), &pk),
        Err(CryptoError::InvalidSignatureLength)
    );
}

#[test]
fn undecompressible_key_rejected() {
    let payload = sample_payload();
    let (sig, _) = good_signature_and_key(&payload, [42u8; 32]);
    // find 32 bytes that ed25519_dalek itself refuses as a key encoding
    let mut bad_key = None;
    for b in 0u8..=255 {
        let candidate = [b; 32];
        if ed25519_dalek::VerifyingKey::from_bytes(&candidate).is_err() {
            bad_key = Some(candidate);
            break;
        }
    }
    let bad_key = bad_key.expect("no undecompressible candidate found");
    assert_eq!(
        verify_signature(&payload, &sig, &b64(&bad_key)),
        Err(CryptoError::MalformedKey)
    );
}

#[test]
fn wrong_key_rejected() {
    let payload = sample_payload();
    let (sig, _) = good_signature_and_key(&payload, [42u8; 32]);
    let (_, other_pk) = good_signature_and_key(&payload, [43u8; 32]);
    assert_eq!(
        verify_signature(&payload, &sig, &other_pk),
        Err(CryptoError::InvalidSignature)
    );
}

#[test]
fn tampered_payload_rejected() {
    let payload = sample_payload();
    let (sig, pk) = good_signature_and_key(&payload, [42u8; 32]);
    let mut tampered = payload.clone();
    tampered.nonce.issued_at += 1;
    assert_eq!(
        verify_signature(&tampered, &sig, &pk),
        Err(CryptoError::InvalidSignature)
    );
}
