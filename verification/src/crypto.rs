//! The signature verifier: base64url decoding of key and signature, and the
//! Ed25519 check over the canonical payload bytes.
//!
//! The decoding and the curve arithmetic are performed by outside crates
//! behind trusted wrappers; everything around them — the order of the
//! checks, the exact failure reported at each step, and the byte
//! serialization the signature is checked over — is verified.

use vstd::prelude::*;

use base64::Engine;

use crate::canon::{canonical_bytes, canonical_json};
use crate::error::CryptoError;
use crate::types::{NoncePayload, NoncePayloadView};

verus! {

/// What base64's URL-safe, unpadded `decode` returns for a given input:
/// the decoded bytes, or nothing when the input is not valid unpadded
/// URL-safe base64.
pub uninterp spec fn b64url_decoded(s: Seq<char>) -> Option<Seq<u8>>;

/// Relies on base64's `Engine::decode` with the `URL_SAFE` alphabet and no
/// padding: the result is a function of the input characters alone, and the
/// call fails exactly on inputs that are not valid in that encoding.
#[verifier::external_body]
fn b64url_decode(s: &str) -> (r: Option<Vec<u8>>)
    ensures
        match r {
            Some(v) => b64url_decoded(s@) == Some(v@),
            None => b64url_decoded(s@) is None,
        },
{
    match base64::engine::general_purpose::URL_SAFE_NO_PAD.decode(s) {
        Ok(v) => Some(v),
        Err(_) => None,
    }
}

/// Whether 32 bytes are a valid Ed25519 verifying-key encoding, as decided
/// by ed25519_dalek's `VerifyingKey::from_bytes`.
pub uninterp spec fn vk_parses(pk: Seq<u8>) -> bool;

/// Whether the Ed25519 check accepts `sig` over `msg` under the key encoded
/// by `pk`, as decided by ed25519_dalek's `Verifier::verify`.
pub uninterp spec fn ed25519_verifies(pk: Seq<u8>, msg: Seq<u8>, sig: Seq<u8>) -> bool;

/// Relies on ed25519_dalek: `VerifyingKey::from_bytes` succeeds exactly when
/// the 32 bytes encode a decompressible curve point (a function of the bytes
/// alone), `Signature::from_bytes` is total on 64 bytes, and
/// `Verifier::verify` is a deterministic accept/reject over key, message and
/// signature.
#[verifier::external_body]
fn ed25519_check(pk: &Vec<u8>, msg: &Vec<u8>, sig: &Vec<u8>) -> (r: Option<bool>)
    requires
        pk@.len() == 32,
        sig@.len() == 64,
    ensures
        r is Some <==> vk_parses(pk@),
        r matches Some(accepted) ==> accepted == ed25519_verifies(pk@, msg@, sig@),
{
    let pk_arr: [u8; 32] = pk.as_slice().try_into().unwrap();
    match ed25519_dalek::VerifyingKey::from_bytes(&pk_arr) {
        Err(_) => None,
        Ok(vk) => {
            let sig_arr: [u8; 64] = sig.as_slice().try_into().unwrap();
            let signature = ed25519_dalek::Signature::from_bytes(&sig_arr);
            Some(ed25519_dalek::Verifier::verify(&vk, msg.as_slice(), &signature).is_ok())
        },
    }
}

/// The failure, if any, of the signature check on a payload with the given
/// base64url signature and public key: each step of the check is a distinct
/// failure point, tried in this order.
pub open spec fn signature_failure(
    p: NoncePayloadView,
    sig: Seq<char>,
    pk: Seq<char>,
) -> Option<CryptoError> {
    match b64url_decoded(pk) {
        Option::None => Some(CryptoError::DecodeError),
        Option::Some(pkb) => if pkb.len() != 32 {
            Some(CryptoError::InvalidKeyLength)
        } else {
            match b64url_decoded(sig) {
                Option::None => Some(CryptoError::DecodeError),
                Option::Some(sgb) => if sgb.len() != 64 {
                    Some(CryptoError::InvalidSignatureLength)
                } else if !vk_parses(pkb) {
                    Some(CryptoError::MalformedKey)
                } else if !ed25519_verifies(pkb, canonical_json(p), sgb) {
                    Some(CryptoError::InvalidSignature)
                } else {
                    Option::None
                },
            }
        },
    }
}

/// Checks the Ed25519 signature of `nonce_payload`: decodes the public key
/// and the signature from unpadded URL-safe base64, checks their lengths,
/// parses the key, and verifies the signature over the payload's canonical
/// byte serialization. Pure function of its inputs, with no side effects;
/// returns `Ok` exactly when every step succeeds, and otherwise the error
/// of the first failing step.
pub fn verify_signature(
    nonce_payload: &NoncePayload,
    signature_b64: &str,
    pubkey_b64: &str,
) -> (r: Result<(), CryptoError>)
    ensures
        r is Ok <==> signature_failure(nonce_payload@, signature_b64@, pubkey_b64@) is None,
        r is Err ==> Some(r->Err_0) == signature_failure(
            nonce_payload@,
            signature_b64@,
            pubkey_b64@,
        ),
{
    let pk = match b64url_decode(pubkey_b64) {
        None => { return Err(CryptoError::DecodeError); },
        Some(v) => v,
    };
    if pk.len() != 32 {
        return Err(CryptoError::InvalidKeyLength);
    }
    let sig = match b64url_decode(signature_b64) {
        None => { return Err(CryptoError::DecodeError); },
        Some(v) => v,
    };
    if sig.len() != 64 {
        return Err(CryptoError::InvalidSignatureLength);
    }
    let msg = canonical_bytes(nonce_payload);
    match ed25519_check(&pk, &msg, &sig) {
        None => Err(CryptoError::MalformedKey),
        Some(true) => Ok(()),
        Some(false) => Err(CryptoError::InvalidSignature),
    }
}

} // verus!
