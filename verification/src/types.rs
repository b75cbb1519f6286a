//! The data model: nonces, signed payloads, and the freshness check.

use vstd::prelude::*;

use crate::error::ValidationFailure;

verus! {

/// Maximum allowed age of a nonce, in milliseconds, relative to check time.
pub const MAX_NONCE_AGE_MILLIS: i64 = 30000;

/// Mathematical view of a [`Nonce`].
pub struct NonceView {
    pub id: Seq<char>,
    pub issued_at: int,
}

/// A single-use freshness token bound to a signed message.
///
/// `id` is an opaque unique string; `issued_at` is an epoch-millisecond
/// timestamp set by the holder at signing time.
#[derive(Clone)]
pub struct Nonce {
    pub id: String,
    pub issued_at: i64,
}

impl View for Nonce {
    type V = NonceView;

    open spec fn view(&self) -> NonceView {
        NonceView { id: self.id@, issued_at: self.issued_at as int }
    }
}

/// Mathematical view of a [`NoncePayload`].
pub struct NoncePayloadView {
    pub nonce: NonceView,
    pub message: Seq<char>,
}

/// The signed content: a nonce and a non-empty message. Its canonical byte
/// serialization is the exact byte sequence the holder signed.
#[derive(Clone)]
pub struct NoncePayload {
    pub nonce: Nonce,
    pub message: String,
}

impl View for NoncePayload {
    type V = NoncePayloadView;

    open spec fn view(&self) -> NoncePayloadView {
        NoncePayloadView { nonce: self.nonce@, message: self.message@ }
    }
}

/// Mathematical view of a [`VerifySignaturePayload`].
pub struct VerifySignaturePayloadView {
    pub nonce_payload: NoncePayloadView,
    pub signature: Seq<char>,
    pub public_key: Seq<char>,
}

/// A full inbound request: the signed payload, the signature, and the
/// holder's public key, both base64url (no padding) encoded.
#[derive(Clone)]
pub struct VerifySignaturePayload {
    pub nonce_payload: NoncePayload,
    pub signature: String,
    pub public_key: String,
}

impl View for VerifySignaturePayload {
    type V = VerifySignaturePayloadView;

    open spec fn view(&self) -> VerifySignaturePayloadView {
        VerifySignaturePayloadView {
            nonce_payload: self.nonce_payload@,
            signature: self.signature@,
            public_key: self.public_key@,
        }
    }
}

/// The confirmation body answered on acceptance.
#[derive(Clone)]
pub struct VerifySignatureResponse {
    pub message: String,
}

impl View for VerifySignatureResponse {
    type V = Seq<char>;

    open spec fn view(&self) -> Seq<char> {
        self.message@
    }
}

/// Where the boundary adapter reaches its verifier.
#[derive(Clone)]
pub struct AppConfig {
    pub api_url: String,
}

/// The freshness rule: a nonce issued after `now`, or more than
/// [`MAX_NONCE_AGE_MILLIS`] before it, is rejected.
pub open spec fn freshness_failure(issued_at: int, now: int) -> Option<ValidationFailure> {
    if issued_at > now {
        Some(ValidationFailure::IssuedAtInFuture)
    } else if now - issued_at > MAX_NONCE_AGE_MILLIS as int {
        Some(ValidationFailure::ExpiredNonce)
    } else {
        None
    }
}

impl Nonce {
    /// Checks the freshness window of an issuance timestamp against `now`,
    /// both in epoch milliseconds.
    pub fn validate_issued_at(issued_at: i64, now: i64) -> (r: Result<(), ValidationFailure>)
        ensures
            r is Ok <==> freshness_failure(issued_at as int, now as int) is None,
            r is Err ==> Some(r->Err_0) == freshness_failure(issued_at as int, now as int),
    {
        if issued_at > now {
            Err(ValidationFailure::IssuedAtInFuture)
        } else if (now as i128) - (issued_at as i128) > MAX_NONCE_AGE_MILLIS as i128 {
            Err(ValidationFailure::ExpiredNonce)
        } else {
            Ok(())
        }
    }
}

} // verus!
