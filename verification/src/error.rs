//! The closed error taxonomy of the validation pipeline, and its mapping to
//! HTTP status codes (performed by the boundary adapter).

use vstd::prelude::*;

verus! {

/// A structural or freshness defect of a submitted payload: recoverable by
/// the client minting a new, correctly timed nonce.
#[derive(Clone, Copy, Debug, PartialEq, Eq, Structural)]
pub enum ValidationFailure {
    /// The nonce id is the empty string.
    EmptyNonceId,
    /// The message is the empty string.
    EmptyMessage,
    /// The nonce claims to have been issued after the check time.
    IssuedAtInFuture,
    /// The nonce is older than the freshness window allows.
    ExpiredNonce,
}

/// A failure of the cryptographic signature check, one variant per distinct
/// failure point of the check.
#[derive(Clone, Copy, Debug, PartialEq, Eq, Structural)]
pub enum CryptoError {
    /// The public key or the signature is not valid unpadded URL-safe base64.
    DecodeError,
    /// The decoded public key is not exactly 32 bytes.
    InvalidKeyLength,
    /// The decoded signature is not exactly 64 bytes.
    InvalidSignatureLength,
    /// The 32 key bytes are not a valid Ed25519 verifying-key encoding.
    MalformedKey,
    /// The signature does not verify over the canonical payload bytes.
    InvalidSignature,
}

/// The reason a request was rejected, as surfaced to the boundary adapter.
#[derive(Clone, Copy, Debug, PartialEq, Eq, Structural)]
pub enum HandlerError {
    /// Structural or freshness failure of the payload.
    PayloadValidation(ValidationFailure),
    /// The nonce id has already been consumed.
    ReplayAttack,
    /// The signature check failed.
    SignatureValidation(CryptoError),
    /// Enforced by an external collaborator, never produced by the pipeline.
    RateLimitExceeded,
}

impl HandlerError {
    /// The HTTP status code the boundary adapter answers with.
    pub open spec fn spec_status_code(self) -> u16 {
        match self {
            HandlerError::PayloadValidation(_) => 400,
            HandlerError::ReplayAttack => 409,
            HandlerError::SignatureValidation(_) => 401,
            HandlerError::RateLimitExceeded => 429,
        }
    }

    pub fn status_code(&self) -> (c: u16)
        ensures
            c == self.spec_status_code(),
    {
        match self {
            HandlerError::PayloadValidation(_) => 400,
            HandlerError::ReplayAttack => 409,
            HandlerError::SignatureValidation(_) => 401,
            HandlerError::RateLimitExceeded => 429,
        }
    }
}

} // verus!
