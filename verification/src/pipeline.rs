//! The validation pipeline: structural check, freshness check, replay check
//! (atomic test-and-set against the registry), then signature check, in that
//! order with short-circuit failure.
//!
//! Recording happens before signature verification, so a nonce id is
//! consumed by exactly one freshness-passing request, whether or not its
//! signature verifies; a resubmission is always rejected as a replay.

use vstd::prelude::*;

use crate::crypto::{signature_failure, verify_signature};
use crate::error::{HandlerError, ValidationFailure};
use crate::registry::NonceRegistry;
use crate::types::{
    freshness_failure, Nonce, NoncePayload, NoncePayloadView, VerifySignaturePayload,
    VerifySignaturePayloadView,
    MAX_NONCE_AGE_MILLIS,
};

verus! {

/// The pipeline's verdict on one request.
#[derive(Clone, Copy, Debug, PartialEq, Eq, Structural)]
pub enum Outcome {
    /// Terminal success: signature valid and nonce accepted.
    Accepted,
    /// Terminal failure, with the reason surfaced to the boundary adapter.
    Rejected(HandlerError),
}

/// The structural or freshness failure of a payload at check time `now`,
/// if any: empty nonce id, then empty message, then the freshness window.
pub open spec fn validation_failure(p: NoncePayloadView, now: int) -> Option<ValidationFailure> {
    if p.nonce.id.len() == 0 {
        Some(ValidationFailure::EmptyNonceId)
    } else if p.message.len() == 0 {
        Some(ValidationFailure::EmptyMessage)
    } else {
        freshness_failure(p.nonce.issued_at, now)
    }
}

/// The verdict of the pipeline on `req` at check time `now`, given the set
/// `seen` of nonce ids already consumed.
pub open spec fn handle_outcome(
    seen: Set<Seq<char>>,
    req: VerifySignaturePayloadView,
    now: int,
) -> Outcome {
    match validation_failure(req.nonce_payload, now) {
        Option::Some(v) => Outcome::Rejected(HandlerError::PayloadValidation(v)),
        Option::None => if seen.contains(req.nonce_payload.nonce.id) {
            Outcome::Rejected(HandlerError::ReplayAttack)
        } else {
            match signature_failure(req.nonce_payload, req.signature, req.public_key) {
                Option::Some(e) => Outcome::Rejected(HandlerError::SignatureValidation(e)),
                Option::None => Outcome::Accepted,
            }
        },
    }
}

/// The set of consumed nonce ids after the pipeline ran on `req` at `now`:
/// the nonce is recorded exactly when the request reached the replay check.
pub open spec fn handle_registry(
    seen: Set<Seq<char>>,
    req: VerifySignaturePayloadView,
    now: int,
) -> Set<Seq<char>> {
    if validation_failure(req.nonce_payload, now) is None {
        seen.insert(req.nonce_payload.nonce.id)
    } else {
        seen
    }
}

/// The structural and freshness stage of the pipeline: rejects an empty
/// nonce id, an empty message, and an issuance time outside the freshness
/// window at `now`. A boundary adapter that wants to keep the registry lock
/// off the signature computation runs this stage, then the replay check,
/// then the signature check, exactly as [`handle`] does.
pub fn check_payload(payload: &NoncePayload, now: i64) -> (r: Result<(), ValidationFailure>)
    ensures
        r is Ok <==> validation_failure(payload@, now as int) is None,
        r is Err ==> Some(r->Err_0) == validation_failure(payload@, now as int),
{
    if payload.nonce.id.as_str().is_empty() {
        Err(ValidationFailure::EmptyNonceId)
    } else if payload.message.as_str().is_empty() {
        Err(ValidationFailure::EmptyMessage)
    } else {
        Nonce::validate_issued_at(payload.nonce.issued_at, now)
    }
}

/// Runs the pipeline once on `request` at check time `now` (epoch
/// milliseconds): structural check, freshness check, replay check against
/// `registry`, then the signature check, each failure terminal.
pub fn handle(registry: &mut NonceRegistry, request: &VerifySignaturePayload, now: i64) -> (o:
    Outcome)
    ensures
        o == handle_outcome(old(registry)@, request@, now as int),
        final(registry)@ == handle_registry(old(registry)@, request@, now as int),
{
    if let Err(f) = check_payload(&request.nonce_payload, now) {
        return Outcome::Rejected(HandlerError::PayloadValidation(f));
    }
    let fresh = registry.check_and_record(&request.nonce_payload.nonce.id);
    if !fresh {
        return Outcome::Rejected(HandlerError::ReplayAttack);
    }
    match verify_signature(
        &request.nonce_payload,
        request.signature.as_str(),
        request.public_key.as_str(),
    ) {
        Ok(()) => Outcome::Accepted,
        Err(e) => Outcome::Rejected(HandlerError::SignatureValidation(e)),
    }
}

/// Relies on chrono's `Utc::now`: the current UTC time in epoch
/// milliseconds, whatever the process clock reads.
#[verifier::external_body]
pub fn now_millis() -> i64 {
    chrono::Utc::now().timestamp_millis()
}

/// Runs the pipeline at the current clock time: whatever the clock read,
/// the verdict and the new registry are those of the pipeline at that one
/// check time.
pub fn handle_now(registry: &mut NonceRegistry, request: &VerifySignaturePayload) -> (o: Outcome)
    ensures
        exists|now: int|
            o == handle_outcome(old(registry)@, request@, now) && final(registry)@
                == handle_registry(old(registry)@, request@, now),
{
    let now: i64 = now_millis();
    handle(registry, request, now)
}

} // verus!
