//! The guarantees of the pipeline, stated and proved over its contracts:
//! single acceptance per nonce, nonce consumption on signature failure,
//! rejection of stale and future nonces, idempotence of replay rejection,
//! and monotone growth of the registry.

use vstd::prelude::*;

use crate::crypto::signature_failure;
use crate::error::HandlerError;
use crate::pipeline::{handle_outcome, handle_registry, validation_failure, Outcome};
use crate::types::{VerifySignaturePayloadView, MAX_NONCE_AGE_MILLIS};

verus! {

/// A valid signed payload with a fresh, unused nonce is accepted on its
/// first submission, and the identical resubmission is rejected as a replay
/// (provided the nonce is still within the freshness window when the
/// resubmission is checked; a stale resubmission is rejected too, but as a
/// validation failure).
pub proof fn lemma_first_accept_then_replay(
    seen: Set<Seq<char>>,
    req: VerifySignaturePayloadView,
    now1: int,
    now2: int,
)
    requires
        !seen.contains(req.nonce_payload.nonce.id),
        validation_failure(req.nonce_payload, now1) is None,
        validation_failure(req.nonce_payload, now2) is None,
        signature_failure(req.nonce_payload, req.signature, req.public_key) is None,
    ensures
        handle_outcome(seen, req, now1) == Outcome::Accepted,
        handle_outcome(handle_registry(seen, req, now1), req, now2) == Outcome::Rejected(
            HandlerError::ReplayAttack,
        ),
{
}

/// A payload whose nonce is more than the freshness window in the past at
/// check time is rejected as a validation failure — even with a correct
/// signature and an unused nonce — and the registry is unchanged.
pub proof fn lemma_expired_rejected(
    seen: Set<Seq<char>>,
    req: VerifySignaturePayloadView,
    now: int,
)
    requires
        now - req.nonce_payload.nonce.issued_at > MAX_NONCE_AGE_MILLIS as int,
    ensures
        handle_outcome(seen, req, now) matches Outcome::Rejected(HandlerError::PayloadValidation(_)),
        handle_registry(seen, req, now) == seen,
{
}

/// A payload whose nonce claims issuance in the future is rejected as a
/// validation failure, and the registry is unchanged.
pub proof fn lemma_future_rejected(seen: Set<Seq<char>>, req: VerifySignaturePayloadView, now: int)
    requires
        req.nonce_payload.nonce.issued_at > now,
    ensures
        handle_outcome(seen, req, now) matches Outcome::Rejected(HandlerError::PayloadValidation(_)),
        handle_registry(seen, req, now) == seen,
{
}

/// A freshness-passing payload whose signature does not verify is rejected
/// with that signature failure, yet its nonce is still consumed: any later
/// freshness-passing submission with the same nonce id — a corrected
/// signature included — is rejected as a replay.
pub proof fn lemma_bad_signature_consumes_nonce(
    seen: Set<Seq<char>>,
    req: VerifySignaturePayloadView,
    req2: VerifySignaturePayloadView,
    now1: int,
    now2: int,
)
    requires
        !seen.contains(req.nonce_payload.nonce.id),
        validation_failure(req.nonce_payload, now1) is None,
        signature_failure(req.nonce_payload, req.signature, req.public_key) is Some,
        req2.nonce_payload.nonce.id == req.nonce_payload.nonce.id,
        validation_failure(req2.nonce_payload, now2) is None,
    ensures
        handle_outcome(seen, req, now1) == Outcome::Rejected(
            HandlerError::SignatureValidation(
                signature_failure(req.nonce_payload, req.signature, req.public_key)->0,
            ),
        ),
        handle_registry(seen, req, now1).contains(req.nonce_payload.nonce.id),
        handle_outcome(handle_registry(seen, req, now1), req2, now2) == Outcome::Rejected(
            HandlerError::ReplayAttack,
        ),
{
}

/// A payload already rejected as a replay is rejected as a replay again on
/// resubmission (at any check time within its freshness window), and the
/// registry does not change further.
pub proof fn lemma_replay_idempotent(
    seen: Set<Seq<char>>,
    req: VerifySignaturePayloadView,
    now1: int,
    now2: int,
)
    requires
        handle_outcome(seen, req, now1) == Outcome::Rejected(HandlerError::ReplayAttack),
        validation_failure(req.nonce_payload, now2) is None,
    ensures
        handle_outcome(handle_registry(seen, req, now1), req, now2) == Outcome::Rejected(
            HandlerError::ReplayAttack,
        ),
        handle_registry(handle_registry(seen, req, now1), req, now2) == handle_registry(
            seen,
            req,
            now1,
        ),
{
    assert(seen.insert(req.nonce_payload.nonce.id) =~= seen);
}

/// The registry's membership grows monotonically: no pipeline run removes a
/// consumed nonce id.
pub proof fn lemma_registry_monotone(
    seen: Set<Seq<char>>,
    req: VerifySignaturePayloadView,
    now: int,
)
    ensures
        seen.subset_of(handle_registry(seen, req, now)),
{
}

/// The verdicts of a linearized run of submissions: each is checked against
/// the registry as the preceding ones left it.
pub open spec fn pipeline_outcomes(
    seen: Set<Seq<char>>,
    reqs: Seq<VerifySignaturePayloadView>,
    times: Seq<int>,
) -> Seq<Outcome>
    recommends
        reqs.len() == times.len(),
    decreases reqs.len(),
{
    if reqs.len() == 0 {
        Seq::empty()
    } else {
        seq![handle_outcome(seen, reqs[0], times[0])] + pipeline_outcomes(
            handle_registry(seen, reqs[0], times[0]),
            reqs.drop_first(),
            times.drop_first(),
        )
    }
}

/// How many of a run's verdicts are acceptances.
pub open spec fn accepted_count(outcomes: Seq<Outcome>) -> nat
    decreases outcomes.len(),
{
    if outcomes.len() == 0 {
        0
    } else {
        (if outcomes[0] == Outcome::Accepted {
            1nat
        } else {
            0nat
        }) + accepted_count(outcomes.drop_first())
    }
}

/// Once a nonce id is in the registry, no submission carrying it is ever
/// accepted.
pub proof fn lemma_no_accept_when_seen(
    seen: Set<Seq<char>>,
    reqs: Seq<VerifySignaturePayloadView>,
    times: Seq<int>,
    id: Seq<char>,
)
    requires
        reqs.len() == times.len(),
        forall|i: int| 0 <= i < reqs.len() ==> reqs[i].nonce_payload.nonce.id == id,
        seen.contains(id),
    ensures
        accepted_count(pipeline_outcomes(seen, reqs, times)) == 0,
    decreases reqs.len(),
{
    if reqs.len() > 0 {
        let o0 = handle_outcome(seen, reqs[0], times[0]);
        let seen1 = handle_registry(seen, reqs[0], times[0]);
        let rest = pipeline_outcomes(seen1, reqs.drop_first(), times.drop_first());
        assert(o0 != Outcome::Accepted);
        assert(seen1.contains(id));
        lemma_no_accept_when_seen(seen1, reqs.drop_first(), times.drop_first(), id);
        let all = pipeline_outcomes(seen, reqs, times);
        assert(all =~= seq![o0] + rest);
        assert(all.drop_first() =~= rest);
        assert(accepted_count(all) == 0);
    }
}

/// Of any linearized run of submissions that all carry the same nonce id —
/// N concurrent submissions included, in whichever order their replay
/// checks are serialized — at most one is accepted; all later
/// freshness-passing ones are rejected as replays.
pub proof fn lemma_single_accept(
    seen: Set<Seq<char>>,
    reqs: Seq<VerifySignaturePayloadView>,
    times: Seq<int>,
    id: Seq<char>,
)
    requires
        reqs.len() == times.len(),
        forall|i: int| 0 <= i < reqs.len() ==> reqs[i].nonce_payload.nonce.id == id,
    ensures
        accepted_count(pipeline_outcomes(seen, reqs, times)) <= 1,
    decreases reqs.len(),
{
    if reqs.len() > 0 {
        let o0 = handle_outcome(seen, reqs[0], times[0]);
        let seen1 = handle_registry(seen, reqs[0], times[0]);
        let rest = pipeline_outcomes(seen1, reqs.drop_first(), times.drop_first());
        let all = pipeline_outcomes(seen, reqs, times);
        assert(all =~= seq![o0] + rest);
        assert(all.drop_first() =~= rest);
        if o0 == Outcome::Accepted {
            assert(validation_failure(reqs[0].nonce_payload, times[0]) is None);
            assert(seen1.contains(id));
            lemma_no_accept_when_seen(seen1, reqs.drop_first(), times.drop_first(), id);
        } else {
            lemma_single_accept(seen1, reqs.drop_first(), times.drop_first(), id);
        }
    }
}

} // verus!
