//! Verification core for one-shot signed messages.
//!
//! A holder signs a payload containing a freshness token (a nonce) and a
//! message; the verifier checks the payload's structure, the freshness
//! window, that the nonce has never been seen before, and finally the
//! Ed25519 signature over the payload's canonical byte serialization.
//! The pipeline accepts or rejects each request exactly once: a nonce id
//! is consumed by its first freshness-passing submission, so identical
//! resubmissions are always rejected as replays.

pub mod canon;
pub mod crypto;
pub mod error;
pub mod laws;
pub mod pipeline;
pub mod registry;
pub mod types;
