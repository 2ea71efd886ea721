//! Decision logic of a device bootstrap client that attests a host identity
//! to a challenge service and then to a registration service.
//!
//! The library builds the request bodies, classifies the replies, and drives
//! the two-phase retry workflow with exponential backoff. Reading files,
//! resolving the network identity and talking HTTP are left to the caller.
mod error;
mod config;
mod payload;
mod reply;
mod backoff;
mod workflow;

pub use error::{AuthError, message_of, lemma_messages_distinct};
pub use config::{Config, HostSettings, settings};
pub use payload::{challenge_body, registration_body, registration_request, challenge_json, registration_json, json_text_of, escaped, escaped_char, hex_digit};
pub use reply::{
    Rejection, Registration, uuid_of, challenge_verdict, challenge_verdict_spec, challenge_outcome,
    registration_outcome, registration_verdict_spec,
};
pub use backoff::{Backoff, capped, pow2, lemma_pow2_doubles};
pub use workflow::{
    Phase, Workflow, next_phase, step, run, falses, successes, phase_after, wait_on_failure,
    lemma_trailing_failures, lemma_wait_of_nth_failure, lemma_phase_follows_successes,
    lemma_registration_after_challenge_success, lemma_success_path, lemma_challenge_failures_forever,
    lemma_registration_waits,
};
