use vstd::prelude::*;
use crate::error::AuthError;

verus! {

/// The 128-bit value of the UUID written in `s`, or `None` where `s` is
/// not a UUID in one of the forms that the uuid crate reads.
pub uninterp spec fn uuid_of(s: Seq<char>) -> Option<u128>;

/// Relies on uuid::Uuid::parse_str, with Uuid::as_u128 to take the value
/// out: the result depends on the text alone.
#[verifier::external_body]
fn parse_uuid(s: &str) -> (r: Option<u128>)
    ensures
        r == uuid_of(s@),
{
    uuid::Uuid::parse_str(s).ok().map(|u| u.as_u128())
}

/// Outcome of a challenge attempt, from whether the status was a success and
/// the message identifier that the body held, if it could be read.
pub open spec fn challenge_verdict_spec(status_ok: bool, message_id: Option<u128>) -> Result<u128, AuthError> {
    if !status_ok {
        Err(AuthError::ErrorStatus)
    } else {
        match message_id {
            Some(id) => Ok(id),
            None => Err(AuthError::MalformedResponse),
        }
    }
}

/// Decides a challenge attempt: it succeeds, with the message identifier,
/// exactly when the status is a success and the body held an identifier.
pub fn challenge_verdict(status_ok: bool, message_id: Option<u128>) -> (r: Result<u128, AuthError>)
    ensures
        r == challenge_verdict_spec(status_ok, message_id),
{
    if !status_ok {
        Err(AuthError::ErrorStatus)
    } else {
        match message_id {
            Some(id) => Ok(id),
            None => Err(AuthError::MalformedResponse),
        }
    }
}

/// Decides a challenge attempt from the status and the text of the body's
/// `MessageID` field (`None` where the body had no such field): the text
/// must be a UUID.
pub fn challenge_outcome(status_ok: bool, message_id: Option<String>) -> (r: Result<u128, AuthError>)
    ensures
        r == challenge_verdict_spec(
            status_ok,
            match message_id {
                Some(t) => uuid_of(t@),
                None => None,
            },
        ),
{
    if !status_ok {
        return Err(AuthError::ErrorStatus);
    }
    let parsed = match &message_id {
        Some(t) => parse_uuid(t.as_str()),
        None => None,
    };
    challenge_verdict(status_ok, parsed)
}

/// A structured rejection from the registration service.
pub struct Rejection {
    pub error: String,
    pub info: String,
}

/// How a registration attempt ended when it did not fail.
pub enum Registration {
    /// The service accepted the host and returned its membership proof.
    Acknowledged { mem_proof: String },
    /// The service refused with a structured error; the attempt counts as
    /// handled, and the error is for the log.
    Rejected(Rejection),
}

/// Outcome of a registration attempt, from whether the status was a
/// success, the body read as an acknowledgment, and the body read as a
/// rejection (each `None` where the body did not read so).
pub open spec fn registration_verdict_spec(
    status_ok: bool,
    mem_proof: Option<String>,
    rejection: Option<Rejection>,
) -> Result<Registration, AuthError> {
    if status_ok {
        match mem_proof {
            Some(p) => Ok(Registration::Acknowledged { mem_proof: p }),
            None => Err(AuthError::MalformedResponse),
        }
    } else {
        match rejection {
            Some(e) => Ok(Registration::Rejected(e)),
            None => Err(AuthError::MalformedResponse),
        }
    }
}

/// Decides a registration attempt: a success status needs an
/// acknowledgment, an error status needs a structured rejection, which
/// completes the attempt; any other body fails it.
pub fn registration_outcome(
    status_ok: bool,
    mem_proof: Option<String>,
    rejection: Option<Rejection>,
) -> (r: Result<Registration, AuthError>)
    ensures
        r == registration_verdict_spec(status_ok, mem_proof, rejection),
{
    if status_ok {
        match mem_proof {
            Some(p) => Ok(Registration::Acknowledged { mem_proof: p }),
            None => Err(AuthError::MalformedResponse),
        }
    } else {
        match rejection {
            Some(e) => Ok(Registration::Rejected(e)),
            None => Err(AuthError::MalformedResponse),
        }
    }
}

} // verus!
