use vstd::prelude::*;

verus! {

/// Why one attestation attempt failed, as far as the library decides it.
#[derive(Clone, Copy, Debug, PartialEq, Eq, Structural)]
pub enum AuthError {
    /// The configuration is of the first generation, which carries no
    /// administrator settings: attestation needs the second.
    ConfigVersionError,
    /// The service answered with an HTTP error status.
    ErrorStatus,
    /// The reply body did not have the expected shape.
    MalformedResponse,
}

/// The log line for each kind of failure; no two kinds share one.
pub open spec fn message_of(e: AuthError) -> Seq<char> {
    match e {
        AuthError::ConfigVersionError => "Invalid config version used. please upgrade to hpos-config v2"@,
        AuthError::ErrorStatus => "the service answered with an error status"@,
        AuthError::MalformedResponse => "the service reply could not be read"@,
    }
}

/// Different kinds of failure give different log lines.
pub proof fn lemma_messages_distinct(a: AuthError, b: AuthError)
    ensures
        a != b ==> message_of(a) != message_of(b),
{
    reveal_strlit("Invalid config version used. please upgrade to hpos-config v2");
    reveal_strlit("the service answered with an error status");
    reveal_strlit("the service reply could not be read");
    assert(message_of(AuthError::ConfigVersionError).len() == 61);
    assert(message_of(AuthError::ErrorStatus).len() == 41);
    assert(message_of(AuthError::MalformedResponse).len() == 35);
}

impl AuthError {
    /// A line for the log that names the kind of failure.
    pub fn message(&self) -> (r: String)
        ensures
            r@ == message_of(*self),
    {
        match self {
            AuthError::ConfigVersionError => {
                proof {
                    reveal_strlit("Invalid config version used. please upgrade to hpos-config v2");
                }
                String::from_str("Invalid config version used. please upgrade to hpos-config v2")
            },
            AuthError::ErrorStatus => {
                proof {
                    reveal_strlit("the service answered with an error status");
                }
                String::from_str("the service answered with an error status")
            },
            AuthError::MalformedResponse => {
                proof {
                    reveal_strlit("the service reply could not be read");
                }
                String::from_str("the service reply could not be read")
            },
        }
    }
}

} // verus!
