use vstd::prelude::*;
use crate::error::AuthError;

verus! {

/// What a second-generation configuration carries for attestation.
pub struct HostSettings {
    /// Email address of the host's administrator.
    pub email: String,
    /// Code that links the host to a registration.
    pub registration_code: String,
    /// The host's public key in its base-36 text form.
    pub agent_id: String,
}

/// A loaded host configuration, by generation.
pub enum Config {
    /// First generation: readable, but without administrator settings.
    V1,
    /// Second generation.
    V2(HostSettings),
}

/// The settings that attestation needs, or the version error for a
/// first-generation configuration.
pub fn settings(config: &Config) -> (r: Result<&HostSettings, AuthError>)
    ensures
        match config {
            Config::V1 => r == Err::<&HostSettings, AuthError>(AuthError::ConfigVersionError),
            Config::V2(s) => r == Ok::<&HostSettings, AuthError>(s),
        },
{
    match config {
        Config::V1 => Err(AuthError::ConfigVersionError),
        Config::V2(s) => Ok(s),
    }
}

} // verus!
