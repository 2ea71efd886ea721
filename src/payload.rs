use vstd::prelude::*;
use crate::config::{Config, HostSettings, settings};
use crate::error::AuthError;

verus! {

/// Lower-case hexadecimal digit of `n`, for `n < 16`.
pub open spec fn hex_digit(n: u32) -> char {
    seq!['0', '1', '2', '3', '4', '5', '6', '7', '8', '9', 'a', 'b', 'c', 'd', 'e', 'f'][n as int]
}

/// How one character is written inside a JSON string: the quote, the
/// backslash and the control characters are escaped, the rest stands as it is.
pub open spec fn escaped_char(c: char) -> Seq<char> {
    if c == '"' {
        seq!['\\', '"']
    } else if c == '\\' {
        seq!['\\', '\\']
    } else if c == '\x08' {
        seq!['\\', 'b']
    } else if c == '\t' {
        seq!['\\', 't']
    } else if c == '\n' {
        seq!['\\', 'n']
    } else if c == '\x0C' {
        seq!['\\', 'f']
    } else if c == '\r' {
        seq!['\\', 'r']
    } else if (c as u32) < 0x20 {
        seq!['\\', 'u', '0', '0', hex_digit((c as u32) / 16), hex_digit((c as u32) % 16)]
    } else {
        seq![c]
    }
}

/// The characters of `s`, each written as inside a JSON string.
pub open spec fn escaped(s: Seq<char>) -> Seq<char>
    decreases s.len(),
{
    if s.len() == 0 {
        Seq::empty()
    } else {
        escaped(s.drop_last()) + escaped_char(s.last())
    }
}

/// The JSON string literal that encodes the text `s`: a quote, the escaped
/// characters, and a closing quote.
pub open spec fn json_text_of(s: Seq<char>) -> Seq<char> {
    seq!['"'] + escaped(s) + seq!['"']
}

/// Relies on serde_json::to_string on a `str`: it writes the quoted and
/// escaped JSON string into memory, which cannot fail for a `str`.
#[verifier::external_body]
fn json_string(s: &str) -> (r: String)
    ensures
        r@ == json_text_of(s@),
{
    serde_json::to_string(s).expect("writing a JSON string into memory does not fail")
}

/// Body of the challenge request: the administrator's email, the host's
/// public key (base-36) and its network address.
pub open spec fn challenge_json(email: Seq<char>, agent_id: Seq<char>, address: Seq<char>) -> Seq<char> {
    "{\"email\":"@ + json_text_of(email) + ",\"holochain_agent_id\":"@ + json_text_of(agent_id)
        + ",\"zerotier_address\":"@ + json_text_of(address) + "}"@
}

/// Body of the registration request: the registration code, the host's
/// public key (base-36), the administrator's email and the role `host`.
pub open spec fn registration_json(code: Seq<char>, agent_id: Seq<char>, email: Seq<char>) -> Seq<char> {
    "{\"registration_code\":"@ + json_text_of(code) + ",\"agent_pub_key\":"@ + json_text_of(agent_id)
        + ",\"email\":"@ + json_text_of(email) + ",\"role\":"@ + json_text_of("host"@) + "}"@
}

/// Builds the JSON body of the challenge request.
pub fn challenge_body(settings: &HostSettings, zerotier_address: &str) -> (r: String)
    ensures
        r@ == challenge_json(settings.email@, settings.agent_id@, zerotier_address@),
{
    let mut r = String::from_str("{\"email\":");
    let email = json_string(settings.email.as_str());
    r.append(email.as_str());
    r.append(",\"holochain_agent_id\":");
    let agent = json_string(settings.agent_id.as_str());
    r.append(agent.as_str());
    r.append(",\"zerotier_address\":");
    let address = json_string(zerotier_address);
    r.append(address.as_str());
    r.append("}");
    r
}

/// Builds the JSON body of the registration request, with the fixed role
/// `host`.
pub fn registration_body(settings: &HostSettings) -> (r: String)
    ensures
        r@ == registration_json(settings.registration_code@, settings.agent_id@, settings.email@),
{
    let mut r = String::from_str("{\"registration_code\":");
    let code = json_string(settings.registration_code.as_str());
    r.append(code.as_str());
    r.append(",\"agent_pub_key\":");
    let agent = json_string(settings.agent_id.as_str());
    r.append(agent.as_str());
    r.append(",\"email\":");
    let email = json_string(settings.email.as_str());
    r.append(email.as_str());
    r.append(",\"role\":");
    let role = json_string("host");
    r.append(role.as_str());
    r.append("}");
    r
}

/// The body of a registration attempt: a first-generation configuration
/// fails with the version error before anything is built or sent.
pub fn registration_request(config: &Config) -> (r: Result<String, AuthError>)
    ensures
        match config {
            Config::V1 => r == Err::<String, AuthError>(AuthError::ConfigVersionError),
            Config::V2(s) => r matches Ok(b) && b@ == registration_json(
                s.registration_code@,
                s.agent_id@,
                s.email@,
            ),
        },
{
    match settings(config) {
        Ok(s) => Ok(registration_body(s)),
        Err(e) => Err(e),
    }
}

} // verus!
