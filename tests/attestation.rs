use hpos_auth::{
    challenge_body, challenge_outcome, challenge_verdict, registration_body, registration_outcome,
    registration_request,
    settings, AuthError, Config, HostSettings, Registration, Rejection,
};

fn host() -> HostSettings {
    HostSettings {
        email: "admin@example.com".to_string(),
        registration_code: "reg-123".to_string(),
        agent_id: "5m5srup6m3b2iilrsqmxu6ydp8p8cr0rdbh4wamupk3s4sxqr5".to_string(),
    }
}

#[test]
fn v1_config_is_a_version_error() {
    let config = Config::V1;
    assert!(matches!(settings(&config), Err(AuthError::ConfigVersionError)));
}

#[test]
fn v2_config_gives_its_settings() {
    let config = Config::V2(host());
    let s = settings(&config).ok().unwrap();
    assert_eq!(s.email, "admin@example.com");
    assert_eq!(s.registration_code, "reg-123");
}

#[test]
fn version_error_has_a_message() {
    assert_eq!(
        AuthError::ConfigVersionError.message(),
        "Invalid config version used. please upgrade to hpos-config v2"
    );
    assert_eq!(AuthError::ErrorStatus.message(), "the service answered with an error status");
    assert_eq!(AuthError::MalformedResponse.message(), "the service reply could not be read");
}

#[test]
fn challenge_body_has_the_three_fields() {
    let body = challenge_body(&host(), "a1b2c3d4e5");
    assert_eq!(
        body,
        "{\"email\":\"admin@example.com\",\"holochain_agent_id\":\"5m5srup6m3b2iilrsqmxu6ydp8p8cr0rdbh4wamupk3s4sxqr5\",\"zerotier_address\":\"a1b2c3d4e5\"}"
    );
}

#[test]
fn challenge_body_escapes_its_strings() {
    let mut h = host();
    h.email = "a\"b\\c".to_string();
    let body = challenge_body(&h, "x");
    assert!(body.starts_with("{\"email\":\"a\\\"b\\\\c\","));
}

#[test]
fn challenge_body_escapes_control_characters() {
    let mut h = host();
    h.email = "\u{8}\t\n\u{c}\r\u{1}\u{1f}/é".to_string();
    let body = challenge_body(&h, "x");
    assert!(body.starts_with("{\"email\":\"\\b\\t\\n\\f\\r\\u0001\\u001f/é\","));
}

#[test]
fn registration_body_has_role_host() {
    let body = registration_body(&host());
    assert_eq!(
        body,
        "{\"registration_code\":\"reg-123\",\"agent_pub_key\":\"5m5srup6m3b2iilrsqmxu6ydp8p8cr0rdbh4wamupk3s4sxqr5\",\"email\":\"admin@example.com\",\"role\":\"host\"}"
    );
}

#[test]
fn challenge_message_id_is_read() {
    let r = challenge_outcome(true, Some("11111111-1111-1111-1111-111111111111".to_string()));
    assert_eq!(r, Ok(0x11111111_1111_1111_1111_111111111111u128));
}

#[test]
fn challenge_error_status_fails() {
    let r = challenge_outcome(false, Some("11111111-1111-1111-1111-111111111111".to_string()));
    assert_eq!(r, Err(AuthError::ErrorStatus));
}

#[test]
fn challenge_bad_message_id_fails() {
    assert_eq!(challenge_outcome(true, Some("not-a-uuid".to_string())), Err(AuthError::MalformedResponse));
    assert_eq!(challenge_outcome(true, None), Err(AuthError::MalformedResponse));
}

#[test]
fn challenge_verdict_takes_the_parsed_id() {
    assert_eq!(challenge_verdict(true, Some(7)), Ok(7));
    assert_eq!(challenge_verdict(true, None), Err(AuthError::MalformedResponse));
    assert_eq!(challenge_verdict(false, Some(7)), Err(AuthError::ErrorStatus));
}

#[test]
fn registration_success_needs_an_acknowledgment() {
    match registration_outcome(true, Some("proof".to_string()), None) {
        Ok(Registration::Acknowledged { mem_proof }) => assert_eq!(mem_proof, "proof"),
        _ => panic!("expected an acknowledgment"),
    }
    assert!(matches!(registration_outcome(true, None, None), Err(AuthError::MalformedResponse)));
}

#[test]
fn registration_rejection_is_handled() {
    let rejection = Rejection { error: "duplicate".to_string(), info: "already registered".to_string() };
    match registration_outcome(false, None, Some(rejection)) {
        Ok(Registration::Rejected(e)) => {
            assert_eq!(e.error, "duplicate");
            assert_eq!(e.info, "already registered");
        },
        _ => panic!("expected a handled rejection"),
    }
    assert!(matches!(registration_outcome(false, Some("p".to_string()), None), Err(AuthError::MalformedResponse)));
}

#[test]
fn registration_request_guards_the_version() {
    assert_eq!(registration_request(&Config::V1), Err(AuthError::ConfigVersionError));
    let body = registration_request(&Config::V2(host())).ok().unwrap();
    assert_eq!(body, registration_body(&host()));
    assert!(body.ends_with(",\"role\":\"host\"}"));
}
