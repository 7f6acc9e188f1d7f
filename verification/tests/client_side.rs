//! Client-side tests: the polling state machine, the stored-credential
//! decision, and the request builders.

use aip::client_flow::{
    build_request_headers, device_token_request, evaluate_stored_auth, poll_step, refresh_params,
    token_exchange_params, AuthData, AuthDecision, PollDecision, PollEvent, PollFailure,
    TokenError, TokenResponse,
};

fn refused(error: &str, description: Option<&str>) -> PollEvent {
    PollEvent::Refused(TokenError {
        error: error.to_string(),
        error_description: description.map(|d| d.to_string()),
    })
}

#[test]
fn poll_step_finishes_on_tokens() {
    let tokens = TokenResponse {
        access_token: "at".to_string(),
        expires_in: Some(3600),
        refresh_token: None,
    };
    match poll_step(5, PollEvent::Tokens(tokens)) {
        PollDecision::Finish(t) => assert_eq!(t.access_token, "at"),
        _ => panic!("expected tokens"),
    }
}

#[test]
fn poll_step_keeps_polling_while_pending() {
    assert!(matches!(
        poll_step(7, refused("authorization_pending", None)),
        PollDecision::Retry(7)
    ));
    // the interval is floored at five seconds
    assert!(matches!(
        poll_step(1, refused("authorization_pending", None)),
        PollDecision::Retry(5)
    ));
}

#[test]
fn poll_step_backs_off_on_slow_down() {
    assert!(matches!(poll_step(5, refused("slow_down", None)), PollDecision::Retry(10)));
    assert!(matches!(poll_step(30, refused("slow_down", None)), PollDecision::Retry(35)));
}

#[test]
fn poll_step_stops_on_terminal_answers() {
    assert!(matches!(
        poll_step(5, refused("access_denied", None)),
        PollDecision::Fail(PollFailure::Denied)
    ));
    assert!(matches!(
        poll_step(5, refused("expired_token", None)),
        PollDecision::Fail(PollFailure::Expired)
    ));
    assert!(matches!(
        poll_step(5, refused("invalid_grant", None)),
        PollDecision::Fail(PollFailure::Failed)
    ));
    assert!(matches!(poll_step(5, PollEvent::Unreadable(502)), PollDecision::Fail(PollFailure::Failed)));
}

#[test]
fn poll_step_reads_pending_out_of_server_error() {
    assert!(matches!(
        poll_step(5, refused("server_error", Some("Authorization pending for device"))),
        PollDecision::Retry(5)
    ));
    assert!(matches!(
        poll_step(5, refused("server_error", Some("database on fire"))),
        PollDecision::Fail(PollFailure::Failed)
    ));
    assert!(matches!(
        poll_step(5, refused("server_error", None)),
        PollDecision::Fail(PollFailure::Failed)
    ));
}

fn auth(did: &str, token: &str, expires_at: Option<&str>, refresh: Option<&str>) -> AuthData {
    AuthData {
        did: did.to_string(),
        token: token.to_string(),
        expires_at: expires_at.map(|s| s.to_string()),
        refresh_token: refresh.map(|s| s.to_string()),
    }
}

#[test]
fn stored_auth_decisions() {
    // far-future expiry: usable as it stands
    let fresh = auth("did:plc:a", "tok", Some("2024-01-01T00:00:00Z"), Some("r"));
    assert_eq!(evaluate_stored_auth(&fresh, true, 1704000000), AuthDecision::Valid);
    // within the five-minute buffer: refresh when possible
    assert_eq!(evaluate_stored_auth(&fresh, true, 1704067000), AuthDecision::RefreshNeeded);
    // no client id configured: cannot refresh
    assert_eq!(evaluate_stored_auth(&fresh, false, 1704067000), AuthDecision::MustLogin);
    // no refresh token: log in again
    let no_refresh = auth("did:plc:a", "tok", Some("2024-01-01T00:00:00Z"), None);
    assert_eq!(evaluate_stored_auth(&no_refresh, true, 1704067000), AuthDecision::MustLogin);
    // empty fields: log in again
    assert_eq!(
        evaluate_stored_auth(&auth("", "tok", None, None), true, 0),
        AuthDecision::MustLogin
    );
    assert_eq!(
        evaluate_stored_auth(&auth("did:plc:a", "", None, None), true, 0),
        AuthDecision::MustLogin
    );
    // unreadable or absent expiry: try the token as it is
    assert_eq!(
        evaluate_stored_auth(&auth("did:plc:a", "tok", Some("garbage"), None), true, 0),
        AuthDecision::Valid
    );
    assert_eq!(
        evaluate_stored_auth(&auth("did:plc:a", "tok", None, None), true, 0),
        AuthDecision::Valid
    );
}

#[test]
fn exchange_params_carry_the_grant() {
    let ps = token_exchange_params(
        "c1".to_string(),
        "abc".to_string(),
        "https://app/cb".to_string(),
        "verifier123".to_string(),
    );
    let pairs: Vec<(&str, &str)> =
        ps.iter().map(|p| (p.name.as_str(), p.value.as_str())).collect();
    assert_eq!(
        pairs,
        vec![
            ("grant_type", "authorization_code"),
            ("code", "abc"),
            ("redirect_uri", "https://app/cb"),
            ("client_id", "c1"),
            ("code_verifier", "verifier123"),
        ]
    );
}

#[test]
fn refresh_params_carry_the_grant() {
    let ps = refresh_params("c1".to_string(), "r-old".to_string());
    let pairs: Vec<(&str, &str)> =
        ps.iter().map(|p| (p.name.as_str(), p.value.as_str())).collect();
    assert_eq!(
        pairs,
        vec![
            ("grant_type", "refresh_token"),
            ("refresh_token", "r-old"),
            ("client_id", "c1"),
        ]
    );
}

#[test]
fn device_token_request_uses_the_device_grant() {
    let r = device_token_request("c1".to_string(), "dc".to_string());
    assert_eq!(r.grant_type, "urn:ietf:params:oauth:grant-type:device_code");
    assert_eq!(r.device_code, "dc");
    assert_eq!(r.client_id, "c1");
}

#[test]
fn request_headers_carry_token_and_content_type() {
    let token = "tok".to_string();
    let ct = "application/json".to_string();
    let hs = build_request_headers(Some(&token), Some(&ct));
    let pairs: Vec<(&str, &str)> =
        hs.iter().map(|h| (h.name.as_str(), h.value.as_str())).collect();
    assert_eq!(
        pairs,
        vec![
            ("accept", "application/json"),
            ("authorization", "Bearer tok"),
            ("content-type", "application/json"),
        ]
    );
    let bare = build_request_headers(None, None);
    assert_eq!(bare.len(), 1);
    assert_eq!(bare[0].name, "accept");
}
