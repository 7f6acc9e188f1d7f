//! Revocation tests: silent success, idempotence, client binding, the
//! hint ordering, and the authentication gate.

use aip::authn::RequestHeaders;
use aip::errors::ErrorKind;
use aip::model::{AccessToken, ClientAuthMethod, RefreshToken};
use aip::registration::ClientRegistrationService;
use aip::revocation::{handle_revoke, RevokeRequest};
use aip::store::{MemoryStore, OAuthStorage};

const ENDPOINT: &str = "https://aip.example/oauth/token";

fn setup() -> MemoryStore {
    let mut store = MemoryStore::new();
    let svc = ClientRegistrationService::new(3600, 7200, true);
    svc.register_client(
        &mut store,
        "alpha".to_string(),
        ClientAuthMethod::Public,
        None,
        Vec::new(),
        Vec::new(),
    );
    svc.register_client(
        &mut store,
        "beta".to_string(),
        ClientAuthMethod::Public,
        None,
        Vec::new(),
        Vec::new(),
    );
    store.put_access_token(AccessToken {
        token: "at-alpha".to_string(),
        client_id: "alpha".to_string(),
        user_id: Some("did:plc:alice".to_string()),
        scope: None,
        issued_at: 0,
        expires_at: 1000,
        dpop_jkt: None,
    });
    store.put_refresh_token(RefreshToken {
        token: "rt-alpha".to_string(),
        client_id: "alpha".to_string(),
        user_id: Some("did:plc:alice".to_string()),
        scope: None,
        expires_at: 1000,
    });
    store
}

fn revoke_form(client: &str, token: &str, hint: Option<&str>) -> RevokeRequest {
    RevokeRequest {
        token: token.to_string(),
        token_type_hint: hint.map(|h| h.to_string()),
        client_id: Some(client.to_string()),
        client_secret: None,
        client_assertion: None,
        client_assertion_type: None,
    }
}

#[test]
fn revoking_nonexistent_token_is_silent_success() {
    let mut store = setup();
    let headers = RequestHeaders::empty();
    let r = handle_revoke(&mut store, &headers, &revoke_form("alpha", "nope", None), None, ENDPOINT, 1);
    assert!(r.is_ok());
}

#[test]
fn revoking_twice_is_silent_both_times() {
    let mut store = setup();
    let headers = RequestHeaders::empty();
    let form = revoke_form("alpha", "at-alpha", None);
    assert!(handle_revoke(&mut store, &headers, &form, None, ENDPOINT, 1).is_ok());
    assert!(store.get_token("at-alpha").is_none());
    // already revoked: still 200
    assert!(handle_revoke(&mut store, &headers, &form, None, ENDPOINT, 2).is_ok());
}

#[test]
fn revocation_by_other_client_leaves_token_valid() {
    // client binding: beta cannot revoke alpha's tokens, yet still gets 200
    let mut store = setup();
    let headers = RequestHeaders::empty();
    let r = handle_revoke(&mut store, &headers, &revoke_form("beta", "at-alpha", None), None, ENDPOINT, 1);
    assert!(r.is_ok());
    assert!(store.get_token("at-alpha").is_some());

    let r2 = handle_revoke(
        &mut store,
        &headers,
        &revoke_form("beta", "rt-alpha", Some("refresh_token")),
        None,
        ENDPOINT,
        1,
    );
    assert!(r2.is_ok());
    // the foreign refresh token was restored after inspection
    assert!(store.consume_refresh_token("rt-alpha").is_some());
}

#[test]
fn refresh_hint_revokes_refresh_token() {
    let mut store = setup();
    let headers = RequestHeaders::empty();
    let form = revoke_form("alpha", "rt-alpha", Some("refresh_token"));
    assert!(handle_revoke(&mut store, &headers, &form, None, ENDPOINT, 1).is_ok());
    assert!(store.consume_refresh_token("rt-alpha").is_none());
    // the access token with the other name is untouched
    assert!(store.get_token("at-alpha").is_some());
}

#[test]
fn wrong_hint_still_finds_token_in_other_map() {
    let mut store = setup();
    let headers = RequestHeaders::empty();
    // the hint says refresh, but the token is an access token
    let form = revoke_form("alpha", "at-alpha", Some("refresh_token"));
    assert!(handle_revoke(&mut store, &headers, &form, None, ENDPOINT, 1).is_ok());
    assert!(store.get_token("at-alpha").is_none());
}

#[test]
fn unknown_hint_is_unsupported_token_type() {
    let mut store = setup();
    let headers = RequestHeaders::empty();
    let form = revoke_form("alpha", "at-alpha", Some("id_token"));
    let e = handle_revoke(&mut store, &headers, &form, None, ENDPOINT, 1).unwrap_err();
    assert_eq!(e, ErrorKind::UnsupportedTokenType);
    assert_eq!(e.code(), "unsupported_token_type");
    assert_eq!(e.status(), 400);
    // rejected before any lookup: the token is still there
    assert!(store.get_token("at-alpha").is_some());
}

#[test]
fn missing_client_auth_is_invalid_client() {
    let mut store = setup();
    let headers = RequestHeaders::empty();
    let form = RevokeRequest {
        token: "at-alpha".to_string(),
        token_type_hint: None,
        client_id: None,
        client_secret: None,
        client_assertion: None,
        client_assertion_type: None,
    };
    let e = handle_revoke(&mut store, &headers, &form, None, ENDPOINT, 1).unwrap_err();
    assert_eq!(e, ErrorKind::InvalidClient);
    assert_eq!(e.status(), 401);
}

#[test]
fn unknown_client_is_invalid_client() {
    let mut store = setup();
    let headers = RequestHeaders::empty();
    let form = revoke_form("ghost", "at-alpha", None);
    let e = handle_revoke(&mut store, &headers, &form, None, ENDPOINT, 1).unwrap_err();
    assert_eq!(e, ErrorKind::InvalidClient);
}
