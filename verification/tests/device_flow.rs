//! Device-flow tests (RFC 8628): initiation, rate limiting, pending and
//! denied answers, single redemption after approval, and expiry.

use aip::authn::{RequestHeaders, TokenForm};
use aip::device::{
    begin_device_authorization, decide_device_authorization, DeviceAuthorizationRequest,
    DevicePolicy,
};
use aip::errors::ErrorKind;
use aip::grants::process_token_request;
use aip::model::ClientAuthMethod;
use aip::registration::ClientRegistrationService;
use aip::store::MemoryStore;

const ENDPOINT: &str = "https://aip.example/oauth/token";

fn setup() -> MemoryStore {
    let mut store = MemoryStore::new();
    let svc = ClientRegistrationService::new(3600, 7200, true);
    svc.register_client(
        &mut store,
        "cli".to_string(),
        ClientAuthMethod::Public,
        None,
        Vec::new(),
        vec!["read".to_string()],
    );
    store
}

fn begin(store: &mut MemoryStore, now: u64) -> String {
    let req = DeviceAuthorizationRequest { client_id: "cli".to_string(), scope: None };
    let policy = DevicePolicy { expires_in: 600, interval: 5 };
    let resp = begin_device_authorization(
        store,
        &req,
        "https://aip.example/device".to_string(),
        &policy,
        now,
    )
    .unwrap();
    assert_eq!(resp.expires_in, 600);
    assert_eq!(resp.interval, Some(5));
    assert_eq!(resp.user_code.len(), 8);
    assert_eq!(resp.verification_uri, "https://aip.example/device");
    resp.device_code
}

fn poll_form(device_code: &str) -> TokenForm {
    TokenForm {
        grant_type: "urn:ietf:params:oauth:grant-type:device_code".to_string(),
        code: None,
        redirect_uri: None,
        client_id: Some("cli".to_string()),
        client_secret: None,
        client_assertion: None,
        client_assertion_type: None,
        code_verifier: None,
        scope: None,
        refresh_token: None,
        device_code: Some(device_code.to_string()),
    }
}

#[test]
fn polling_too_fast_is_slow_down() {
    let mut store = setup();
    let code = begin(&mut store, 0);
    let headers = RequestHeaders::empty();
    let r = process_token_request(&mut store, &headers, &poll_form(&code), None, ENDPOINT, None, 2);
    let e = r.unwrap_err();
    assert_eq!(e, ErrorKind::SlowDown);
    assert_eq!(e.code(), "slow_down");
}

#[test]
fn polling_pending_code_is_authorization_pending() {
    let mut store = setup();
    let code = begin(&mut store, 0);
    let headers = RequestHeaders::empty();
    let r = process_token_request(&mut store, &headers, &poll_form(&code), None, ENDPOINT, None, 6);
    let e = r.unwrap_err();
    assert_eq!(e, ErrorKind::AuthorizationPending);
    assert_eq!(e.code(), "authorization_pending");
    // the pending answer stamped the poll time: an immediate retry slows down
    let r2 = process_token_request(&mut store, &headers, &poll_form(&code), None, ENDPOINT, None, 8);
    assert_eq!(r2.unwrap_err(), ErrorKind::SlowDown);
}

#[test]
fn approval_mints_exactly_once() {
    let mut store = setup();
    let code = begin(&mut store, 0);
    let headers = RequestHeaders::empty();
    assert!(decide_device_authorization(
        &mut store,
        &code,
        true,
        Some("did:plc:alice".to_string())
    ));
    let ok = process_token_request(&mut store, &headers, &poll_form(&code), None, ENDPOINT, None, 6)
        .unwrap();
    assert_eq!(ok.access_token.len(), 43);
    assert!(ok.refresh_token.is_some());
    // the code was consumed with the first successful poll
    let again = process_token_request(&mut store, &headers, &poll_form(&code), None, ENDPOINT, None, 12);
    assert_eq!(again.unwrap_err(), ErrorKind::InvalidGrant);
}

#[test]
fn denial_is_access_denied_then_invalid_grant() {
    let mut store = setup();
    let code = begin(&mut store, 0);
    let headers = RequestHeaders::empty();
    assert!(decide_device_authorization(&mut store, &code, false, None));
    let r = process_token_request(&mut store, &headers, &poll_form(&code), None, ENDPOINT, None, 6);
    let e = r.unwrap_err();
    assert_eq!(e, ErrorKind::AccessDenied);
    assert_eq!(e.code(), "access_denied");
    // the dead code was consumed
    let r2 = process_token_request(&mut store, &headers, &poll_form(&code), None, ENDPOINT, None, 12);
    assert_eq!(r2.unwrap_err(), ErrorKind::InvalidGrant);
}

#[test]
fn expired_code_is_expired_token() {
    let mut store = setup();
    let code = begin(&mut store, 0);
    let headers = RequestHeaders::empty();
    let r = process_token_request(&mut store, &headers, &poll_form(&code), None, ENDPOINT, None, 600);
    let e = r.unwrap_err();
    assert_eq!(e, ErrorKind::ExpiredToken);
    assert_eq!(e.code(), "expired_token");
}

#[test]
fn unknown_device_code_is_invalid_grant() {
    let mut store = setup();
    let headers = RequestHeaders::empty();
    let r = process_token_request(&mut store, &headers, &poll_form("nope"), None, ENDPOINT, None, 6);
    assert_eq!(r.unwrap_err(), ErrorKind::InvalidGrant);
}

#[test]
fn initiation_rejects_unknown_client_and_foreign_scope() {
    let mut store = setup();
    let policy = DevicePolicy { expires_in: 600, interval: 5 };
    let req = DeviceAuthorizationRequest { client_id: "ghost".to_string(), scope: None };
    let e = begin_device_authorization(
        &mut store,
        &req,
        "https://aip.example/device".to_string(),
        &policy,
        0,
    )
    .unwrap_err();
    assert_eq!(e, ErrorKind::InvalidClient);

    let req2 = DeviceAuthorizationRequest {
        client_id: "cli".to_string(),
        scope: Some("read admin".to_string()),
    };
    let e2 = begin_device_authorization(
        &mut store,
        &req2,
        "https://aip.example/device".to_string(),
        &policy,
        0,
    )
    .unwrap_err();
    assert_eq!(e2, ErrorKind::InvalidScope);
}

#[test]
fn deciding_an_unknown_code_reports_absence() {
    let mut store = setup();
    assert!(!decide_device_authorization(&mut store, "nope", true, None));
}
