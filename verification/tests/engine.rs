//! Token-endpoint tests: the authorization-code scenario, refresh
//! rotation, client credentials, and the error answers.

use aip::authn::{RequestHeaders, TokenForm};
use aip::errors::ErrorKind;
use aip::grants::process_token_request;
use aip::model::{AuthRequest, ClientAuthMethod, RefreshToken};
use aip::pkce::{generate_code_challenge, PkceMethod};
use aip::registration::ClientRegistrationService;
use aip::store::{MemoryStore, OAuthStorage};

const ENDPOINT: &str = "https://aip.example/oauth/token";

fn public_client(store: &mut MemoryStore, id: &str) {
    let svc = ClientRegistrationService::new(86400, 1209600, true);
    svc.register_client(
        store,
        id.to_string(),
        ClientAuthMethod::Public,
        None,
        Vec::new(),
        vec!["read".to_string(), "write".to_string()],
    );
}

fn secret_client(store: &mut MemoryStore, id: &str, secret: &str) {
    let svc = ClientRegistrationService::new(3600, 7200, true);
    svc.register_client(
        store,
        id.to_string(),
        ClientAuthMethod::Secret,
        Some(secret.to_string()),
        Vec::new(),
        vec!["read".to_string()],
    );
}

fn code_form(client_id: &str, code: &str, verifier: Option<&str>) -> TokenForm {
    TokenForm {
        grant_type: "authorization_code".to_string(),
        code: Some(code.to_string()),
        redirect_uri: None,
        client_id: Some(client_id.to_string()),
        client_secret: None,
        client_assertion: None,
        client_assertion_type: None,
        code_verifier: verifier.map(|v| v.to_string()),
        scope: None,
        refresh_token: None,
        device_code: None,
    }
}

#[test]
fn authorization_code_scenario_single_redeem() {
    // A public client registers, an authorization request stores code
    // "abc" with the S256 challenge of "verifier123"; the first exchange
    // succeeds, the identical second one answers invalid_grant.
    let mut store = MemoryStore::new();
    public_client(&mut store, "c1");
    let challenge = generate_code_challenge("verifier123");
    store.put_authorization_request(AuthRequest {
        code: "abc".to_string(),
        client_id: "c1".to_string(),
        redirect_uri: None,
        pkce_challenge: Some(challenge),
        pkce_method: PkceMethod::S256,
        scope: Some("read".to_string()),
        user_id: Some("did:plc:alice".to_string()),
        expires_at: 1000,
    });
    let headers = RequestHeaders::empty();
    let form = code_form("c1", "abc", Some("verifier123"));
    let first = process_token_request(&mut store, &headers, &form, None, ENDPOINT, None, 10).unwrap();
    assert!(!first.access_token.is_empty());
    assert_eq!(first.access_token.len(), 43);
    assert_eq!(first.token_type, "Bearer");
    assert_eq!(first.expires_in, Some(86400));
    assert_eq!(first.scope.as_deref(), Some("read"));
    assert!(first.refresh_token.is_some());

    let second = process_token_request(&mut store, &headers, &form, None, ENDPOINT, None, 11);
    let err = second.unwrap_err();
    assert_eq!(err, ErrorKind::InvalidGrant);
    assert_eq!(err.code(), "invalid_grant");
    assert_eq!(err.status(), 400);
}

#[test]
fn authorization_code_wrong_verifier_fails_and_consumes() {
    let mut store = MemoryStore::new();
    public_client(&mut store, "c1");
    let challenge = generate_code_challenge("verifier123");
    store.put_authorization_request(AuthRequest {
        code: "abc".to_string(),
        client_id: "c1".to_string(),
        redirect_uri: None,
        pkce_challenge: Some(challenge),
        pkce_method: PkceMethod::S256,
        scope: None,
        user_id: None,
        expires_at: 1000,
    });
    let headers = RequestHeaders::empty();
    let bad = code_form("c1", "abc", Some("verifier124"));
    let r = process_token_request(&mut store, &headers, &bad, None, ENDPOINT, None, 10);
    assert_eq!(r.unwrap_err(), ErrorKind::InvalidGrant);
    // the failed attempt consumed the code: a correct retry finds nothing
    let good = code_form("c1", "abc", Some("verifier123"));
    let r2 = process_token_request(&mut store, &headers, &good, None, ENDPOINT, None, 10);
    assert_eq!(r2.unwrap_err(), ErrorKind::InvalidGrant);
}

#[test]
fn authorization_code_expired_is_invalid_grant() {
    let mut store = MemoryStore::new();
    public_client(&mut store, "c1");
    store.put_authorization_request(AuthRequest {
        code: "old".to_string(),
        client_id: "c1".to_string(),
        redirect_uri: None,
        pkce_challenge: None,
        pkce_method: PkceMethod::Plain,
        scope: None,
        user_id: None,
        expires_at: 5,
    });
    let headers = RequestHeaders::empty();
    let form = code_form("c1", "old", None);
    let r = process_token_request(&mut store, &headers, &form, None, ENDPOINT, None, 5);
    assert_eq!(r.unwrap_err(), ErrorKind::InvalidGrant);
}

#[test]
fn authorization_code_of_other_client_is_invalid_grant() {
    let mut store = MemoryStore::new();
    public_client(&mut store, "c1");
    public_client(&mut store, "c2");
    store.put_authorization_request(AuthRequest {
        code: "abc".to_string(),
        client_id: "c1".to_string(),
        redirect_uri: None,
        pkce_challenge: None,
        pkce_method: PkceMethod::Plain,
        scope: None,
        user_id: None,
        expires_at: 1000,
    });
    let headers = RequestHeaders::empty();
    let form = code_form("c2", "abc", None);
    let r = process_token_request(&mut store, &headers, &form, None, ENDPOINT, None, 10);
    assert_eq!(r.unwrap_err(), ErrorKind::InvalidGrant);
}

#[test]
fn refresh_token_rotates_and_old_token_dies() {
    let mut store = MemoryStore::new();
    public_client(&mut store, "c1");
    store.put_refresh_token(RefreshToken {
        token: "r-old".to_string(),
        client_id: "c1".to_string(),
        user_id: Some("did:plc:alice".to_string()),
        scope: Some("read".to_string()),
        expires_at: 1000,
    });
    let headers = RequestHeaders::empty();
    let mut form = TokenForm {
        grant_type: "refresh_token".to_string(),
        code: None,
        redirect_uri: None,
        client_id: Some("c1".to_string()),
        client_secret: None,
        client_assertion: None,
        client_assertion_type: None,
        code_verifier: None,
        scope: None,
        refresh_token: Some("r-old".to_string()),
        device_code: None,
    };
    let first = process_token_request(&mut store, &headers, &form, None, ENDPOINT, None, 10).unwrap();
    let new_refresh = first.refresh_token.clone().unwrap();
    assert_ne!(new_refresh, "r-old");
    // the old refresh token was consumed by rotation
    let again = process_token_request(&mut store, &headers, &form, None, ENDPOINT, None, 11);
    assert_eq!(again.unwrap_err(), ErrorKind::InvalidGrant);
    // the rotated token works
    form.refresh_token = Some(new_refresh);
    let second = process_token_request(&mut store, &headers, &form, None, ENDPOINT, None, 12);
    assert!(second.is_ok());
}

#[test]
fn refresh_token_of_other_client_is_invalid_grant() {
    let mut store = MemoryStore::new();
    public_client(&mut store, "c1");
    public_client(&mut store, "c2");
    store.put_refresh_token(RefreshToken {
        token: "r1".to_string(),
        client_id: "c1".to_string(),
        user_id: None,
        scope: None,
        expires_at: 1000,
    });
    let headers = RequestHeaders::empty();
    let form = TokenForm {
        grant_type: "refresh_token".to_string(),
        code: None,
        redirect_uri: None,
        client_id: Some("c2".to_string()),
        client_secret: None,
        client_assertion: None,
        client_assertion_type: None,
        code_verifier: None,
        scope: None,
        refresh_token: Some("r1".to_string()),
        device_code: None,
    };
    let r = process_token_request(&mut store, &headers, &form, None, ENDPOINT, None, 10);
    assert_eq!(r.unwrap_err(), ErrorKind::InvalidGrant);
}

#[test]
fn client_credentials_needs_strong_auth() {
    let mut store = MemoryStore::new();
    public_client(&mut store, "pub");
    secret_client(&mut store, "conf", "s3cr3t");
    let headers = RequestHeaders::empty();
    let mut form = TokenForm {
        grant_type: "client_credentials".to_string(),
        code: None,
        redirect_uri: None,
        client_id: Some("pub".to_string()),
        client_secret: None,
        client_assertion: None,
        client_assertion_type: None,
        code_verifier: None,
        scope: None,
        refresh_token: None,
        device_code: None,
    };
    let r = process_token_request(&mut store, &headers, &form, None, ENDPOINT, None, 10);
    assert_eq!(r.unwrap_err(), ErrorKind::UnauthorizedClient);

    form.client_id = Some("conf".to_string());
    form.client_secret = Some("s3cr3t".to_string());
    let ok = process_token_request(&mut store, &headers, &form, None, ENDPOINT, None, 10).unwrap();
    assert!(ok.refresh_token.is_none());
    assert_eq!(ok.expires_in, Some(3600));
}

#[test]
fn client_credentials_rejects_foreign_scope() {
    let mut store = MemoryStore::new();
    secret_client(&mut store, "conf", "pw");
    let headers = RequestHeaders::empty();
    let form = TokenForm {
        grant_type: "client_credentials".to_string(),
        code: None,
        redirect_uri: None,
        client_id: Some("conf".to_string()),
        client_secret: Some("pw".to_string()),
        client_assertion: None,
        client_assertion_type: None,
        code_verifier: None,
        scope: Some("read admin".to_string()),
        refresh_token: None,
        device_code: None,
    };
    let r = process_token_request(&mut store, &headers, &form, None, ENDPOINT, None, 10);
    let e = r.unwrap_err();
    assert_eq!(e, ErrorKind::InvalidScope);
    assert_eq!(e.code(), "invalid_scope");
}

#[test]
fn unsupported_grant_type_is_refused() {
    let mut store = MemoryStore::new();
    public_client(&mut store, "c1");
    let headers = RequestHeaders::empty();
    let form = TokenForm {
        grant_type: "password".to_string(),
        code: None,
        redirect_uri: None,
        client_id: Some("c1".to_string()),
        client_secret: None,
        client_assertion: None,
        client_assertion_type: None,
        code_verifier: None,
        scope: None,
        refresh_token: None,
        device_code: None,
    };
    let r = process_token_request(&mut store, &headers, &form, None, ENDPOINT, None, 10);
    let e = r.unwrap_err();
    assert_eq!(e, ErrorKind::UnsupportedGrantType);
    assert_eq!(e.code(), "unsupported_grant_type");
    assert_eq!(e.status(), 400);
}

#[test]
fn missing_authentication_is_invalid_client() {
    let mut store = MemoryStore::new();
    let headers = RequestHeaders::empty();
    let form = TokenForm {
        grant_type: "authorization_code".to_string(),
        code: Some("abc".to_string()),
        redirect_uri: None,
        client_id: None,
        client_secret: None,
        client_assertion: None,
        client_assertion_type: None,
        code_verifier: None,
        scope: None,
        refresh_token: None,
        device_code: None,
    };
    let r = process_token_request(&mut store, &headers, &form, None, ENDPOINT, None, 10);
    let e = r.unwrap_err();
    assert_eq!(e, ErrorKind::InvalidClient);
    assert_eq!(e.status(), 401);
}

#[test]
fn missing_code_parameter_is_invalid_request() {
    let mut store = MemoryStore::new();
    public_client(&mut store, "c1");
    let headers = RequestHeaders::empty();
    let form = TokenForm {
        grant_type: "authorization_code".to_string(),
        code: None,
        redirect_uri: None,
        client_id: Some("c1".to_string()),
        client_secret: None,
        client_assertion: None,
        client_assertion_type: None,
        code_verifier: None,
        scope: None,
        refresh_token: None,
        device_code: None,
    };
    let r = process_token_request(&mut store, &headers, &form, None, ENDPOINT, None, 10);
    let e = r.unwrap_err();
    assert_eq!(e, ErrorKind::InvalidRequest);
    assert_eq!(e.code(), "invalid_request");
}

#[test]
fn redirect_uri_must_match_exactly() {
    let mut store = MemoryStore::new();
    public_client(&mut store, "c1");
    store.put_authorization_request(AuthRequest {
        code: "abc".to_string(),
        client_id: "c1".to_string(),
        redirect_uri: Some("https://app.example/cb".to_string()),
        pkce_challenge: None,
        pkce_method: PkceMethod::Plain,
        scope: None,
        user_id: None,
        expires_at: 1000,
    });
    let headers = RequestHeaders::empty();
    let mut form = code_form("c1", "abc", None);
    form.redirect_uri = Some("https://evil.example/cb".to_string());
    let r = process_token_request(&mut store, &headers, &form, None, ENDPOINT, None, 10);
    assert_eq!(r.unwrap_err(), ErrorKind::InvalidGrant);
}

#[test]
fn server_error_kind_maps_to_500() {
    // the in-memory backend cannot fail transiently, so the kind is
    // exercised on its own
    assert_eq!(ErrorKind::ServerError.code(), "server_error");
    assert_eq!(ErrorKind::ServerError.status(), 500);
    assert_eq!(ErrorKind::InvalidClient.status(), 401);
    assert_eq!(ErrorKind::UnauthorizedClient.code(), "unauthorized_client");
}

#[test]
fn dpop_thumbprint_is_bound_to_the_minted_token() {
    let mut store = MemoryStore::new();
    public_client(&mut store, "c1");
    store.put_authorization_request(AuthRequest {
        code: "abc".to_string(),
        client_id: "c1".to_string(),
        redirect_uri: None,
        pkce_challenge: None,
        pkce_method: PkceMethod::Plain,
        scope: None,
        user_id: None,
        expires_at: 1000,
    });
    let headers = RequestHeaders::empty();
    let form = code_form("c1", "abc", None);
    let jkt = "thumbprint-1".to_string();
    let ok = process_token_request(&mut store, &headers, &form, None, ENDPOINT, Some(jkt), 10)
        .unwrap();
    let stored = store.get_token(&ok.access_token).unwrap();
    assert_eq!(stored.dpop_jkt.as_deref(), Some("thumbprint-1"));
    assert_eq!(stored.client_id, "c1");
    assert_eq!(stored.issued_at, 10);
    assert_eq!(stored.expires_at, 10 + 86400);
}

#[test]
fn error_descriptions_are_generic_and_human_readable() {
    assert_eq!(
        ErrorKind::InvalidClient.description(),
        "Client authentication failed"
    );
    assert_eq!(
        ErrorKind::AuthorizationPending.description(),
        "Authorization pending"
    );
    assert_eq!(ErrorKind::ServerError.description(), "Internal server error");
}
