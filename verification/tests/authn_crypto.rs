//! Authenticator and crypto tests: Basic-header precedence, PKCE, token
//! generation and the DPoP nonce window.

use aip::authn::{authenticate_client, AssertionClaims, Header, RequestHeaders, TokenForm};
use aip::dpop::DpopNonceProvider;
use aip::model::ClientAuthMethod;
use aip::pkce::{generate_code_challenge, generate_code_verifier, verify_code_challenge, PkceMethod};
use aip::registration::ClientRegistrationService;
use aip::store::MemoryStore;
use base64::Engine;

const ENDPOINT: &str = "https://aip.example/oauth/token";

fn setup() -> MemoryStore {
    let mut store = MemoryStore::new();
    let svc = ClientRegistrationService::new(3600, 7200, true);
    svc.register_client(
        &mut store,
        "pub".to_string(),
        ClientAuthMethod::Public,
        None,
        Vec::new(),
        Vec::new(),
    );
    svc.register_client(
        &mut store,
        "conf".to_string(),
        ClientAuthMethod::Secret,
        Some("hunter2".to_string()),
        Vec::new(),
        Vec::new(),
    );
    svc.register_client(
        &mut store,
        "jwt".to_string(),
        ClientAuthMethod::PrivateKeyJwt,
        None,
        Vec::new(),
        Vec::new(),
    );
    store
}

fn bare_form() -> TokenForm {
    TokenForm {
        grant_type: "client_credentials".to_string(),
        code: None,
        redirect_uri: None,
        client_id: None,
        client_secret: None,
        client_assertion: None,
        client_assertion_type: None,
        code_verifier: None,
        scope: None,
        refresh_token: None,
        device_code: None,
    }
}

fn basic_headers(user: &str, pass: &str) -> RequestHeaders {
    let encoded = base64::prelude::BASE64_STANDARD.encode(format!("{}:{}", user, pass));
    RequestHeaders {
        headers: vec![Header { name: "authorization".to_string(), value: format!("Basic {}", encoded) }],
    }
}

#[test]
fn basic_header_authenticates_secret_client() {
    let store = setup();
    let headers = basic_headers("conf", "hunter2");
    let a = authenticate_client(&store, &headers, &bare_form(), None, ENDPOINT, 10).unwrap();
    assert_eq!(a.client_id, "conf");
    assert_eq!(a.method, ClientAuthMethod::Secret);
}

#[test]
fn basic_header_fails_closed_on_wrong_secret() {
    let store = setup();
    let headers = basic_headers("conf", "wrong");
    assert!(authenticate_client(&store, &headers, &bare_form(), None, ENDPOINT, 10).is_none());
}

#[test]
fn basic_header_fails_closed_on_bad_base64() {
    let store = setup();
    let headers = RequestHeaders {
        headers: vec![Header {
            name: "authorization".to_string(),
            value: "Basic $$$not-base64$$$".to_string(),
        }],
    };
    assert!(authenticate_client(&store, &headers, &bare_form(), None, ENDPOINT, 10).is_none());
}

#[test]
fn basic_header_wins_over_form_fields() {
    // the body claims the public client; the header must decide
    let store = setup();
    let headers = basic_headers("conf", "hunter2");
    let mut form = bare_form();
    form.client_id = Some("pub".to_string());
    let a = authenticate_client(&store, &headers, &form, None, ENDPOINT, 10).unwrap();
    assert_eq!(a.client_id, "conf");
}

#[test]
fn form_fields_authenticate_public_and_secret_clients() {
    let store = setup();
    let headers = RequestHeaders::empty();
    let mut form = bare_form();
    form.client_id = Some("pub".to_string());
    let a = authenticate_client(&store, &headers, &form, None, ENDPOINT, 10).unwrap();
    assert_eq!(a.method, ClientAuthMethod::Public);

    form.client_id = Some("conf".to_string());
    // a public-style request against a confidential client fails closed
    assert!(authenticate_client(&store, &headers, &form, None, ENDPOINT, 10).is_none());
    form.client_secret = Some("hunter2".to_string());
    let b = authenticate_client(&store, &headers, &form, None, ENDPOINT, 10).unwrap();
    assert_eq!(b.method, ClientAuthMethod::Secret);
}

#[test]
fn client_assertion_checks_signature_audience_and_expiry() {
    let store = setup();
    let headers = RequestHeaders::empty();
    let mut form = bare_form();
    form.client_assertion = Some("raw.jwt.text".to_string());
    form.client_assertion_type =
        Some("urn:ietf:params:oauth:client-assertion-type:jwt-bearer".to_string());
    let good = AssertionClaims {
        iss: "jwt".to_string(),
        aud: ENDPOINT.to_string(),
        exp: 100,
        signature_valid: true,
    };
    let a = authenticate_client(&store, &headers, &form, Some(&good), ENDPOINT, 10).unwrap();
    assert_eq!(a.client_id, "jwt");
    assert_eq!(a.method, ClientAuthMethod::PrivateKeyJwt);

    let bad_sig = AssertionClaims { signature_valid: false, ..good.clone() };
    assert!(authenticate_client(&store, &headers, &form, Some(&bad_sig), ENDPOINT, 10).is_none());
    let bad_aud = AssertionClaims { aud: "https://other".to_string(), ..good.clone() };
    assert!(authenticate_client(&store, &headers, &form, Some(&bad_aud), ENDPOINT, 10).is_none());
    let expired = AssertionClaims { exp: 9, ..good.clone() };
    assert!(authenticate_client(&store, &headers, &form, Some(&expired), ENDPOINT, 10).is_none());
    // assertion fields present but nothing parsed: fails closed
    assert!(authenticate_client(&store, &headers, &form, None, ENDPOINT, 10).is_none());
}

#[test]
fn s256_challenge_matches_known_digest() {
    // SHA-256 of the empty string, base64url without padding
    assert_eq!(
        generate_code_challenge(""),
        "47DEQpj8HBSa-_TImW-5JCeuQeRkm5NMpJWZG3hSuFU"
    );
}

#[test]
fn s256_verification_succeeds_iff_challenge_matches() {
    let challenge = generate_code_challenge("verifier123");
    assert!(verify_code_challenge(PkceMethod::S256, "verifier123", &challenge));
    // any single-byte mutation of the verifier must fail
    assert!(!verify_code_challenge(PkceMethod::S256, "verifier124", &challenge));
    assert!(!verify_code_challenge(PkceMethod::S256, "Verifier123", &challenge));
    assert!(!verify_code_challenge(PkceMethod::S256, "verifier12", &challenge));
}

#[test]
fn plain_verification_is_literal_comparison() {
    assert!(verify_code_challenge(PkceMethod::Plain, "abc", "abc"));
    assert!(!verify_code_challenge(PkceMethod::Plain, "abc", "abd"));
}

#[test]
fn code_verifier_is_43_urlsafe_characters() {
    let v = generate_code_verifier();
    assert_eq!(v.len(), 43);
    assert!(v.bytes().all(|b| b.is_ascii_alphanumeric() || b == b'-' || b == b'_'));
    // two draws almost surely differ
    assert_ne!(v, generate_code_verifier());
}

#[test]
fn dpop_nonces_are_deterministic_per_window() {
    let a = DpopNonceProvider::new("seed".to_string(), 1, 60);
    let b = DpopNonceProvider::new("seed".to_string(), 1, 60);
    // replicas with the same seed agree without coordination
    assert_eq!(a.issue_nonce(130), b.issue_nonce(140));
    assert_eq!(a.issue_nonce(130).len(), 43);
    // another window, generation or seed gives another nonce
    assert_ne!(a.issue_nonce(130), a.issue_nonce(190));
    let c = DpopNonceProvider::new("seed".to_string(), 2, 60);
    assert_ne!(a.issue_nonce(130), c.issue_nonce(130));
    let d = DpopNonceProvider::new("other".to_string(), 1, 60);
    assert_ne!(a.issue_nonce(130), d.issue_nonce(130));
}

#[test]
fn dpop_validation_accepts_current_and_previous_window_only() {
    let p = DpopNonceProvider::new("seed".to_string(), 1, 60);
    let old = p.issue_nonce(10);  // window 0
    let prev = p.issue_nonce(70);  // window 1
    let cur = p.issue_nonce(130);  // window 2
    assert!(p.validate_nonce(&cur, 130));
    assert!(p.validate_nonce(&prev, 130));
    // outside the replay window, or malformed: rejected
    assert!(!p.validate_nonce(&old, 130));
    assert!(!p.validate_nonce("garbage", 130));
}
