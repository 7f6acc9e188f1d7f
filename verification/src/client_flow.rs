//! The protocol logic of the command-line client: the device-flow polling
//! state machine, the stored-credential expiry decision, and the builders
//! for the requests the client sends.  The surrounding application does
//! the HTTP, file and terminal work and feeds events in as plain values.

use vstd::prelude::*;
use crate::authn::{Header, HeaderV};
use crate::text::{concat2, contains_substr, sat_add, spec_contains_substr, spec_opt_str, spec_sat_add, str_eq};

verus! {

/// A request for a device-code token poll.
#[derive(Clone, Debug)]
pub struct DeviceTokenRequest {
    pub grant_type: String,
    pub device_code: String,
    pub client_id: String,
}

/// A token-endpoint success body, as the client reads it.
#[derive(Clone, Debug)]
pub struct TokenResponse {
    pub access_token: String,
    pub expires_in: Option<u64>,
    pub refresh_token: Option<String>,
}

/// The mathematical view of a [`TokenResponse`].
#[verifier::ext_equal]
pub struct TokenResponseV {
    pub access_token: Seq<char>,
    pub expires_in: Option<u64>,
    pub refresh_token: Option<Seq<char>>,
}

impl View for TokenResponse {
    type V = TokenResponseV;

    open spec fn view(&self) -> TokenResponseV {
        TokenResponseV {
            access_token: self.access_token@,
            expires_in: self.expires_in,
            refresh_token: self.refresh_token.deep_view(),
        }
    }
}

/// A token-endpoint error body, as the client reads it.
#[derive(Clone, Debug)]
pub struct TokenError {
    pub error: String,
    pub error_description: Option<String>,
}

/// The mathematical view of a [`TokenError`].
#[verifier::ext_equal]
pub struct TokenErrorV {
    pub error: Seq<char>,
    pub error_description: Option<Seq<char>>,
}

impl View for TokenError {
    type V = TokenErrorV;

    open spec fn view(&self) -> TokenErrorV {
        TokenErrorV {
            error: self.error@,
            error_description: self.error_description.deep_view(),
        }
    }
}

/// The body of the answer an authorization-code exchange parses.
#[derive(Clone, Debug)]
pub struct TokenExchangeResponse {
    pub access_token: String,
    pub expires_in: Option<u64>,
    pub refresh_token: Option<String>,
}

/// The body of the userinfo answer.
#[derive(Clone, Debug)]
pub struct UserInfoResponse {
    pub sub: String,
}

/// An ATProtocol session answer; only the token fields matter here.
#[derive(Clone, Debug)]
pub struct AtpSessionResponse {
    pub did: String,
    pub access_token: String,
    pub expires_at: i64,
}

/// Build the poll request for a device code.
pub fn device_token_request(client_id: String, device_code: String) -> (r: DeviceTokenRequest)
    ensures
        r.grant_type@ == "urn:ietf:params:oauth:grant-type:device_code"@,
        r.device_code == device_code,
        r.client_id == client_id,
{
    DeviceTokenRequest {
        grant_type: "urn:ietf:params:oauth:grant-type:device_code".to_owned(),
        device_code,
        client_id,
    }
}

/// What one poll of the token endpoint came back with.
#[derive(Clone, Debug)]
pub enum PollEvent {
    /// The endpoint answered success with a token body.
    Tokens(TokenResponse),
    /// The endpoint answered an OAuth error body.
    Refused(TokenError),
    /// The endpoint answered the given HTTP status with an unreadable body.
    Unreadable(u16),
}

/// The mathematical view of a [`PollEvent`].
#[verifier::ext_equal]
pub enum PollEventV {
    Tokens(TokenResponseV),
    Refused(TokenErrorV),
    Unreadable(u16),
}

impl View for PollEvent {
    type V = PollEventV;

    open spec fn view(&self) -> PollEventV {
        match self {
            PollEvent::Tokens(t) => PollEventV::Tokens(t@),
            PollEvent::Refused(e) => PollEventV::Refused(e@),
            PollEvent::Unreadable(s) => PollEventV::Unreadable(*s),
        }
    }
}

/// Why polling ended without tokens.
#[derive(Clone, Copy, Debug, PartialEq, Eq, Structural)]
pub enum PollFailure {
    /// The device code expired before the user decided.
    Expired,
    /// The user denied the authorization request.
    Denied,
    /// The endpoint answered something polling cannot recover from.
    Failed,
}

/// What the client does after one poll.
#[derive(Clone, Debug)]
pub enum PollDecision {
    /// Stop: authorization completed with these tokens.
    Finish(TokenResponse),
    /// Stop: polling failed for this reason.
    Fail(PollFailure),
    /// Sleep this many seconds, then poll again.
    Retry(u64),
}

/// The mathematical view of a [`PollDecision`].
#[verifier::ext_equal]
pub enum PollDecisionV {
    Finish(TokenResponseV),
    Fail(PollFailure),
    Retry(u64),
}

impl View for PollDecision {
    type V = PollDecisionV;

    open spec fn view(&self) -> PollDecisionV {
        match self {
            PollDecision::Finish(t) => PollDecisionV::Finish(t@),
            PollDecision::Fail(f) => PollDecisionV::Fail(*f),
            PollDecision::Retry(s) => PollDecisionV::Retry(*s),
        }
    }
}

/// The polling interval the client actually uses: the issued interval,
/// floored at five seconds.
pub open spec fn spec_poll_interval(interval: u64) -> u64 {
    if interval < 5 {
        5
    } else {
        interval
    }
}

/// The decision after one poll: tokens finish the flow; the pending and
/// slow-down answers keep polling (the latter with five extra seconds of
/// back-off); denial and expiry end it; a `server_error` whose description
/// speaks of a pending authorization is treated as pending; anything else
/// is a terminal failure.
pub open spec fn spec_poll_step(interval: u64, ev: PollEventV) -> PollDecisionV {
    let sleep = spec_poll_interval(interval);
    match ev {
        PollEventV::Tokens(t) => PollDecisionV::Finish(t),
        PollEventV::Refused(e) => {
            if e.error == "authorization_pending"@ {
                PollDecisionV::Retry(sleep)
            } else if e.error == "slow_down"@ {
                PollDecisionV::Retry(spec_sat_add(sleep, 5))
            } else if e.error == "access_denied"@ {
                PollDecisionV::Fail(PollFailure::Denied)
            } else if e.error == "expired_token"@ {
                PollDecisionV::Fail(PollFailure::Expired)
            } else if e.error == "server_error"@ && (match e.error_description {
                Some(d) => spec_contains_substr(d, "Authorization pending"@),
                None => false,
            }) {
                PollDecisionV::Retry(sleep)
            } else {
                PollDecisionV::Fail(PollFailure::Failed)
            }
        },
        PollEventV::Unreadable(_) => PollDecisionV::Fail(PollFailure::Failed),
    }
}

/// Decide what to do after one poll of the token endpoint.  The
/// surrounding loop performs the sleep and the next request; a poll made
/// after the code's expiry deadline should not be sent at all and counts
/// as [`PollFailure::Expired`].
pub fn poll_step(interval: u64, event: PollEvent) -> (r: PollDecision)
    ensures
        r@ == spec_poll_step(interval, event@),
{
    let sleep = if interval < 5 {
        5
    } else {
        interval
    };
    match event {
        PollEvent::Tokens(t) => PollDecision::Finish(t),
        PollEvent::Refused(e) => {
            if str_eq(e.error.as_str(), "authorization_pending") {
                PollDecision::Retry(sleep)
            } else if str_eq(e.error.as_str(), "slow_down") {
                PollDecision::Retry(sat_add(sleep, 5))
            } else if str_eq(e.error.as_str(), "access_denied") {
                PollDecision::Fail(PollFailure::Denied)
            } else if str_eq(e.error.as_str(), "expired_token") {
                PollDecision::Fail(PollFailure::Expired)
            } else if str_eq(e.error.as_str(), "server_error") && (match &e.error_description {
                Some(d) => contains_substr(d.as_str(), "Authorization pending"),
                None => false,
            }) {
                PollDecision::Retry(sleep)
            } else {
                PollDecision::Fail(PollFailure::Failed)
            }
        },
        PollEvent::Unreadable(_) => PollDecision::Fail(PollFailure::Failed),
    }
}

/// The credentials the client keeps on disk.
#[derive(Clone, Debug)]
pub struct AuthData {
    /// The subject DID.
    pub did: String,
    /// The access token.
    pub token: String,
    /// RFC 3339 expiry of the access token.
    pub expires_at: Option<String>,
    pub refresh_token: Option<String>,
}

/// The mathematical view of an [`AuthData`].
#[verifier::ext_equal]
pub struct AuthDataV {
    pub did: Seq<char>,
    pub token: Seq<char>,
    pub expires_at: Option<Seq<char>>,
    pub refresh_token: Option<Seq<char>>,
}

impl View for AuthData {
    type V = AuthDataV;

    open spec fn view(&self) -> AuthDataV {
        AuthDataV {
            did: self.did@,
            token: self.token@,
            expires_at: self.expires_at.deep_view(),
            refresh_token: self.refresh_token.deep_view(),
        }
    }
}

/// What to do with stored credentials before using them.
#[derive(Clone, Copy, Debug, PartialEq, Eq, Structural)]
pub enum AuthDecision {
    /// The stored token is usable as it stands.
    Valid,
    /// The token expires within the buffer and a refresh should be tried.
    RefreshNeeded,
    /// The credentials cannot be used or refreshed: log in again.
    MustLogin,
}

/// What a stored RFC 3339 instant parses to, as a Unix timestamp in
/// seconds.  The value depends on the text alone.
pub uninterp spec fn rfc3339_epoch_of(s: Seq<char>) -> Option<i64>;

/// Relies on chrono's `DateTime::parse_from_rfc3339` and `timestamp`: the
/// parsed instant as a Unix timestamp, or nothing for text that is not a
/// valid RFC 3339 instant.
#[verifier::external_body]
pub(crate) fn parse_rfc3339_epoch(s: &str) -> (r: Option<i64>)
    ensures
        r == rfc3339_epoch_of(s@),
{
    match chrono::DateTime::parse_from_rfc3339(s) {
        Ok(d) => Some(d.timestamp()),
        Err(_) => None,
    }
}

/// `now` plus the five-minute refresh buffer, capped at the largest `i64`.
pub open spec fn spec_buffered_now(now: i64) -> i64 {
    if now + 300 > i64::MAX {
        i64::MAX
    } else {
        (now + 300) as i64
    }
}

/// The stored-credential decision: empty fields force a login; an expiry
/// within five minutes of `now` asks for a refresh when a refresh token
/// and a configured client id are at hand, and otherwise forces a login;
/// an absent or unreadable expiry leaves the token to be tried as it is.
pub open spec fn spec_auth_decision(auth: AuthDataV, client_id_present: bool, now: i64) -> AuthDecision {
    if auth.did.len() == 0 || auth.token.len() == 0 {
        AuthDecision::MustLogin
    } else {
        match auth.expires_at {
            Some(text) => match rfc3339_epoch_of(text) {
                Some(exp) => if spec_buffered_now(now) >= exp {
                    if auth.refresh_token is Some {
                        if client_id_present {
                            AuthDecision::RefreshNeeded
                        } else {
                            AuthDecision::MustLogin
                        }
                    } else {
                        AuthDecision::MustLogin
                    }
                } else {
                    AuthDecision::Valid
                },
                None => AuthDecision::Valid,
            },
            None => AuthDecision::Valid,
        }
    }
}

/// Decide whether stored credentials are usable, need a refresh, or force
/// a new login.
pub fn evaluate_stored_auth(auth: &AuthData, client_id_present: bool, now: i64) -> (r:
    AuthDecision)
    ensures
        r == spec_auth_decision(auth@, client_id_present, now),
{
    if auth.did.as_str().is_empty() || auth.token.as_str().is_empty() {
        return AuthDecision::MustLogin;
    }
    let buffered = if now > i64::MAX - 300 {
        i64::MAX
    } else {
        now + 300
    };
    match &auth.expires_at {
        Some(text) => {
            match parse_rfc3339_epoch(text.as_str()) {
                Some(exp) => {
                    if buffered >= exp {
                        if auth.refresh_token.is_some() {
                            if client_id_present {
                                AuthDecision::RefreshNeeded
                            } else {
                                AuthDecision::MustLogin
                            }
                        } else {
                            AuthDecision::MustLogin
                        }
                    } else {
                        AuthDecision::Valid
                    }
                },
                None => AuthDecision::Valid,
            }
        },
        None => AuthDecision::Valid,
    }
}

/// One form field of a request body.
#[derive(Clone, Debug)]
pub struct Param {
    pub name: String,
    pub value: String,
}

/// The mathematical view of a [`Param`].
#[verifier::ext_equal]
pub struct ParamV {
    pub name: Seq<char>,
    pub value: Seq<char>,
}

impl View for Param {
    type V = ParamV;

    open spec fn view(&self) -> ParamV {
        ParamV { name: self.name@, value: self.value@ }
    }
}

/// One named form field.
pub fn param(name: &str, value: String) -> (r: Param)
    ensures
        r@.name == name@,
        r@.value == value@,
{
    Param { name: name.to_owned(), value }
}

/// The form fields of an authorization-code exchange.
pub fn token_exchange_params(
    client_id: String,
    code: String,
    redirect_uri: String,
    code_verifier: String,
) -> (r: Vec<Param>)
    ensures
        r@.len() == 5,
        r@[0]@ == (ParamV { name: "grant_type"@, value: "authorization_code"@ }),
        r@[1]@ == (ParamV { name: "code"@, value: code@ }),
        r@[2]@ == (ParamV { name: "redirect_uri"@, value: redirect_uri@ }),
        r@[3]@ == (ParamV { name: "client_id"@, value: client_id@ }),
        r@[4]@ == (ParamV { name: "code_verifier"@, value: code_verifier@ }),
{
    let mut out: Vec<Param> = Vec::new();
    out.push(param("grant_type", "authorization_code".to_owned()));
    out.push(param("code", code));
    out.push(param("redirect_uri", redirect_uri));
    out.push(param("client_id", client_id));
    out.push(param("code_verifier", code_verifier));
    out
}

/// The form fields of a refresh-token request.
pub fn refresh_params(client_id: String, refresh_token: String) -> (r: Vec<Param>)
    ensures
        r@.len() == 3,
        r@[0]@ == (ParamV { name: "grant_type"@, value: "refresh_token"@ }),
        r@[1]@ == (ParamV { name: "refresh_token"@, value: refresh_token@ }),
        r@[2]@ == (ParamV { name: "client_id"@, value: client_id@ }),
{
    let mut out: Vec<Param> = Vec::new();
    out.push(param("grant_type", "refresh_token".to_owned()));
    out.push(param("refresh_token", refresh_token));
    out.push(param("client_id", client_id));
    out
}

/// The headers of an API request: JSON accepted, a bearer token when one
/// is at hand, and a content type when a body is sent.
pub fn build_request_headers(token: Option<&String>, content_type: Option<&String>) -> (r: Vec<
    Header,
>)
    ensures
        r@.len() >= 1,
        r@[0]@ == (HeaderV { name: "accept"@, value: "application/json"@ }),
        match token {
            Some(t) => r@.len() >= 2 && r@[1]@ == (HeaderV {
                name: "authorization"@,
                value: "Bearer "@ + t@,
            }),
            None => true,
        },
        match (token, content_type) {
            (Some(_), Some(c)) => r@.len() == 3 && r@[2]@ == (HeaderV {
                name: "content-type"@,
                value: c@,
            }),
            (None, Some(c)) => r@.len() == 2 && r@[1]@ == (HeaderV {
                name: "content-type"@,
                value: c@,
            }),
            (_, None) => true,
        },
{
    let mut out: Vec<Header> = Vec::new();
    out.push(Header { name: "accept".to_owned(), value: "application/json".to_owned() });
    match token {
        Some(t) => {
            let value = concat2("Bearer ", t.as_str());
            out.push(Header { name: "authorization".to_owned(), value });
        },
        None => {},
    }
    match content_type {
        Some(c) => {
            out.push(Header { name: "content-type".to_owned(), value: c.clone() });
        },
        None => {},
    }
    out
}

} // verus!
