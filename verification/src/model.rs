//! The data model of the engine: clients, tokens, grant precursors and
//! their mathematical views.  Every record is keyed by an opaque string
//! (token or code); views replace each string by its character sequence so
//! contracts can speak of values, not allocations.

use vstd::prelude::*;
use crate::pkce::PkceMethod;

verus! {

/// How a registered client authenticates: not at all (public client), with
/// a shared secret, or with a signed JWT assertion (`private_key_jwt`).
#[derive(Clone, Copy, Debug, PartialEq, Eq, Structural)]
pub enum ClientAuthMethod {
    Public,
    Secret,
    PrivateKeyJwt,
}

/// A registered relying party.
#[derive(Clone, Debug)]
pub struct Client {
    pub client_id: String,
    pub auth_method: ClientAuthMethod,
    /// The shared secret, for clients whose method is `Secret`.
    pub secret: Option<String>,
    pub redirect_uris: Vec<String>,
    /// The scope words this client may be granted.
    pub scopes: Vec<String>,
    /// Lifetime of issued access tokens, in seconds.
    pub access_token_lifetime: u64,
    /// Lifetime of issued refresh tokens, in seconds.
    pub refresh_token_lifetime: u64,
    /// Whether grants to this client may mint refresh tokens.
    pub allow_refresh_tokens: bool,
}

/// The mathematical view of a [`Client`].
#[verifier::ext_equal]
pub struct ClientV {
    pub client_id: Seq<char>,
    pub auth_method: ClientAuthMethod,
    pub secret: Option<Seq<char>>,
    pub redirect_uris: Seq<Seq<char>>,
    pub scopes: Seq<Seq<char>>,
    pub access_token_lifetime: u64,
    pub refresh_token_lifetime: u64,
    pub allow_refresh_tokens: bool,
}

impl View for Client {
    type V = ClientV;

    open spec fn view(&self) -> ClientV {
        ClientV {
            client_id: self.client_id@,
            auth_method: self.auth_method,
            secret: self.secret.deep_view(),
            redirect_uris: self.redirect_uris.deep_view(),
            scopes: self.scopes.deep_view(),
            access_token_lifetime: self.access_token_lifetime,
            refresh_token_lifetime: self.refresh_token_lifetime,
            allow_refresh_tokens: self.allow_refresh_tokens,
        }
    }
}

/// An opaque bearer credential.
#[derive(Clone, Debug)]
pub struct AccessToken {
    pub token: String,
    pub client_id: String,
    /// The subject (user DID), absent for client-credentials tokens.
    pub user_id: Option<String>,
    pub scope: Option<String>,
    pub issued_at: u64,
    pub expires_at: u64,
    /// DPoP JWK thumbprint binding, when the grant carried one.
    pub dpop_jkt: Option<String>,
}

/// The mathematical view of an [`AccessToken`].
#[verifier::ext_equal]
pub struct AccessTokenV {
    pub token: Seq<char>,
    pub client_id: Seq<char>,
    pub user_id: Option<Seq<char>>,
    pub scope: Option<Seq<char>>,
    pub issued_at: u64,
    pub expires_at: u64,
    pub dpop_jkt: Option<Seq<char>>,
}

impl View for AccessToken {
    type V = AccessTokenV;

    open spec fn view(&self) -> AccessTokenV {
        AccessTokenV {
            token: self.token@,
            client_id: self.client_id@,
            user_id: self.user_id.deep_view(),
            scope: self.scope.deep_view(),
            issued_at: self.issued_at,
            expires_at: self.expires_at,
            dpop_jkt: self.dpop_jkt.deep_view(),
        }
    }
}

/// A single-use credential for reissuing an access token without
/// re-authentication.  Consumption is atomic and destructive.
#[derive(Clone, Debug)]
pub struct RefreshToken {
    pub token: String,
    pub client_id: String,
    pub user_id: Option<String>,
    pub scope: Option<String>,
    pub expires_at: u64,
}

/// The mathematical view of a [`RefreshToken`].
#[verifier::ext_equal]
pub struct RefreshTokenV {
    pub token: Seq<char>,
    pub client_id: Seq<char>,
    pub user_id: Option<Seq<char>>,
    pub scope: Option<Seq<char>>,
    pub expires_at: u64,
}

impl View for RefreshToken {
    type V = RefreshTokenV;

    open spec fn view(&self) -> RefreshTokenV {
        RefreshTokenV {
            token: self.token@,
            client_id: self.client_id@,
            user_id: self.user_id.deep_view(),
            scope: self.scope.deep_view(),
            expires_at: self.expires_at,
        }
    }
}

/// A stored authorization request: the single-use precursor an
/// authorization code redeems.
#[derive(Clone, Debug)]
pub struct AuthRequest {
    pub code: String,
    pub client_id: String,
    pub redirect_uri: Option<String>,
    /// The stored PKCE challenge, absent when the flow carried none.
    pub pkce_challenge: Option<String>,
    pub pkce_method: PkceMethod,
    pub scope: Option<String>,
    /// The subject that approved the request.
    pub user_id: Option<String>,
    pub expires_at: u64,
}

/// The mathematical view of an [`AuthRequest`].
#[verifier::ext_equal]
pub struct AuthRequestV {
    pub code: Seq<char>,
    pub client_id: Seq<char>,
    pub redirect_uri: Option<Seq<char>>,
    pub pkce_challenge: Option<Seq<char>>,
    pub pkce_method: PkceMethod,
    pub scope: Option<Seq<char>>,
    pub user_id: Option<Seq<char>>,
    pub expires_at: u64,
}

impl View for AuthRequest {
    type V = AuthRequestV;

    open spec fn view(&self) -> AuthRequestV {
        AuthRequestV {
            code: self.code@,
            client_id: self.client_id@,
            redirect_uri: self.redirect_uri.deep_view(),
            pkce_challenge: self.pkce_challenge.deep_view(),
            pkce_method: self.pkce_method,
            scope: self.scope.deep_view(),
            user_id: self.user_id.deep_view(),
            expires_at: self.expires_at,
        }
    }
}

/// Where a device code stands in its user-approval lifecycle.
#[derive(Clone, Copy, Debug, PartialEq, Eq, Structural)]
pub enum DeviceStatus {
    Pending,
    Approved,
    Denied,
}

/// A stored device-code grant precursor (RFC 8628).
#[derive(Clone, Debug)]
pub struct DeviceCodeRecord {
    pub device_code: String,
    /// The short code the user types at the verification URI.
    pub user_code: String,
    pub client_id: String,
    pub scope: Option<String>,
    pub expires_at: u64,
    /// The polling interval issued with the code, in seconds.
    pub interval: u64,
    /// When the device last polled (initially the issue time).
    pub last_poll: u64,
    pub status: DeviceStatus,
    /// The subject that approved the code, once approved.
    pub user_id: Option<String>,
}

/// The mathematical view of a [`DeviceCodeRecord`].
#[verifier::ext_equal]
pub struct DeviceCodeV {
    pub device_code: Seq<char>,
    pub user_code: Seq<char>,
    pub client_id: Seq<char>,
    pub scope: Option<Seq<char>>,
    pub expires_at: u64,
    pub interval: u64,
    pub last_poll: u64,
    pub status: DeviceStatus,
    pub user_id: Option<Seq<char>>,
}

impl View for DeviceCodeRecord {
    type V = DeviceCodeV;

    open spec fn view(&self) -> DeviceCodeV {
        DeviceCodeV {
            device_code: self.device_code@,
            user_code: self.user_code@,
            client_id: self.client_id@,
            scope: self.scope.deep_view(),
            expires_at: self.expires_at,
            interval: self.interval,
            last_poll: self.last_poll,
            status: self.status,
            user_id: self.user_id.deep_view(),
        }
    }
}

/// A verified client identity, the only thing the authenticator hands on.
#[derive(Clone, Debug)]
pub struct ClientAuth {
    pub client_id: String,
    /// The method that authenticated the client.
    pub method: ClientAuthMethod,
}

/// The mathematical view of a [`ClientAuth`].
#[verifier::ext_equal]
pub struct ClientAuthV {
    pub client_id: Seq<char>,
    pub method: ClientAuthMethod,
}

impl View for ClientAuth {
    type V = ClientAuthV;

    open spec fn view(&self) -> ClientAuthV {
        ClientAuthV { client_id: self.client_id@, method: self.method }
    }
}

} // verus!
