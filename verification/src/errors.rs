//! The closed error taxonomy of the protocol engine.
//!
//! Every failure surfaced to a caller is one of these kinds; free-form
//! diagnostic text is never part of the protocol answer.

use vstd::prelude::*;

verus! {

/// RFC 6749 / RFC 8628 error codes returned by the token, device and
/// revocation endpoints.
#[derive(Clone, Copy, Debug, PartialEq, Eq, Structural)]
pub enum ErrorKind {
    InvalidRequest,
    InvalidClient,
    InvalidGrant,
    UnauthorizedClient,
    UnsupportedGrantType,
    InvalidScope,
    ServerError,
    /// RFC 7009: the `token_type_hint` names an unknown token type.
    UnsupportedTokenType,
    /// RFC 8628: the user has not yet approved or denied the device code.
    AuthorizationPending,
    /// RFC 8628: the device polled faster than the issued interval.
    SlowDown,
    /// RFC 8628: the user denied the device authorization.
    AccessDenied,
    /// RFC 8628: the device code expired before the user decided.
    ExpiredToken,
}

impl ErrorKind {
    /// The machine-readable `error` value of the OAuth JSON error body.
    pub open spec fn spec_code(self) -> Seq<char> {
        match self {
            ErrorKind::InvalidRequest => "invalid_request"@,
            ErrorKind::InvalidClient => "invalid_client"@,
            ErrorKind::InvalidGrant => "invalid_grant"@,
            ErrorKind::UnauthorizedClient => "unauthorized_client"@,
            ErrorKind::UnsupportedGrantType => "unsupported_grant_type"@,
            ErrorKind::InvalidScope => "invalid_scope"@,
            ErrorKind::ServerError => "server_error"@,
            ErrorKind::UnsupportedTokenType => "unsupported_token_type"@,
            ErrorKind::AuthorizationPending => "authorization_pending"@,
            ErrorKind::SlowDown => "slow_down"@,
            ErrorKind::AccessDenied => "access_denied"@,
            ErrorKind::ExpiredToken => "expired_token"@,
        }
    }

    /// The HTTP status that accompanies this error at the token and
    /// revocation endpoints: 401 for failed client authentication,
    /// 500 for internal failures, 400 for everything else.
    pub open spec fn spec_status(self) -> u16 {
        match self {
            ErrorKind::InvalidClient => 401u16,
            ErrorKind::ServerError => 500u16,
            _ => 400u16,
        }
    }

    /// The machine-readable `error` code, as a string.
    pub fn code(&self) -> (r: &'static str)
        ensures
            r@ == self.spec_code(),
    {
        match self {
            ErrorKind::InvalidRequest => "invalid_request",
            ErrorKind::InvalidClient => "invalid_client",
            ErrorKind::InvalidGrant => "invalid_grant",
            ErrorKind::UnauthorizedClient => "unauthorized_client",
            ErrorKind::UnsupportedGrantType => "unsupported_grant_type",
            ErrorKind::InvalidScope => "invalid_scope",
            ErrorKind::ServerError => "server_error",
            ErrorKind::UnsupportedTokenType => "unsupported_token_type",
            ErrorKind::AuthorizationPending => "authorization_pending",
            ErrorKind::SlowDown => "slow_down",
            ErrorKind::AccessDenied => "access_denied",
            ErrorKind::ExpiredToken => "expired_token",
        }
    }

    /// The human-readable `error_description` of the OAuth JSON error
    /// body.  Deliberately generic: no internal detail leaks to a caller.
    pub open spec fn spec_description(self) -> Seq<char> {
        match self {
            ErrorKind::InvalidRequest => "The request is missing a required parameter or is malformed"@,
            ErrorKind::InvalidClient => "Client authentication failed"@,
            ErrorKind::InvalidGrant => "The grant or token is invalid, expired, or already used"@,
            ErrorKind::UnauthorizedClient => "The client is not authorized to use this grant type"@,
            ErrorKind::UnsupportedGrantType => "The grant type is not supported"@,
            ErrorKind::InvalidScope => "The requested scope is not available to this client"@,
            ErrorKind::ServerError => "Internal server error"@,
            ErrorKind::UnsupportedTokenType => "Unsupported token type hint"@,
            ErrorKind::AuthorizationPending => "Authorization pending"@,
            ErrorKind::SlowDown => "Polling too frequently; slow down"@,
            ErrorKind::AccessDenied => "The user denied the authorization request"@,
            ErrorKind::ExpiredToken => "The device code has expired"@,
        }
    }

    /// The human-readable `error_description`, as a string.
    pub fn description(&self) -> (r: &'static str)
        ensures
            r@ == self.spec_description(),
    {
        match self {
            ErrorKind::InvalidRequest => "The request is missing a required parameter or is malformed",
            ErrorKind::InvalidClient => "Client authentication failed",
            ErrorKind::InvalidGrant => "The grant or token is invalid, expired, or already used",
            ErrorKind::UnauthorizedClient => "The client is not authorized to use this grant type",
            ErrorKind::UnsupportedGrantType => "The grant type is not supported",
            ErrorKind::InvalidScope => "The requested scope is not available to this client",
            ErrorKind::ServerError => "Internal server error",
            ErrorKind::UnsupportedTokenType => "Unsupported token type hint",
            ErrorKind::AuthorizationPending => "Authorization pending",
            ErrorKind::SlowDown => "Polling too frequently; slow down",
            ErrorKind::AccessDenied => "The user denied the authorization request",
            ErrorKind::ExpiredToken => "The device code has expired",
        }
    }

    /// The HTTP status paired with this error.
    pub fn status(&self) -> (r: u16)
        ensures
            r == self.spec_status(),
    {
        match self {
            ErrorKind::InvalidClient => 401,
            ErrorKind::ServerError => 500,
            _ => 400,
        }
    }
}

} // verus!
