//! An OAuth 2.0 / OpenID-Connect-style authorization server core ("AIP"):
//! client authentication, grant processing (authorization code + PKCE,
//! refresh token, client credentials, device code), token-lifecycle storage,
//! DPoP nonce derivation, and RFC 7009 token revocation, together with the
//! protocol logic of the companion command-line client and of the gallery
//! preview service.
//!
//! Every expiry comparison takes the current time as an argument, so the
//! clock is injectable and behaviour is deterministic.

// Foundations: the error taxonomy, string utilities, and the trusted
// bridge to the cryptographic primitives.
pub mod errors;
pub mod text;
pub mod crypto;

// The data model and the storage backends.
pub mod model;
pub mod assoc;
pub mod store;
pub mod lru;

// The protocol engine.
pub mod pkce;
pub mod authn;
pub mod dpop;
pub mod grants;
pub mod device;
pub mod revocation;
pub mod registration;
pub mod laws;

// The companion client and the gallery preview service.
pub mod client_flow;
pub mod gallery;
pub mod preview;
pub mod resize;
