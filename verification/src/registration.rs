//! The client registration service: a factory with policy defaults.  It
//! creates a client record with the caller-supplied id, assigns the two
//! configured default token lifetimes, and persists it; no other protocol
//! logic lives here.

use vstd::prelude::*;
use crate::model::{Client, ClientAuthMethod, ClientV};
use crate::store::{with_clients, MemoryStore, OAuthStorage};
use crate::text::{clone_opt_string, clone_string_vec, spec_opt_str};

verus! {

/// Policy defaults applied to every client this service registers.
#[derive(Clone, Debug)]
pub struct ClientRegistrationService {
    /// Default lifetime of access tokens, in seconds.
    pub default_access_token_expiration: u64,
    /// Default lifetime of refresh tokens, in seconds.
    pub default_refresh_token_expiration: u64,
    /// Whether registered clients may be issued refresh tokens.
    pub allow_refresh_tokens: bool,
}

impl ClientRegistrationService {
    /// A registration service with the given defaults.
    pub fn new(
        default_access_token_expiration: u64,
        default_refresh_token_expiration: u64,
        allow_refresh_tokens: bool,
    ) -> (r: ClientRegistrationService)
        ensures
            r.default_access_token_expiration == default_access_token_expiration,
            r.default_refresh_token_expiration == default_refresh_token_expiration,
            r.allow_refresh_tokens == allow_refresh_tokens,
    {
        ClientRegistrationService {
            default_access_token_expiration,
            default_refresh_token_expiration,
            allow_refresh_tokens,
        }
    }

    /// The record this service builds for the given registration data.
    pub open spec fn spec_registered(
        self,
        client_id: Seq<char>,
        auth_method: ClientAuthMethod,
        secret: Option<Seq<char>>,
        redirect_uris: Seq<Seq<char>>,
        scopes: Seq<Seq<char>>,
    ) -> ClientV {
        ClientV {
            client_id,
            auth_method,
            secret,
            redirect_uris,
            scopes,
            access_token_lifetime: self.default_access_token_expiration,
            refresh_token_lifetime: self.default_refresh_token_expiration,
            allow_refresh_tokens: self.allow_refresh_tokens,
        }
    }

    /// Create and persist a client record under the policy defaults, and
    /// return a copy of what was stored.
    pub fn register_client(
        &self,
        store: &mut MemoryStore,
        client_id: String,
        auth_method: ClientAuthMethod,
        secret: Option<String>,
        redirect_uris: Vec<String>,
        scopes: Vec<String>,
    ) -> (r: Client)
        requires
            old(store).wf(),
        ensures
            final(store).wf(),
            r@ == self.spec_registered(
                client_id@,
                auth_method,
                spec_opt_str(secret),
                redirect_uris.deep_view(),
                scopes.deep_view(),
            ),
            final(store)@ == with_clients(
                old(store)@,
                old(store)@.clients.insert(client_id@, r@),
            ),
    {
        let record = Client {
            client_id: client_id.clone(),
            auth_method,
            secret: clone_opt_string(&secret),
            redirect_uris: clone_string_vec(&redirect_uris),
            scopes: clone_string_vec(&scopes),
            access_token_lifetime: self.default_access_token_expiration,
            refresh_token_lifetime: self.default_refresh_token_expiration,
            allow_refresh_tokens: self.allow_refresh_tokens,
        };
        let copy = Client {
            client_id,
            auth_method,
            secret,
            redirect_uris,
            scopes,
            access_token_lifetime: self.default_access_token_expiration,
            refresh_token_lifetime: self.default_refresh_token_expiration,
            allow_refresh_tokens: self.allow_refresh_tokens,
        };
        proof {
            assert(record@ =~= copy@);
        }
        store.put_client(record);
        copy
    }
}

} // verus!
