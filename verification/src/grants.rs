//! The grant processor: validates and executes each OAuth grant type and
//! produces token responses.  Each branch is independent but shares a
//! uniform exit contract: success yields `{access_token, token_type =
//! "Bearer", expires_in, refresh_token?, scope?}`, failure yields one of
//! the RFC 6749 / RFC 8628 error codes, and the storage change of every
//! outcome is pinned down exactly.

use vstd::prelude::*;
use crate::authn::{
    authenticate_client, spec_authenticate, AssertionClaims, RequestHeaders, TokenForm, TokenFormV,
};
use crate::crypto::generate_token;
use crate::device::{
    process_device_code, spec_device_poll_err_post, spec_device_poll_error, spec_device_grant_type,
};
use crate::errors::ErrorKind;
use crate::model::{
    AccessToken, AccessTokenV, ClientAuth, ClientAuthMethod, ClientAuthV, RefreshToken,
    RefreshTokenV,
};
use crate::pkce::{spec_pkce_ok, verify_code_challenge};
use crate::store::{
    with_auth_requests, with_device_codes, with_refresh_tokens, MemoryStore, OAuthStorage,
    StoreView,
};
use crate::text::{
    clone_opt_string, opt_str_eq, sat_add, scope_allowed, spec_opt_str, spec_sat_add,
    spec_scope_allowed, str_eq,
};

verus! {

/// A successful answer of the token endpoint.
#[derive(Clone, Debug)]
pub struct TokenEndpointResponse {
    pub access_token: String,
    /// Always `"Bearer"`.
    pub token_type: String,
    /// Lifetime of the access token, in seconds.
    pub expires_in: Option<u64>,
    pub refresh_token: Option<String>,
    pub scope: Option<String>,
}

/// The mathematical view of a [`TokenEndpointResponse`].
#[verifier::ext_equal]
pub struct TokenEndpointResponseV {
    pub access_token: Seq<char>,
    pub token_type: Seq<char>,
    pub expires_in: Option<u64>,
    pub refresh_token: Option<Seq<char>>,
    pub scope: Option<Seq<char>>,
}

impl View for TokenEndpointResponse {
    type V = TokenEndpointResponseV;

    open spec fn view(&self) -> TokenEndpointResponseV {
        TokenEndpointResponseV {
            access_token: self.access_token@,
            token_type: self.token_type@,
            expires_in: self.expires_in,
            refresh_token: self.refresh_token.deep_view(),
            scope: self.scope.deep_view(),
        }
    }
}

/// The view of an optional borrowed client authentication.
pub open spec fn view_opt_auth_ref(a: Option<&ClientAuth>) -> Option<ClientAuthV> {
    match a {
        Some(x) => Some(x@),
        None => None,
    }
}

/// What minting a token pair does: `post` extends `pre` with a fresh
/// access token (and, when `with_refresh` holds, a fresh refresh token)
/// owned by the client, bound to the subject and scope, with the client's
/// configured lifetimes; the response reports exactly what was stored.
pub open spec fn spec_minted(
    pre: StoreView,
    post: StoreView,
    resp: TokenEndpointResponseV,
    client_id: Seq<char>,
    user_id: Option<Seq<char>>,
    scope: Option<Seq<char>>,
    with_refresh: bool,
    access_lifetime: u64,
    refresh_lifetime: u64,
    dpop_jkt: Option<Seq<char>>,
    now: u64,
) -> bool {
    &&& resp.token_type == "Bearer"@
    &&& resp.access_token.len() == 43
    &&& resp.expires_in == Some(access_lifetime)
    &&& resp.scope == scope
    &&& post.clients == pre.clients
    &&& post.auth_requests == pre.auth_requests
    &&& post.device_codes == pre.device_codes
    &&& post.access_tokens == pre.access_tokens.insert(
        resp.access_token,
        AccessTokenV {
            token: resp.access_token,
            client_id: client_id,
            user_id: user_id,
            scope: scope,
            issued_at: now,
            expires_at: spec_sat_add(now, access_lifetime),
            dpop_jkt: dpop_jkt,
        },
    )
    &&& if with_refresh {
        &&& resp.refresh_token is Some
        &&& resp.refresh_token->0.len() == 43
        &&& post.refresh_tokens == pre.refresh_tokens.insert(
            resp.refresh_token->0,
            RefreshTokenV {
                token: resp.refresh_token->0,
                client_id: client_id,
                user_id: user_id,
                scope: scope,
                expires_at: spec_sat_add(now, refresh_lifetime),
            },
        )
    } else {
        &&& resp.refresh_token is None
        &&& post.refresh_tokens == pre.refresh_tokens
    }
}

/// Mint a fresh access token (and refresh token, when the policy allows),
/// record them, and build the uniform success response.
pub(crate) fn mint_tokens(
    store: &mut MemoryStore,
    client_id: String,
    user_id: Option<String>,
    scope: Option<String>,
    with_refresh: bool,
    access_lifetime: u64,
    refresh_lifetime: u64,
    dpop_jkt: Option<String>,
    now: u64,
) -> (r: TokenEndpointResponse)
    requires
        old(store).wf(),
    ensures
        final(store).wf(),
        spec_minted(
            old(store)@,
            final(store)@,
            r@,
            client_id@,
            spec_opt_str(user_id),
            spec_opt_str(scope),
            with_refresh,
            access_lifetime,
            refresh_lifetime,
            spec_opt_str(dpop_jkt),
            now,
        ),
{
    let access = generate_token();
    let at = AccessToken {
        token: access.clone(),
        client_id: client_id.clone(),
        user_id: clone_opt_string(&user_id),
        scope: clone_opt_string(&scope),
        issued_at: now,
        expires_at: sat_add(now, access_lifetime),
        dpop_jkt: dpop_jkt,
    };
    store.put_access_token(at);
    let refresh_token = if with_refresh {
        let rt = generate_token();
        let record = RefreshToken {
            token: rt.clone(),
            client_id: client_id,
            user_id: clone_opt_string(&user_id),
            scope: clone_opt_string(&scope),
            expires_at: sat_add(now, refresh_lifetime),
        };
        store.put_refresh_token(record);
        Some(rt)
    } else {
        None
    };
    TokenEndpointResponse {
        access_token: access,
        token_type: "Bearer".to_owned(),
        expires_in: Some(access_lifetime),
        refresh_token,
        scope,
    }
}

/// The error, if any, of an `authorization_code` grant: missing or unknown
/// client, missing code parameter, then an unknown, foreign, expired,
/// redirect-mismatched or PKCE-failed code.
pub open spec fn spec_auth_code_error(
    s: StoreView,
    form: TokenFormV,
    auth: Option<ClientAuthV>,
    now: u64,
) -> Option<ErrorKind> {
    if auth is None {
        Some(ErrorKind::InvalidClient)
    } else if !s.clients.contains_key(auth->0.client_id) {
        Some(ErrorKind::InvalidClient)
    } else if form.code is None {
        Some(ErrorKind::InvalidRequest)
    } else if !s.auth_requests.contains_key(form.code->0) {
        Some(ErrorKind::InvalidGrant)
    } else {
        let ar = s.auth_requests[form.code->0];
        if ar.client_id != auth->0.client_id {
            Some(ErrorKind::InvalidGrant)
        } else if now >= ar.expires_at {
            Some(ErrorKind::InvalidGrant)
        } else if ar.redirect_uri != form.redirect_uri {
            Some(ErrorKind::InvalidGrant)
        } else {
            match ar.pkce_challenge {
                Some(ch) => match form.code_verifier {
                    Some(v) => if spec_pkce_ok(ar.pkce_method, v, ch) {
                        None
                    } else {
                        Some(ErrorKind::InvalidGrant)
                    },
                    None => Some(ErrorKind::InvalidGrant),
                },
                None => None,
            }
        }
    }
}

/// The storage after a failed `authorization_code` grant: once the code
/// parameter reaches the lookup, the code is consumed whether or not the
/// later checks pass — an authorization code never survives a redemption
/// attempt.
pub open spec fn spec_auth_code_err_post(
    s: StoreView,
    form: TokenFormV,
    auth: Option<ClientAuthV>,
) -> StoreView {
    if auth is Some && s.clients.contains_key(auth->0.client_id) && form.code is Some {
        with_auth_requests(s, s.auth_requests.remove(form.code->0))
    } else {
        s
    }
}

/// Execute an `authorization_code` grant: authenticate, atomically consume
/// the code, verify ownership, expiry, redirect URI and PKCE, then mint.
pub fn process_authorization_code(
    store: &mut MemoryStore,
    form: &TokenForm,
    auth: Option<&ClientAuth>,
    dpop_jkt: Option<String>,
    now: u64,
) -> (r: Result<TokenEndpointResponse, ErrorKind>)
    requires
        old(store).wf(),
    ensures
        final(store).wf(),
        match r {
            Err(e) => spec_auth_code_error(old(store)@, form@, view_opt_auth_ref(auth), now)
                == Some(e) && final(store)@ == spec_auth_code_err_post(
                old(store)@,
                form@,
                view_opt_auth_ref(auth),
            ),
            Ok(resp) => spec_auth_code_error(old(store)@, form@, view_opt_auth_ref(auth), now)
                is None && {
                let s0 = old(store)@;
                let ar = s0.auth_requests[form@.code->0];
                let c = s0.clients[view_opt_auth_ref(auth)->0.client_id];
                spec_minted(
                    with_auth_requests(s0, s0.auth_requests.remove(form@.code->0)),
                    final(store)@,
                    resp@,
                    c.client_id,
                    ar.user_id,
                    ar.scope,
                    c.allow_refresh_tokens,
                    c.access_token_lifetime,
                    c.refresh_token_lifetime,
                    spec_opt_str(dpop_jkt),
                    now,
                )
            },
        },
{
    let a = match auth {
        Some(a) => a,
        None => {
            return Err(ErrorKind::InvalidClient);
        },
    };
    let info = match store.get_client(a.client_id.as_str()) {
        Some(c) => (
            c.client_id.clone(),
            c.access_token_lifetime,
            c.refresh_token_lifetime,
            c.allow_refresh_tokens,
        ),
        None => {
            return Err(ErrorKind::InvalidClient);
        },
    };
    let code = match &form.code {
        Some(c) => c,
        None => {
            return Err(ErrorKind::InvalidRequest);
        },
    };
    let ar = match store.consume_authorization_request(code.as_str()) {
        Some(ar) => ar,
        None => {
            return Err(ErrorKind::InvalidGrant);
        },
    };
    if !str_eq(ar.client_id.as_str(), a.client_id.as_str()) {
        return Err(ErrorKind::InvalidGrant);
    }
    if now >= ar.expires_at {
        return Err(ErrorKind::InvalidGrant);
    }
    if !opt_str_eq(&ar.redirect_uri, &form.redirect_uri) {
        return Err(ErrorKind::InvalidGrant);
    }
    match &ar.pkce_challenge {
        Some(ch) => {
            match &form.code_verifier {
                Some(v) => {
                    if !verify_code_challenge(ar.pkce_method, v.as_str(), ch.as_str()) {
                        return Err(ErrorKind::InvalidGrant);
                    }
                },
                None => {
                    return Err(ErrorKind::InvalidGrant);
                },
            }
        },
        None => {},
    }
    Ok(mint_tokens(store, info.0, ar.user_id, ar.scope, info.3, info.1, info.2, dpop_jkt, now))
}

/// The error, if any, of a `refresh_token` grant: missing or unknown
/// client, missing token parameter, then an unknown, foreign or expired
/// refresh token.
pub open spec fn spec_refresh_error(
    s: StoreView,
    form: TokenFormV,
    auth: Option<ClientAuthV>,
    now: u64,
) -> Option<ErrorKind> {
    if auth is None {
        Some(ErrorKind::InvalidClient)
    } else if !s.clients.contains_key(auth->0.client_id) {
        Some(ErrorKind::InvalidClient)
    } else if form.refresh_token is None {
        Some(ErrorKind::InvalidRequest)
    } else if !s.refresh_tokens.contains_key(form.refresh_token->0) {
        Some(ErrorKind::InvalidGrant)
    } else {
        let rt = s.refresh_tokens[form.refresh_token->0];
        if rt.client_id != auth->0.client_id {
            Some(ErrorKind::InvalidGrant)
        } else if now >= rt.expires_at {
            Some(ErrorKind::InvalidGrant)
        } else {
            None
        }
    }
}

/// The storage after a failed `refresh_token` grant: once the token
/// parameter reaches the lookup, the old refresh token is consumed whether
/// or not the later checks pass — it is never reusable.
pub open spec fn spec_refresh_err_post(
    s: StoreView,
    form: TokenFormV,
    auth: Option<ClientAuthV>,
) -> StoreView {
    if auth is Some && s.clients.contains_key(auth->0.client_id) && form.refresh_token is Some {
        with_refresh_tokens(s, s.refresh_tokens.remove(form.refresh_token->0))
    } else {
        s
    }
}

/// Execute a `refresh_token` grant: authenticate, atomically consume the
/// old token, verify ownership and expiry, then mint a rotated pair.
pub fn process_refresh_token(
    store: &mut MemoryStore,
    form: &TokenForm,
    auth: Option<&ClientAuth>,
    dpop_jkt: Option<String>,
    now: u64,
) -> (r: Result<TokenEndpointResponse, ErrorKind>)
    requires
        old(store).wf(),
    ensures
        final(store).wf(),
        match r {
            Err(e) => spec_refresh_error(old(store)@, form@, view_opt_auth_ref(auth), now) == Some(
                e,
            ) && final(store)@ == spec_refresh_err_post(
                old(store)@,
                form@,
                view_opt_auth_ref(auth),
            ),
            Ok(resp) => spec_refresh_error(old(store)@, form@, view_opt_auth_ref(auth), now)
                is None && {
                let s0 = old(store)@;
                let rt = s0.refresh_tokens[form@.refresh_token->0];
                let c = s0.clients[view_opt_auth_ref(auth)->0.client_id];
                spec_minted(
                    with_refresh_tokens(s0, s0.refresh_tokens.remove(form@.refresh_token->0)),
                    final(store)@,
                    resp@,
                    c.client_id,
                    rt.user_id,
                    rt.scope,
                    true,
                    c.access_token_lifetime,
                    c.refresh_token_lifetime,
                    spec_opt_str(dpop_jkt),
                    now,
                )
            },
        },
{
    let a = match auth {
        Some(a) => a,
        None => {
            return Err(ErrorKind::InvalidClient);
        },
    };
    let info = match store.get_client(a.client_id.as_str()) {
        Some(c) => (
            c.client_id.clone(),
            c.access_token_lifetime,
            c.refresh_token_lifetime,
            c.allow_refresh_tokens,
        ),
        None => {
            return Err(ErrorKind::InvalidClient);
        },
    };
    let token = match &form.refresh_token {
        Some(t) => t,
        None => {
            return Err(ErrorKind::InvalidRequest);
        },
    };
    let rt = match store.consume_refresh_token(token.as_str()) {
        Some(rt) => rt,
        None => {
            return Err(ErrorKind::InvalidGrant);
        },
    };
    if !str_eq(rt.client_id.as_str(), a.client_id.as_str()) {
        return Err(ErrorKind::InvalidGrant);
    }
    if now >= rt.expires_at {
        return Err(ErrorKind::InvalidGrant);
    }
    Ok(mint_tokens(store, info.0, rt.user_id, rt.scope, true, info.1, info.2, dpop_jkt, now))
}

/// The error, if any, of a `client_credentials` grant: missing
/// authentication, a public client (no strong authentication), an unknown
/// client, or a scope outside the client's registration.
pub open spec fn spec_cc_error(
    s: StoreView,
    form: TokenFormV,
    auth: Option<ClientAuthV>,
) -> Option<ErrorKind> {
    if auth is None {
        Some(ErrorKind::InvalidClient)
    } else if auth->0.method == ClientAuthMethod::Public {
        Some(ErrorKind::UnauthorizedClient)
    } else if !s.clients.contains_key(auth->0.client_id) {
        Some(ErrorKind::InvalidClient)
    } else {
        match form.scope {
            Some(sc) => if spec_scope_allowed(sc, s.clients[auth->0.client_id].scopes) {
                None
            } else {
                Some(ErrorKind::InvalidScope)
            },
            None => None,
        }
    }
}

/// Execute a `client_credentials` grant: requires strong authentication,
/// validates the requested scope, and mints an access token with no
/// subject and no refresh token.  A failed attempt changes nothing.
pub fn process_client_credentials(
    store: &mut MemoryStore,
    form: &TokenForm,
    auth: Option<&ClientAuth>,
    dpop_jkt: Option<String>,
    now: u64,
) -> (r: Result<TokenEndpointResponse, ErrorKind>)
    requires
        old(store).wf(),
    ensures
        final(store).wf(),
        match r {
            Err(e) => spec_cc_error(old(store)@, form@, view_opt_auth_ref(auth)) == Some(e)
                && final(store)@ == old(store)@,
            Ok(resp) => spec_cc_error(old(store)@, form@, view_opt_auth_ref(auth)) is None && {
                let s0 = old(store)@;
                let c = s0.clients[view_opt_auth_ref(auth)->0.client_id];
                spec_minted(
                    s0,
                    final(store)@,
                    resp@,
                    c.client_id,
                    None,
                    form@.scope,
                    false,
                    c.access_token_lifetime,
                    c.refresh_token_lifetime,
                    spec_opt_str(dpop_jkt),
                    now,
                )
            },
        },
{
    let a = match auth {
        Some(a) => a,
        None => {
            return Err(ErrorKind::InvalidClient);
        },
    };
    if a.method == ClientAuthMethod::Public {
        return Err(ErrorKind::UnauthorizedClient);
    }
    let checked = match store.get_client(a.client_id.as_str()) {
        Some(c) => {
            let scope_ok = match &form.scope {
                Some(sc) => scope_allowed(sc.as_str(), &c.scopes),
                None => true,
            };
            (
                c.client_id.clone(),
                c.access_token_lifetime,
                c.refresh_token_lifetime,
                scope_ok,
            )
        },
        None => {
            return Err(ErrorKind::InvalidClient);
        },
    };
    if !checked.3 {
        return Err(ErrorKind::InvalidScope);
    }
    Ok(
        mint_tokens(
            store,
            checked.0,
            None,
            clone_opt_string(&form.scope),
            false,
            checked.1,
            checked.2,
            dpop_jkt,
            now,
        ),
    )
}

/// The error, if any, of a token request: dispatch on the grant type, then
/// the grant's own classification; an unknown grant type is refused before
/// anything else.
pub open spec fn spec_token_error(
    s: StoreView,
    headers: Seq<crate::authn::HeaderV>,
    form: TokenFormV,
    assertion: Option<crate::authn::AssertionClaimsV>,
    endpoint: Seq<char>,
    now: u64,
) -> Option<ErrorKind> {
    let auth = spec_authenticate(s, headers, form, assertion, endpoint, now);
    if form.grant_type == "authorization_code"@ {
        spec_auth_code_error(s, form, auth, now)
    } else if form.grant_type == "refresh_token"@ {
        spec_refresh_error(s, form, auth, now)
    } else if form.grant_type == "client_credentials"@ {
        spec_cc_error(s, form, auth)
    } else if form.grant_type == spec_device_grant_type() {
        spec_device_poll_error(s, form, auth, now)
    } else {
        Some(ErrorKind::UnsupportedGrantType)
    }
}

/// The storage after a failed token request.
pub open spec fn spec_token_err_post(
    s: StoreView,
    headers: Seq<crate::authn::HeaderV>,
    form: TokenFormV,
    assertion: Option<crate::authn::AssertionClaimsV>,
    endpoint: Seq<char>,
    now: u64,
) -> StoreView {
    let auth = spec_authenticate(s, headers, form, assertion, endpoint, now);
    if form.grant_type == "authorization_code"@ {
        spec_auth_code_err_post(s, form, auth)
    } else if form.grant_type == "refresh_token"@ {
        spec_refresh_err_post(s, form, auth)
    } else if form.grant_type == "client_credentials"@ {
        s
    } else if form.grant_type == spec_device_grant_type() {
        spec_device_poll_err_post(s, form, auth, now)
    } else {
        s
    }
}

/// What a successful token request mints, per grant type.
pub open spec fn spec_token_success(
    s0: StoreView,
    post: StoreView,
    resp: TokenEndpointResponseV,
    form: TokenFormV,
    auth: Option<ClientAuthV>,
    dpop_jkt: Option<Seq<char>>,
    now: u64,
) -> bool {
    let c = s0.clients[auth->0.client_id];
    if form.grant_type == "authorization_code"@ {
        let ar = s0.auth_requests[form.code->0];
        spec_minted(
            with_auth_requests(s0, s0.auth_requests.remove(form.code->0)),
            post,
            resp,
            c.client_id,
            ar.user_id,
            ar.scope,
            c.allow_refresh_tokens,
            c.access_token_lifetime,
            c.refresh_token_lifetime,
            dpop_jkt,
            now,
        )
    } else if form.grant_type == "refresh_token"@ {
        let rt = s0.refresh_tokens[form.refresh_token->0];
        spec_minted(
            with_refresh_tokens(s0, s0.refresh_tokens.remove(form.refresh_token->0)),
            post,
            resp,
            c.client_id,
            rt.user_id,
            rt.scope,
            true,
            c.access_token_lifetime,
            c.refresh_token_lifetime,
            dpop_jkt,
            now,
        )
    } else if form.grant_type == "client_credentials"@ {
        spec_minted(
            s0,
            post,
            resp,
            c.client_id,
            None,
            form.scope,
            false,
            c.access_token_lifetime,
            c.refresh_token_lifetime,
            dpop_jkt,
            now,
        )
    } else if form.grant_type == spec_device_grant_type() {
        let d = s0.device_codes[form.device_code->0];
        spec_minted(
            with_device_codes(s0, s0.device_codes.remove(form.device_code->0)),
            post,
            resp,
            c.client_id,
            d.user_id,
            d.scope,
            c.allow_refresh_tokens,
            c.access_token_lifetime,
            c.refresh_token_lifetime,
            dpop_jkt,
            now,
        )
    } else {
        false
    }
}

/// The token endpoint: authenticate the client once, dispatch on the
/// grant type, and answer with the uniform success shape or one exact
/// error; the storage change of every outcome is stated by
/// [`spec_token_err_post`] and [`spec_token_success`].
pub fn process_token_request(
    store: &mut MemoryStore,
    headers: &RequestHeaders,
    form: &TokenForm,
    assertion: Option<&AssertionClaims>,
    token_endpoint: &str,
    dpop_jkt: Option<String>,
    now: u64,
) -> (r: Result<TokenEndpointResponse, ErrorKind>)
    requires
        old(store).wf(),
    ensures
        final(store).wf(),
        match r {
            Err(e) => spec_token_error(
                old(store)@,
                headers@,
                form@,
                crate::authn::view_opt_assertion(assertion),
                token_endpoint@,
                now,
            ) == Some(e) && final(store)@ == spec_token_err_post(
                old(store)@,
                headers@,
                form@,
                crate::authn::view_opt_assertion(assertion),
                token_endpoint@,
                now,
            ),
            Ok(resp) => spec_token_error(
                old(store)@,
                headers@,
                form@,
                crate::authn::view_opt_assertion(assertion),
                token_endpoint@,
                now,
            ) is None && spec_token_success(
                old(store)@,
                final(store)@,
                resp@,
                form@,
                spec_authenticate(
                    old(store)@,
                    headers@,
                    form@,
                    crate::authn::view_opt_assertion(assertion),
                    token_endpoint@,
                    now,
                ),
                spec_opt_str(dpop_jkt),
                now,
            ),
        },
{
    let auth = authenticate_client(store, headers, form, assertion, token_endpoint, now);
    if str_eq(form.grant_type.as_str(), "authorization_code") {
        process_authorization_code(store, form, auth.as_ref(), dpop_jkt, now)
    } else if str_eq(form.grant_type.as_str(), "refresh_token") {
        process_refresh_token(store, form, auth.as_ref(), dpop_jkt, now)
    } else if str_eq(form.grant_type.as_str(), "client_credentials") {
        process_client_credentials(store, form, auth.as_ref(), dpop_jkt, now)
    } else if str_eq(form.grant_type.as_str(), "urn:ietf:params:oauth:grant-type:device_code") {
        process_device_code(store, form, auth.as_ref(), dpop_jkt, now)
    } else {
        Err(ErrorKind::UnsupportedGrantType)
    }
}

} // verus!
