//! Token revocation (RFC 7009): given a token string, an optional type
//! hint and client authentication, try to revoke — and answer 200 with an
//! empty body on any outcome past client authentication, so a caller
//! cannot probe which tokens exist.
//!
//! The hint orders two lookup strategies; each is a pure function of the
//! storage, the token and the authenticated client, and a
//! found-but-foreign token on the first branch does not suppress a match
//! on the second.  A token owned by another client is left untouched — in
//! particular a foreign refresh token is restored after the atomic
//! consumption that inspected it.

use vstd::prelude::*;
use crate::authn::{
    authenticate_client, spec_authenticate, view_opt_assertion, AssertionClaims, HeaderV,
    RequestHeaders, TokenForm, TokenFormV,
};
use crate::errors::ErrorKind;
use crate::model::ClientAuth;
use crate::store::{with_access_tokens, with_refresh_tokens, MemoryStore, OAuthStorage, StoreView};
use crate::text::{clone_opt_string, str_eq};

verus! {

/// A revocation request: the token, an optional hint about its type, and
/// client credentials.
#[derive(Clone, Debug)]
pub struct RevokeRequest {
    /// The token to be revoked.
    pub token: String,
    /// Hint about the token type: `"access_token"` or `"refresh_token"`.
    pub token_type_hint: Option<String>,
    /// Client id, for client authentication.
    pub client_id: Option<String>,
    /// Client secret, for client authentication.
    pub client_secret: Option<String>,
    /// Client assertion, for `private_key_jwt` authentication.
    pub client_assertion: Option<String>,
    /// Client assertion type, for `private_key_jwt` authentication.
    pub client_assertion_type: Option<String>,
}

/// The mathematical view of a [`RevokeRequest`].
#[verifier::ext_equal]
pub struct RevokeRequestV {
    pub token: Seq<char>,
    pub token_type_hint: Option<Seq<char>>,
    pub client_id: Option<Seq<char>>,
    pub client_secret: Option<Seq<char>>,
    pub client_assertion: Option<Seq<char>>,
    pub client_assertion_type: Option<Seq<char>>,
}

impl View for RevokeRequest {
    type V = RevokeRequestV;

    open spec fn view(&self) -> RevokeRequestV {
        RevokeRequestV {
            token: self.token@,
            token_type_hint: self.token_type_hint.deep_view(),
            client_id: self.client_id.deep_view(),
            client_secret: self.client_secret.deep_view(),
            client_assertion: self.client_assertion.deep_view(),
            client_assertion_type: self.client_assertion_type.deep_view(),
        }
    }
}

/// The empty body of a successful revocation answer.
#[derive(Clone, Copy, Debug, PartialEq, Eq, Structural)]
pub struct RevokeResponse {}

/// The form the authenticator reads a revocation request as: only the
/// client credentials carry over.
pub open spec fn spec_revoke_token_form(f: RevokeRequestV) -> TokenFormV {
    TokenFormV {
        grant_type: "client_credentials"@,
        code: None,
        redirect_uri: None,
        client_id: f.client_id,
        client_secret: f.client_secret,
        client_assertion: f.client_assertion,
        client_assertion_type: f.client_assertion_type,
        code_verifier: None,
        scope: None,
        refresh_token: None,
        device_code: None,
    }
}

/// Whether this access token exists and belongs to the client.
pub open spec fn spec_access_revocable(s: StoreView, token: Seq<char>, cid: Seq<char>) -> bool {
    s.access_tokens.contains_key(token) && s.access_tokens[token].client_id == cid
}

/// Whether this refresh token exists and belongs to the client.
pub open spec fn spec_refresh_revocable(s: StoreView, token: Seq<char>, cid: Seq<char>) -> bool {
    s.refresh_tokens.contains_key(token) && s.refresh_tokens[token].client_id == cid
}

/// The storage after the access-token strategy: the token is removed
/// exactly when it exists and belongs to the client.
pub open spec fn spec_access_revoke_post(s: StoreView, token: Seq<char>, cid: Seq<char>) -> StoreView {
    if spec_access_revocable(s, token, cid) {
        with_access_tokens(s, s.access_tokens.remove(token))
    } else {
        s
    }
}

/// The storage after the refresh-token strategy: the token is removed
/// exactly when it exists and belongs to the client.
pub open spec fn spec_refresh_revoke_post(s: StoreView, token: Seq<char>, cid: Seq<char>) -> StoreView {
    if spec_refresh_revocable(s, token, cid) {
        with_refresh_tokens(s, s.refresh_tokens.remove(token))
    } else {
        s
    }
}

/// The storage after a revocation attempt: the hint orders the two
/// strategies, and the second runs only when the first revoked nothing.
pub open spec fn spec_revoke_post(
    s: StoreView,
    token: Seq<char>,
    hint: Option<Seq<char>>,
    cid: Seq<char>,
) -> StoreView {
    if hint == Some("refresh_token"@) {
        if spec_refresh_revocable(s, token, cid) {
            spec_refresh_revoke_post(s, token, cid)
        } else {
            spec_access_revoke_post(s, token, cid)
        }
    } else {
        if spec_access_revocable(s, token, cid) {
            spec_access_revoke_post(s, token, cid)
        } else {
            spec_refresh_revoke_post(s, token, cid)
        }
    }
}

/// The error, if any, of a revocation request: failed client
/// authentication or an unknown client answer 401, an unrecognized hint
/// answers 400, and everything else is silent success.
pub open spec fn spec_revoke_error(
    s: StoreView,
    headers: Seq<HeaderV>,
    f: RevokeRequestV,
    assertion: Option<crate::authn::AssertionClaimsV>,
    endpoint: Seq<char>,
    now: u64,
) -> Option<ErrorKind> {
    let auth = spec_authenticate(s, headers, spec_revoke_token_form(f), assertion, endpoint, now);
    if auth is None {
        Some(ErrorKind::InvalidClient)
    } else if !s.clients.contains_key(auth->0.client_id) {
        Some(ErrorKind::InvalidClient)
    } else if !(f.token_type_hint is None || f.token_type_hint == Some("access_token"@)
        || f.token_type_hint == Some("refresh_token"@)) {
        Some(ErrorKind::UnsupportedTokenType)
    } else {
        None
    }
}

/// Revoke an access token for this client.  Returns whether it revoked.
fn revoke_access_token(store: &mut MemoryStore, token: &str, client_id: &str) -> (r: bool)
    requires
        old(store).wf(),
    ensures
        final(store).wf(),
        r == spec_access_revocable(old(store)@, token@, client_id@),
        final(store)@ == spec_access_revoke_post(old(store)@, token@, client_id@),
{
    let owned = match store.get_token(token) {
        Some(at) => str_eq(at.client_id.as_str(), client_id),
        None => false,
    };
    if owned {
        store.revoke_token(token);
        true
    } else {
        false
    }
}

/// Revoke a refresh token for this client: consume it atomically, and put
/// it back untouched when it belongs to another client, so a foreign
/// token stays valid.  Returns whether it revoked.
fn revoke_refresh_token(store: &mut MemoryStore, token: &str, client_id: &str) -> (r: bool)
    requires
        old(store).wf(),
    ensures
        final(store).wf(),
        r == spec_refresh_revocable(old(store)@, token@, client_id@),
        final(store)@ == spec_refresh_revoke_post(old(store)@, token@, client_id@),
{
    match store.consume_refresh_token(token) {
        Some(rt) => {
            if str_eq(rt.client_id.as_str(), client_id) {
                true
            } else {
                let ghost s0 = old(store)@;
                store.put_refresh_token(rt);
                proof {
                    assert(store@.refresh_tokens =~= s0.refresh_tokens);
                    assert(store@ =~= s0);
                }
                false
            }
        },
        None => {
            proof {
                assert(store@.refresh_tokens =~= old(store)@.refresh_tokens);
                assert(store@ =~= old(store)@);
            }
            false
        },
    }
}

/// Handle a revocation request: authenticate the client, order the two
/// lookup strategies by the hint, and answer 200 with an empty body on
/// every outcome past client authentication — whether or not anything was
/// revoked — per RFC 7009.
pub fn handle_revoke(
    store: &mut MemoryStore,
    headers: &RequestHeaders,
    form: &RevokeRequest,
    assertion: Option<&AssertionClaims>,
    token_endpoint: &str,
    now: u64,
) -> (r: Result<RevokeResponse, ErrorKind>)
    requires
        old(store).wf(),
    ensures
        final(store).wf(),
        match r {
            Err(e) => spec_revoke_error(
                old(store)@,
                headers@,
                form@,
                view_opt_assertion(assertion),
                token_endpoint@,
                now,
            ) == Some(e) && final(store)@ == old(store)@,
            Ok(_) => spec_revoke_error(
                old(store)@,
                headers@,
                form@,
                view_opt_assertion(assertion),
                token_endpoint@,
                now,
            ) is None && final(store)@ == spec_revoke_post(
                old(store)@,
                form@.token,
                form@.token_type_hint,
                spec_authenticate(
                    old(store)@,
                    headers@,
                    spec_revoke_token_form(form@),
                    view_opt_assertion(assertion),
                    token_endpoint@,
                    now,
                )->0.client_id,
            ),
        },
{
    let token_form = TokenForm {
        grant_type: "client_credentials".to_owned(),
        code: None,
        redirect_uri: None,
        client_id: clone_opt_string(&form.client_id),
        client_secret: clone_opt_string(&form.client_secret),
        client_assertion: clone_opt_string(&form.client_assertion),
        client_assertion_type: clone_opt_string(&form.client_assertion_type),
        code_verifier: None,
        scope: None,
        refresh_token: None,
        device_code: None,
    };
    proof {
        assert(token_form@ =~= spec_revoke_token_form(form@));
    }
    let auth = authenticate_client(store, headers, &token_form, assertion, token_endpoint, now);
    let a = match auth {
        Some(a) => a,
        None => {
            return Err(ErrorKind::InvalidClient);
        },
    };
    match store.get_client(a.client_id.as_str()) {
        Some(_) => {},
        None => {
            return Err(ErrorKind::InvalidClient);
        },
    }
    let refresh_first = match &form.token_type_hint {
        Some(h) => {
            if str_eq(h.as_str(), "refresh_token") {
                true
            } else if str_eq(h.as_str(), "access_token") {
                false
            } else {
                return Err(ErrorKind::UnsupportedTokenType);
            }
        },
        None => false,
    };
    if refresh_first {
        if !revoke_refresh_token(store, form.token.as_str(), a.client_id.as_str()) {
            revoke_access_token(store, form.token.as_str(), a.client_id.as_str());
        }
    } else {
        if !revoke_access_token(store, form.token.as_str(), a.client_id.as_str()) {
            revoke_refresh_token(store, form.token.as_str(), a.client_id.as_str());
        }
    }
    Ok(RevokeResponse {})
}

/// Revocation is silent: with any authenticated, registered client and a
/// recognized (or absent) hint, the outcome is success — whatever the
/// token is, whether it exists, and whoever owns it.
pub proof fn lemma_revocation_silent(
    s: StoreView,
    headers: Seq<HeaderV>,
    f: RevokeRequestV,
    assertion: Option<crate::authn::AssertionClaimsV>,
    endpoint: Seq<char>,
    now: u64,
)
    requires
        spec_authenticate(s, headers, spec_revoke_token_form(f), assertion, endpoint, now)
            is Some,
        s.clients.contains_key(
            spec_authenticate(
                s,
                headers,
                spec_revoke_token_form(f),
                assertion,
                endpoint,
                now,
            )->0.client_id,
        ),
        f.token_type_hint is None || f.token_type_hint == Some("access_token"@)
            || f.token_type_hint == Some("refresh_token"@),
    ensures
        spec_revoke_error(s, headers, f, assertion, endpoint, now) is None,
{
}

/// Revoking a token that exists in neither map — nonexistent, or already
/// revoked — changes nothing.
pub proof fn lemma_revoke_absent_unchanged(
    s: StoreView,
    token: Seq<char>,
    hint: Option<Seq<char>>,
    cid: Seq<char>,
)
    requires
        !s.access_tokens.contains_key(token),
        !s.refresh_tokens.contains_key(token),
    ensures
        spec_revoke_post(s, token, hint, cid) == s,
{
}

/// Revocation is idempotent: a second attempt with the same token, hint
/// and client leaves the storage where the first left it, provided the
/// token string does not name an access token and a refresh token at
/// once.
pub proof fn lemma_revocation_idempotent(
    s: StoreView,
    token: Seq<char>,
    hint: Option<Seq<char>>,
    cid: Seq<char>,
)
    requires
        !(s.access_tokens.contains_key(token) && s.refresh_tokens.contains_key(token)),
    ensures
        spec_revoke_post(spec_revoke_post(s, token, hint, cid), token, hint, cid)
            == spec_revoke_post(s, token, hint, cid),
{
}

/// Client binding: a token issued to one client, revoked by an
/// authenticated other client, is not revoked — the storage is unchanged
/// (and the endpoint still answers 200, per [`lemma_revocation_silent`]).
pub proof fn lemma_revocation_client_binding(
    s: StoreView,
    token: Seq<char>,
    hint: Option<Seq<char>>,
    cid: Seq<char>,
)
    requires
        s.access_tokens.contains_key(token) ==> s.access_tokens[token].client_id != cid,
        s.refresh_tokens.contains_key(token) ==> s.refresh_tokens[token].client_id != cid,
    ensures
        spec_revoke_post(s, token, hint, cid) == s,
{
}

} // verus!
