//! The engine's cross-cutting laws, proved over the same spec functions
//! the executable contracts use: single-redeem for each grant precursor,
//! and the once-only behaviour of a device code after approval.

use vstd::prelude::*;
use crate::device::{spec_device_poll_error};
use crate::errors::ErrorKind;
use crate::grants::{
    spec_auth_code_error, spec_minted, spec_refresh_error, TokenEndpointResponseV,
};
use crate::model::ClientAuthV;
use crate::store::{with_auth_requests, with_device_codes, with_refresh_tokens, StoreView};
use crate::authn::TokenFormV;

verus! {

/// Single-redeem at the storage: consuming a refresh token, an
/// authorization code or a device code removes it in the same atomic step
/// that returns it, so any further consumption of the same key observes
/// absence.  Of N racing consumption attempts, the first to run wins and
/// all others find nothing.
pub proof fn lemma_single_redeem(s: StoreView, k: Seq<char>)
    ensures
        !with_refresh_tokens(s, s.refresh_tokens.remove(k)).refresh_tokens.contains_key(k),
        !with_auth_requests(s, s.auth_requests.remove(k)).auth_requests.contains_key(k),
        !with_device_codes(s, s.device_codes.remove(k)).device_codes.contains_key(k),
{
}

/// An authorization code is redeemed at most once: after a successful
/// `authorization_code` grant, the same request against the resulting
/// storage answers `invalid_grant`, at any later time.
pub proof fn lemma_auth_code_single_use(
    s0: StoreView,
    post: StoreView,
    resp: TokenEndpointResponseV,
    form: TokenFormV,
    auth: Option<ClientAuthV>,
    dpop_jkt: Option<Seq<char>>,
    now: u64,
    now2: u64,
)
    requires
        spec_auth_code_error(s0, form, auth, now) is None,
        spec_minted(
            with_auth_requests(s0, s0.auth_requests.remove(form.code->0)),
            post,
            resp,
            s0.clients[auth->0.client_id].client_id,
            s0.auth_requests[form.code->0].user_id,
            s0.auth_requests[form.code->0].scope,
            s0.clients[auth->0.client_id].allow_refresh_tokens,
            s0.clients[auth->0.client_id].access_token_lifetime,
            s0.clients[auth->0.client_id].refresh_token_lifetime,
            dpop_jkt,
            now,
        ),
    ensures
        spec_auth_code_error(post, form, auth, now2) == Some(ErrorKind::InvalidGrant),
{
}

/// A refresh token is redeemed at most once: after a successful
/// `refresh_token` grant, the same request against the resulting storage
/// answers `invalid_grant`, at any later time — rotation replaced the old
/// token.  The one input left out: a freshly minted token string that
/// collides with the consumed one would reoccupy its key.
pub proof fn lemma_refresh_single_use(
    s0: StoreView,
    post: StoreView,
    resp: TokenEndpointResponseV,
    form: TokenFormV,
    auth: Option<ClientAuthV>,
    dpop_jkt: Option<Seq<char>>,
    now: u64,
    now2: u64,
)
    requires
        spec_refresh_error(s0, form, auth, now) is None,
        spec_minted(
            with_refresh_tokens(s0, s0.refresh_tokens.remove(form.refresh_token->0)),
            post,
            resp,
            s0.clients[auth->0.client_id].client_id,
            s0.refresh_tokens[form.refresh_token->0].user_id,
            s0.refresh_tokens[form.refresh_token->0].scope,
            true,
            s0.clients[auth->0.client_id].access_token_lifetime,
            s0.clients[auth->0.client_id].refresh_token_lifetime,
            dpop_jkt,
            now,
        ),
        resp.refresh_token->0 != form.refresh_token->0,
    ensures
        spec_refresh_error(post, form, auth, now2) == Some(ErrorKind::InvalidGrant),
{
}

/// A device code is redeemed at most once: after a successful poll of an
/// approved code, the same poll against the resulting storage answers
/// `invalid_grant`, at any later time.
pub proof fn lemma_device_code_single_use(
    s0: StoreView,
    post: StoreView,
    resp: TokenEndpointResponseV,
    form: TokenFormV,
    auth: Option<ClientAuthV>,
    dpop_jkt: Option<Seq<char>>,
    now: u64,
    now2: u64,
)
    requires
        spec_device_poll_error(s0, form, auth, now) is None,
        spec_minted(
            with_device_codes(s0, s0.device_codes.remove(form.device_code->0)),
            post,
            resp,
            s0.clients[auth->0.client_id].client_id,
            s0.device_codes[form.device_code->0].user_id,
            s0.device_codes[form.device_code->0].scope,
            s0.clients[auth->0.client_id].allow_refresh_tokens,
            s0.clients[auth->0.client_id].access_token_lifetime,
            s0.clients[auth->0.client_id].refresh_token_lifetime,
            dpop_jkt,
            now,
        ),
    ensures
        spec_device_poll_error(post, form, auth, now2) == Some(ErrorKind::InvalidGrant),
{
}

} // verus!
