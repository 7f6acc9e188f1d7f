//! The device authorization grant (RFC 8628), server side: initiation,
//! the user's approval or denial, and the polling branch of the token
//! endpoint.  A device code is single-redeem: polling after approval
//! returns tokens exactly once, then `invalid_grant` on repeat.

use vstd::prelude::*;
use crate::crypto::generate_token;
use crate::errors::ErrorKind;
use crate::model::{ClientAuth, ClientAuthV, DeviceCodeRecord, DeviceCodeV, DeviceStatus};
use crate::store::{with_device_codes, MemoryStore, OAuthStorage, StoreView};
use crate::text::{
    clone_opt_string, sat_add, scope_allowed, spec_opt_str, spec_sat_add, spec_scope_allowed,
    str_eq,
};
use vstd::string::StrSliceExecFns;

verus! {

/// The grant type of device-code polling at the token endpoint.
pub open spec fn spec_device_grant_type() -> Seq<char> {
    "urn:ietf:params:oauth:grant-type:device_code"@
}

/// A device authorization initiation request.
#[derive(Clone, Debug)]
pub struct DeviceAuthorizationRequest {
    pub client_id: String,
    pub scope: Option<String>,
}

/// The answer of the device authorization endpoint.
#[derive(Clone, Debug)]
pub struct DeviceAuthorizationResponse {
    pub device_code: String,
    pub user_code: String,
    pub verification_uri: String,
    pub verification_uri_complete: Option<String>,
    pub expires_in: u64,
    pub interval: Option<u64>,
}

/// The mathematical view of a [`DeviceAuthorizationResponse`].
#[verifier::ext_equal]
pub struct DeviceAuthorizationResponseV {
    pub device_code: Seq<char>,
    pub user_code: Seq<char>,
    pub verification_uri: Seq<char>,
    pub verification_uri_complete: Option<Seq<char>>,
    pub expires_in: u64,
    pub interval: Option<u64>,
}

impl View for DeviceAuthorizationResponse {
    type V = DeviceAuthorizationResponseV;

    open spec fn view(&self) -> DeviceAuthorizationResponseV {
        DeviceAuthorizationResponseV {
            device_code: self.device_code@,
            user_code: self.user_code@,
            verification_uri: self.verification_uri@,
            verification_uri_complete: self.verification_uri_complete.deep_view(),
            expires_in: self.expires_in,
            interval: self.interval,
        }
    }
}

/// Policy of the device authorization endpoint: how long a code lives and
/// how often the device may poll.
#[derive(Clone, Copy, Debug)]
pub struct DevicePolicy {
    /// Lifetime of a device code, in seconds.
    pub expires_in: u64,
    /// The polling interval issued with the code, in seconds.
    pub interval: u64,
}

/// The error, if any, of a device authorization initiation: an unknown
/// client, or a scope outside the client's registration.
pub open spec fn spec_device_begin_error(
    s: StoreView,
    client_id: Seq<char>,
    scope: Option<Seq<char>>,
) -> Option<ErrorKind> {
    if !s.clients.contains_key(client_id) {
        Some(ErrorKind::InvalidClient)
    } else {
        match scope {
            Some(sc) => if spec_scope_allowed(sc, s.clients[client_id].scopes) {
                None
            } else {
                Some(ErrorKind::InvalidScope)
            },
            None => None,
        }
    }
}

/// Begin a device authorization: store a fresh pending device code for the
/// client and answer with the code pair, the verification URI, the expiry
/// and the polling interval.
pub fn begin_device_authorization(
    store: &mut MemoryStore,
    req: &DeviceAuthorizationRequest,
    verification_uri: String,
    policy: &DevicePolicy,
    now: u64,
) -> (r: Result<DeviceAuthorizationResponse, ErrorKind>)
    requires
        old(store).wf(),
    ensures
        final(store).wf(),
        match r {
            Err(e) => spec_device_begin_error(
                old(store)@,
                req.client_id@,
                spec_opt_str(req.scope),
            ) == Some(e) && final(store)@ == old(store)@,
            Ok(resp) => spec_device_begin_error(
                old(store)@,
                req.client_id@,
                spec_opt_str(req.scope),
            ) is None && {
                &&& resp@.device_code.len() == 43
                &&& resp@.user_code.len() == 8
                &&& resp@.verification_uri == verification_uri@
                &&& resp@.verification_uri_complete is None
                &&& resp@.expires_in == policy.expires_in
                &&& resp@.interval == Some(policy.interval)
                &&& final(store)@ == with_device_codes(
                    old(store)@,
                    old(store)@.device_codes.insert(
                        resp@.device_code,
                        DeviceCodeV {
                            device_code: resp@.device_code,
                            user_code: resp@.user_code,
                            client_id: req.client_id@,
                            scope: spec_opt_str(req.scope),
                            expires_at: spec_sat_add(now, policy.expires_in),
                            interval: policy.interval,
                            last_poll: now,
                            status: DeviceStatus::Pending,
                            user_id: None,
                        },
                    ),
                )
            },
        },
{
    let scope_ok = match store.get_client(req.client_id.as_str()) {
        Some(c) => {
            match &req.scope {
                Some(sc) => scope_allowed(sc.as_str(), &c.scopes),
                None => true,
            }
        },
        None => {
            return Err(ErrorKind::InvalidClient);
        },
    };
    if !scope_ok {
        return Err(ErrorKind::InvalidScope);
    }
    let device_code = generate_token();
    let full = generate_token();
    let user_code = full.as_str().substring_char(0, 8).to_owned();
    let record = DeviceCodeRecord {
        device_code: device_code.clone(),
        user_code: user_code.clone(),
        client_id: req.client_id.clone(),
        scope: clone_opt_string(&req.scope),
        expires_at: sat_add(now, policy.expires_in),
        interval: policy.interval,
        last_poll: now,
        status: DeviceStatus::Pending,
        user_id: None,
    };
    store.put_device_code(record);
    Ok(DeviceAuthorizationResponse {
        device_code,
        user_code,
        verification_uri,
        verification_uri_complete: None,
        expires_in: policy.expires_in,
        interval: Some(policy.interval),
    })
}

/// Record the user's decision on a device code: approved (with the
/// approving subject) or denied.  Returns whether the code was known.
pub fn decide_device_authorization(
    store: &mut MemoryStore,
    device_code: &str,
    approve: bool,
    user_id: Option<String>,
) -> (r: bool)
    requires
        old(store).wf(),
    ensures
        final(store).wf(),
        r == old(store)@.device_codes.contains_key(device_code@),
        r ==> final(store)@ == with_device_codes(
            old(store)@,
            old(store)@.device_codes.insert(
                device_code@,
                crate::store::spec_status_update(
                    old(store)@.device_codes[device_code@],
                    if approve {
                        DeviceStatus::Approved
                    } else {
                        DeviceStatus::Denied
                    },
                    spec_opt_str(user_id),
                ),
            ),
        ),
        !r ==> final(store)@ == old(store)@,
{
    let status = if approve {
        DeviceStatus::Approved
    } else {
        DeviceStatus::Denied
    };
    store.update_device_code_status(device_code, status, user_id)
}

/// The error, if any, of device-code polling at the token endpoint, in
/// order: missing or unknown client, missing code parameter, unknown or
/// foreign code, expiry, polling faster than the issued interval, then the
/// user's pending or denied state; only an approved code passes.
pub open spec fn spec_device_poll_error(
    s: StoreView,
    form: crate::authn::TokenFormV,
    auth: Option<ClientAuthV>,
    now: u64,
) -> Option<ErrorKind> {
    if auth is None {
        Some(ErrorKind::InvalidClient)
    } else if !s.clients.contains_key(auth->0.client_id) {
        Some(ErrorKind::InvalidClient)
    } else if form.device_code is None {
        Some(ErrorKind::InvalidRequest)
    } else if !s.device_codes.contains_key(form.device_code->0) {
        Some(ErrorKind::InvalidGrant)
    } else {
        let d = s.device_codes[form.device_code->0];
        if d.client_id != auth->0.client_id {
            Some(ErrorKind::InvalidGrant)
        } else if now >= d.expires_at {
            Some(ErrorKind::ExpiredToken)
        } else if now < spec_sat_add(d.last_poll, d.interval) {
            Some(ErrorKind::SlowDown)
        } else {
            match d.status {
                DeviceStatus::Pending => Some(ErrorKind::AuthorizationPending),
                DeviceStatus::Denied => Some(ErrorKind::AccessDenied),
                DeviceStatus::Approved => None,
            }
        }
    }
}

/// The storage after a failed poll: `authorization_pending` stamps the
/// poll time, `access_denied` consumes the dead code, and every other
/// failure leaves the storage unchanged.
pub open spec fn spec_device_poll_err_post(
    s: StoreView,
    form: crate::authn::TokenFormV,
    auth: Option<ClientAuthV>,
    now: u64,
) -> StoreView {
    if auth is Some && s.clients.contains_key(auth->0.client_id) && form.device_code is Some
        && s.device_codes.contains_key(form.device_code->0) {
        let d = s.device_codes[form.device_code->0];
        if d.client_id == auth->0.client_id && now < d.expires_at && now >= spec_sat_add(
            d.last_poll,
            d.interval,
        ) {
            match d.status {
                DeviceStatus::Pending => with_device_codes(
                    s,
                    s.device_codes.insert(
                        form.device_code->0,
                        DeviceCodeV { last_poll: now, ..d },
                    ),
                ),
                DeviceStatus::Denied => with_device_codes(
                    s,
                    s.device_codes.remove(form.device_code->0),
                ),
                DeviceStatus::Approved => s,
            }
        } else {
            s
        }
    } else {
        s
    }
}

/// Execute a device-code poll: look the code up, verify ownership, expiry
/// and polling rate, then act on the user's decision; an approved code is
/// consumed and minted exactly once.
pub fn process_device_code(
    store: &mut MemoryStore,
    form: &crate::authn::TokenForm,
    auth: Option<&ClientAuth>,
    dpop_jkt: Option<String>,
    now: u64,
) -> (r: Result<crate::grants::TokenEndpointResponse, ErrorKind>)
    requires
        old(store).wf(),
    ensures
        final(store).wf(),
        match r {
            Err(e) => spec_device_poll_error(
                old(store)@,
                form@,
                crate::grants::view_opt_auth_ref(auth),
                now,
            ) == Some(e) && final(store)@ == spec_device_poll_err_post(
                old(store)@,
                form@,
                crate::grants::view_opt_auth_ref(auth),
                now,
            ),
            Ok(resp) => spec_device_poll_error(
                old(store)@,
                form@,
                crate::grants::view_opt_auth_ref(auth),
                now,
            ) is None && {
                let s0 = old(store)@;
                let d = s0.device_codes[form@.device_code->0];
                let c = s0.clients[crate::grants::view_opt_auth_ref(auth)->0.client_id];
                crate::grants::spec_minted(
                    with_device_codes(s0, s0.device_codes.remove(form@.device_code->0)),
                    final(store)@,
                    resp@,
                    c.client_id,
                    d.user_id,
                    d.scope,
                    c.allow_refresh_tokens,
                    c.access_token_lifetime,
                    c.refresh_token_lifetime,
                    spec_opt_str(dpop_jkt),
                    now,
                )
            },
        },
{
    let a = match auth {
        Some(a) => a,
        None => {
            return Err(ErrorKind::InvalidClient);
        },
    };
    let info = match store.get_client(a.client_id.as_str()) {
        Some(c) => (
            c.client_id.clone(),
            c.access_token_lifetime,
            c.refresh_token_lifetime,
            c.allow_refresh_tokens,
        ),
        None => {
            return Err(ErrorKind::InvalidClient);
        },
    };
    let code = match &form.device_code {
        Some(c) => c,
        None => {
            return Err(ErrorKind::InvalidRequest);
        },
    };
    let d = match store.consume_device_code(code.as_str()) {
        Some(d) => d,
        None => {
            return Err(ErrorKind::InvalidGrant);
        },
    };
    let ghost s0 = old(store)@;
    if !str_eq(d.client_id.as_str(), a.client_id.as_str()) {
        let ghost dv = d@;
        store.put_device_code(d);
        proof {
            assert(store@.device_codes =~= s0.device_codes);
            assert(store@ =~= s0);
        }
        return Err(ErrorKind::InvalidGrant);
    }
    if now >= d.expires_at {
        let ghost dv = d@;
        store.put_device_code(d);
        proof {
            assert(store@.device_codes =~= s0.device_codes);
            assert(store@ =~= s0);
        }
        return Err(ErrorKind::ExpiredToken);
    }
    if now < sat_add(d.last_poll, d.interval) {
        let ghost dv = d@;
        store.put_device_code(d);
        proof {
            assert(store@.device_codes =~= s0.device_codes);
            assert(store@ =~= s0);
        }
        return Err(ErrorKind::SlowDown);
    }
    match d.status {
        DeviceStatus::Pending => {
            let mut d2 = d;
            d2.last_poll = now;
            store.put_device_code(d2);
            proof {
                assert(store@.device_codes =~= s0.device_codes.insert(
                    code@,
                    DeviceCodeV { last_poll: now, ..s0.device_codes[code@] },
                ));
            }
            Err(ErrorKind::AuthorizationPending)
        },
        DeviceStatus::Denied => Err(ErrorKind::AccessDenied),
        DeviceStatus::Approved => {
            Ok(
                crate::grants::mint_tokens(
                    store,
                    info.0,
                    d.user_id,
                    d.scope,
                    info.3,
                    info.1,
                    info.2,
                    dpop_jkt,
                    now,
                ),
            )
        },
    }
}

} // verus!
