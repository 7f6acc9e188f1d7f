//! The client authenticator: extracts and verifies a client identity from
//! the request headers and the parsed form body, in a fixed order of
//! precedence.  Header-based Basic authentication wins over form fields, so
//! a body smuggling a different `client_id` past a Basic header cannot
//! confuse the engine; each method fails closed.
//!
//! A `private_key_jwt` assertion reaches the engine already parsed and
//! signature-checked by the caller's JWT library (that check needs the
//! client's key material and a cryptographic library the engine only
//! consumes); the engine decides the protocol part: issuer, audience,
//! expiry and registered method.

use vstd::prelude::*;
use crate::crypto::{b64_decode, b64_decode_of, bytes_to_string};
use crate::model::{ClientAuth, ClientAuthMethod, ClientAuthV};
use crate::store::{MemoryStore, OAuthStorage, StoreView};
use crate::text::{spec_has_prefix, spec_opt_str, str_eq, strip_prefix_str};
use vstd::string::StrSliceExecFns;

verus! {

/// The client-assertion type of RFC 7523 `private_key_jwt` authentication.
pub open spec fn spec_jwt_bearer_type() -> Seq<char> {
    "urn:ietf:params:oauth:client-assertion-type:jwt-bearer"@
}

/// One request header, name and value.  Names are expected lower-case, as
/// HTTP libraries normalize them.
#[derive(Clone, Debug)]
pub struct Header {
    pub name: String,
    pub value: String,
}

/// The mathematical view of a [`Header`].
#[verifier::ext_equal]
pub struct HeaderV {
    pub name: Seq<char>,
    pub value: Seq<char>,
}

impl View for Header {
    type V = HeaderV;

    open spec fn view(&self) -> HeaderV {
        HeaderV { name: self.name@, value: self.value@ }
    }
}

/// The full set of request headers.
#[derive(Clone, Debug)]
pub struct RequestHeaders {
    pub headers: Vec<Header>,
}

impl View for RequestHeaders {
    type V = Seq<HeaderV>;

    open spec fn view(&self) -> Seq<HeaderV> {
        self.headers@.map_values(|h: Header| h@)
    }
}

/// The value of the first header with the given name, if any.
pub open spec fn spec_header_value(hs: Seq<HeaderV>, name: Seq<char>) -> Option<Seq<char>>
    decreases hs.len(),
{
    if hs.len() == 0 {
        None
    } else if hs[0].name == name {
        Some(hs[0].value)
    } else {
        spec_header_value(hs.drop_first(), name)
    }
}

impl RequestHeaders {
    /// A header set with no headers.
    pub fn empty() -> (r: RequestHeaders)
        ensures
            r@ =~= Seq::<HeaderV>::empty(),
    {
        RequestHeaders { headers: Vec::new() }
    }

    /// Look the first header with this name up.
    pub fn get(&self, name: &str) -> (r: Option<&String>)
        ensures
            match r {
                Some(v) => spec_header_value(self@, name@) == Some(v@),
                None => spec_header_value(self@, name@) is None,
            },
    {
        let n = self.headers.len();
        let mut i: usize = 0;
        proof {
            assert(self@.skip(0) =~= self@);
        }
        while i < n
            invariant
                n == self.headers.len(),
                i <= n,
                self@.len() == n,
                spec_header_value(self@, name@) == spec_header_value(
                    self@.skip(i as int),
                    name@,
                ),
            decreases n - i,
        {
            proof {
                assert(self@[i as int] == self.headers@[i as int]@);
                assert(self@.skip(i as int)[0] == self@[i as int]);
            }
            if str_eq(self.headers[i].name.as_str(), name) {
                return Some(&self.headers[i].value);
            }
            proof {
                assert(self@.skip(i as int).drop_first() =~= self@.skip(i + 1));
            }
            i += 1;
        }
        proof {
            assert(self@.skip(n as int) =~= Seq::<HeaderV>::empty());
        }
        None
    }
}

/// The form body of a token or revocation request, as the HTTP layer
/// parsed it.
#[derive(Clone, Debug)]
pub struct TokenForm {
    pub grant_type: String,
    pub code: Option<String>,
    pub redirect_uri: Option<String>,
    pub client_id: Option<String>,
    pub client_secret: Option<String>,
    pub client_assertion: Option<String>,
    pub client_assertion_type: Option<String>,
    pub code_verifier: Option<String>,
    pub scope: Option<String>,
    pub refresh_token: Option<String>,
    pub device_code: Option<String>,
}

/// The mathematical view of a [`TokenForm`].
#[verifier::ext_equal]
pub struct TokenFormV {
    pub grant_type: Seq<char>,
    pub code: Option<Seq<char>>,
    pub redirect_uri: Option<Seq<char>>,
    pub client_id: Option<Seq<char>>,
    pub client_secret: Option<Seq<char>>,
    pub client_assertion: Option<Seq<char>>,
    pub client_assertion_type: Option<Seq<char>>,
    pub code_verifier: Option<Seq<char>>,
    pub scope: Option<Seq<char>>,
    pub refresh_token: Option<Seq<char>>,
    pub device_code: Option<Seq<char>>,
}

impl View for TokenForm {
    type V = TokenFormV;

    open spec fn view(&self) -> TokenFormV {
        TokenFormV {
            grant_type: self.grant_type@,
            code: self.code.deep_view(),
            redirect_uri: self.redirect_uri.deep_view(),
            client_id: self.client_id.deep_view(),
            client_secret: self.client_secret.deep_view(),
            client_assertion: self.client_assertion.deep_view(),
            client_assertion_type: self.client_assertion_type.deep_view(),
            code_verifier: self.code_verifier.deep_view(),
            scope: self.scope.deep_view(),
            refresh_token: self.refresh_token.deep_view(),
            device_code: self.device_code.deep_view(),
        }
    }
}

/// A client assertion after the caller's JWT library has parsed it and
/// checked its signature against the key material registered for the
/// issuing client.  The engine never sees the raw JWT.
#[derive(Clone, Debug)]
pub struct AssertionClaims {
    /// The `iss` claim: the client id the assertion speaks for.
    pub iss: String,
    /// The `aud` claim: must equal the token endpoint URL.
    pub aud: String,
    /// The `exp` claim, in seconds.
    pub exp: u64,
    /// Whether the signature verified against the issuing client's
    /// registered key.
    pub signature_valid: bool,
}

/// The mathematical view of [`AssertionClaims`].
#[verifier::ext_equal]
pub struct AssertionClaimsV {
    pub iss: Seq<char>,
    pub aud: Seq<char>,
    pub exp: u64,
    pub signature_valid: bool,
}

impl View for AssertionClaims {
    type V = AssertionClaimsV;

    open spec fn view(&self) -> AssertionClaimsV {
        AssertionClaimsV {
            iss: self.iss@,
            aud: self.aud@,
            exp: self.exp,
            signature_valid: self.signature_valid,
        }
    }
}

/// The view of an optional client authentication result.
pub open spec fn view_opt_auth(r: Option<ClientAuth>) -> Option<ClientAuthV> {
    match r {
        Some(a) => Some(a@),
        None => None,
    }
}

/// What Basic credentials `id:secret` resolve to: the client, when it is
/// registered with exactly that secret.
pub open spec fn spec_basic_creds(s: StoreView, t: Seq<char>) -> Option<ClientAuthV> {
    match t.index_of_first(':') {
        Some(i) => {
            let id = t.take(i);
            let secret = t.skip(i + 1);
            if s.clients.contains_key(id) && s.clients[id].secret == Some(secret) {
                Some(ClientAuthV { client_id: id, method: ClientAuthMethod::Secret })
            } else {
                None
            }
        },
        None => None,
    }
}

/// What a `Basic` authorization header resolves to: base64, then UTF-8,
/// then `id:secret` against the registered client; malformed input at any
/// step resolves to nothing.
pub open spec fn spec_basic_auth(s: StoreView, h: Seq<char>) -> Option<ClientAuthV> {
    let rest = h.skip("Basic "@.len() as int);
    match b64_decode_of(rest) {
        Some(bytes) => if vstd::utf8::valid_utf8(bytes) {
            spec_basic_creds(s, vstd::utf8::decode_utf8(bytes))
        } else {
            None
        },
        None => None,
    }
}

/// What a `private_key_jwt` assertion resolves to: the issuing client,
/// when the signature verified and audience, expiry, assertion type and
/// registered method all hold.
pub open spec fn spec_assertion_auth(
    s: StoreView,
    form: TokenFormV,
    assertion: Option<AssertionClaimsV>,
    endpoint: Seq<char>,
    now: u64,
) -> Option<ClientAuthV> {
    match assertion {
        Some(ac) => if ac.signature_valid && ac.aud == endpoint && ac.exp > now
            && form.client_assertion_type == Some(spec_jwt_bearer_type())
            && s.clients.contains_key(ac.iss) && s.clients[ac.iss].auth_method
            == ClientAuthMethod::PrivateKeyJwt {
            Some(ClientAuthV { client_id: ac.iss, method: ClientAuthMethod::PrivateKeyJwt })
        } else {
            None
        },
        None => None,
    }
}

/// What plain form credentials resolve to: the client, when the secret
/// matches, or the client itself when it is registered public and no
/// secret was sent.
pub open spec fn spec_form_auth(s: StoreView, form: TokenFormV) -> Option<ClientAuthV> {
    let cid = form.client_id->0;
    if s.clients.contains_key(cid) {
        match form.client_secret {
            Some(sec) => if s.clients[cid].secret == Some(sec) {
                Some(ClientAuthV { client_id: cid, method: ClientAuthMethod::Secret })
            } else {
                None
            },
            None => if s.clients[cid].auth_method == ClientAuthMethod::Public {
                Some(ClientAuthV { client_id: cid, method: ClientAuthMethod::Public })
            } else {
                None
            },
        }
    } else {
        None
    }
}

/// The full authentication decision, in order of precedence: a `Basic`
/// header, then a client assertion, then plain form fields, else nothing.
pub open spec fn spec_authenticate(
    s: StoreView,
    headers: Seq<HeaderV>,
    form: TokenFormV,
    assertion: Option<AssertionClaimsV>,
    endpoint: Seq<char>,
    now: u64,
) -> Option<ClientAuthV> {
    let auth_header = spec_header_value(headers, "authorization"@);
    if auth_header is Some && spec_has_prefix(auth_header->0, "Basic "@) {
        spec_basic_auth(s, auth_header->0)
    } else if form.client_assertion is Some && form.client_assertion_type is Some {
        spec_assertion_auth(s, form, assertion, endpoint, now)
    } else if form.client_id is Some {
        spec_form_auth(s, form)
    } else {
        None
    }
}

/// The view of the optional assertion argument.
pub open spec fn view_opt_assertion(a: Option<&AssertionClaims>) -> Option<AssertionClaimsV> {
    match a {
        Some(ac) => Some(ac@),
        None => None,
    }
}

/// The first index of a character in a string.
fn find_char(s: &str, c: char) -> (r: Option<usize>)
    ensures
        match r {
            Some(i) => s@.index_of_first(c) == Some(i as int),
            None => s@.index_of_first(c) is None,
        },
{
    proof {
        s@.index_of_first_ensures(c);
    }
    let n = s.unicode_len();
    let mut i: usize = 0;
    while i < n
        invariant
            n == s@.len(),
            i <= n,
            forall|j: int| 0 <= j < i ==> s@[j] != c,
        decreases n - i,
    {
        if s.get_char(i) == c {
            proof {
                s@.index_of_first_ensures(c);
                assert(s@.contains(c));
            }
            return Some(i);
        }
        i += 1;
    }
    proof {
        s@.index_of_first_ensures(c);
        assert(forall|j: int| 0 <= j < s@.len() ==> s@[j] != c);
        if s@.contains(c) {
            let w = choose|w: int| 0 <= w < s@.len() && s@[w] == c;
        }
    }
    None
}

/// Resolve `Basic` credentials from the text after the scheme prefix.
fn basic_creds_auth(store: &MemoryStore, decoded: &str) -> (r: Option<ClientAuth>)
    requires
        store.wf(),
    ensures
        view_opt_auth(r) == spec_basic_creds(store@, decoded@),
{
    match find_char(decoded, ':') {
        Some(i) => {
            let n = decoded.unicode_len();
            proof {
                decoded@.index_of_first_ensures(':');
            }
            let id = decoded.substring_char(0, i);
            let secret = decoded.substring_char(i + 1, n);
            proof {
                assert(id@ =~= decoded@.take(i as int));
                assert(secret@ =~= decoded@.skip(i + 1));
            }
            match store.get_client(id) {
                Some(c) => {
                    match &c.secret {
                        Some(s2) => {
                            if str_eq(s2.as_str(), secret) {
                                Some(ClientAuth {
                                    client_id: id.to_owned(),
                                    method: ClientAuthMethod::Secret,
                                })
                            } else {
                                None
                            }
                        },
                        None => None,
                    }
                },
                None => None,
            }
        },
        None => None,
    }
}

/// Extract and verify the client identity of a request.  Returns the
/// verified client id and the method that authenticated it, or nothing:
/// callers decide whether the grant at hand admits an unauthenticated
/// (public) client.
pub fn authenticate_client(
    store: &MemoryStore,
    headers: &RequestHeaders,
    form: &TokenForm,
    assertion: Option<&AssertionClaims>,
    token_endpoint: &str,
    now: u64,
) -> (r: Option<ClientAuth>)
    requires
        store.wf(),
    ensures
        view_opt_auth(r) == spec_authenticate(
            store@,
            headers@,
            form@,
            view_opt_assertion(assertion),
            token_endpoint@,
            now,
        ),
{
    let auth_header = headers.get("authorization");
    match auth_header {
        Some(h) => {
            if let Some(rest) = strip_prefix_str(h.as_str(), "Basic ") {
                // Basic authentication decides; it fails closed.
                return match b64_decode(rest) {
                    Some(bytes) => {
                        match bytes_to_string(bytes) {
                            Some(t) => basic_creds_auth(store, t.as_str()),
                            None => None,
                        }
                    },
                    None => None,
                };
            }
        },
        None => {},
    }
    if form.client_assertion.is_some() && form.client_assertion_type.is_some() {
        // The assertion method decides; it fails closed.
        match assertion {
            Some(ac) => {
                let type_ok = match &form.client_assertion_type {
                    Some(t) => str_eq(
                        t.as_str(),
                        "urn:ietf:params:oauth:client-assertion-type:jwt-bearer",
                    ),
                    None => false,
                };
                if ac.signature_valid && str_eq(ac.aud.as_str(), token_endpoint) && ac.exp > now
                    && type_ok {
                    match store.get_client(ac.iss.as_str()) {
                        Some(c) => {
                            if c.auth_method == ClientAuthMethod::PrivateKeyJwt {
                                Some(ClientAuth {
                                    client_id: ac.iss.clone(),
                                    method: ClientAuthMethod::PrivateKeyJwt,
                                })
                            } else {
                                None
                            }
                        },
                        None => None,
                    }
                } else {
                    None
                }
            },
            None => None,
        }
    } else if form.client_id.is_some() {
        let cid = match &form.client_id {
            Some(c) => c.as_str(),
            None => "",
        };
        match store.get_client(cid) {
            Some(c) => {
                match &form.client_secret {
                    Some(sec) => {
                        let secret_ok = match &c.secret {
                            Some(s2) => str_eq(s2.as_str(), sec.as_str()),
                            None => false,
                        };
                        if secret_ok {
                            Some(ClientAuth {
                                client_id: cid.to_owned(),
                                method: ClientAuthMethod::Secret,
                            })
                        } else {
                            None
                        }
                    },
                    None => {
                        if c.auth_method == ClientAuthMethod::Public {
                            Some(ClientAuth {
                                client_id: cid.to_owned(),
                                method: ClientAuthMethod::Public,
                            })
                        } else {
                            None
                        }
                    },
                }
            },
            None => None,
        }
    } else {
        None
    }
}

} // verus!
