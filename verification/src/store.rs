//! Token-lifecycle storage: the capability-set interface every backend
//! implements, a verified keyed table, and the in-memory backend built
//! from five of them.
//!
//! Every operation's contract is stated over [`StoreView`], a bundle of
//! finite maps from key strings to record views.  The "consume" operations
//! are atomic fetch-and-delete: their postcondition removes the key in the
//! same step that returns the record, which is what makes redeeming a
//! refresh token, authorization code or device code a single-winner race.
//!
//! This backend never fails transiently; a persistent backend that can is
//! driven by the surrounding application, which maps its faults to
//! `server_error` before they reach a caller.

use vstd::prelude::*;
use crate::assoc::{
    keyed_map, lemma_keyed_map_contains, lemma_keyed_map_index, lemma_keyed_map_push,
    lemma_keyed_map_remove, lemma_unique_push, lemma_unique_remove, unique_keys,
};
use crate::model::{
    AccessToken, AccessTokenV, AuthRequest, AuthRequestV, Client, ClientV, DeviceCodeRecord,
    DeviceCodeV, DeviceStatus, RefreshToken, RefreshTokenV,
};
use crate::text::str_eq;

verus! {

/// A record that a [`Table`] can hold: it carries its own key.
pub trait Keyed: View + Sized {
    /// The key of a record's view.
    spec fn vkey(v: Self::V) -> Seq<char>;

    /// The key of the record, as a string.
    fn key(&self) -> (r: &str)
        ensures
            r@ == Self::vkey(self@),
    ;
}

/// The key function of a record type, as a single spec value.
pub open spec fn kf<T: Keyed>() -> spec_fn(T::V) -> Seq<char> {
    |v: T::V| T::vkey(v)
}

/// A keyed table of records, viewed as a finite map from key to record view.
pub struct Table<T> {
    items: Vec<T>,
}

impl<T: Keyed> Table<T> {
    /// The record views, in insertion order.
    pub closed spec fn rows(self) -> Seq<T::V> {
        self.items@.map_values(|t: T| t@)
    }

    /// The map this table denotes.
    pub closed spec fn contents(self) -> Map<Seq<char>, T::V> {
        keyed_map(self.rows(), kf::<T>())
    }

    /// Well-formed: no two records share a key.
    pub closed spec fn wf(self) -> bool {
        unique_keys(self.rows(), kf::<T>())
    }

    /// An empty table.
    pub fn new() -> (r: Table<T>)
        ensures
            r.wf(),
            r.contents() == Map::<Seq<char>, T::V>::empty(),
    {
        let r = Table { items: Vec::new() };
        proof {
            assert(r.rows() =~= Seq::<T::V>::empty());
        }
        r
    }

    /// The index of the record carrying key `k`, if any.
    fn find_index(&self, k: &str) -> (r: Option<usize>)
        ensures
            match r {
                Some(i) => i < self.rows().len() && kf::<T>()(self.rows()[i as int]) == k@,
                None => forall|i: int|
                    0 <= i < self.rows().len() ==> kf::<T>()(#[trigger] self.rows()[i]) != k@,
            },
    {
        let n = self.items.len();
        let mut i: usize = 0;
        while i < n
            invariant
                n == self.items.len(),
                i <= n,
                self.rows().len() == n,
                forall|j: int| 0 <= j < i ==> kf::<T>()(#[trigger] self.rows()[j]) != k@,
            decreases n - i,
        {
            if str_eq(self.items[i].key(), k) {
                proof {
                    assert(self.rows()[i as int] == self.items@[i as int]@);
                }
                return Some(i);
            }
            proof {
                assert(self.rows()[i as int] == self.items@[i as int]@);
            }
            i += 1;
        }
        None
    }

    /// Look a record up by key.
    pub fn get(&self, k: &str) -> (r: Option<&T>)
        requires
            self.wf(),
        ensures
            match r {
                Some(t) => self.contents().contains_key(k@) && t@ == self.contents()[k@]
                    && T::vkey(t@) == k@,
                None => !self.contents().contains_key(k@),
            },
    {
        match self.find_index(k) {
            Some(i) => {
                proof {
                    lemma_keyed_map_index(self.rows(), kf::<T>(), i as int);
                    assert(self.rows()[i as int] == self.items@[i as int]@);
                }
                Some(&self.items[i])
            },
            None => {
                proof {
                    lemma_keyed_map_contains(self.rows(), kf::<T>(), k@);
                }
                None
            },
        }
    }

    /// Insert a record, replacing any record with the same key.
    pub fn put(&mut self, v: T)
        requires
            old(self).wf(),
        ensures
            final(self).wf(),
            final(self).contents() == old(self).contents().insert(T::vkey(v@), v@),
    {
        let idx = {
            let k = v.key();
            self.find_index(k)
        };
        proof {
            assert(kf::<T>()(v@) == T::vkey(v@));
        }
        match idx {
            Some(i) => {
                proof {
                    lemma_keyed_map_remove(self.rows(), kf::<T>(), i as int);
                    lemma_unique_remove(self.rows(), kf::<T>(), i as int);
                }
                let ghost old_rows = self.rows();
                let _ = self.items.remove(i);
                proof {
                    assert(self.rows() =~= old_rows.remove(i as int));
                    assert forall|j: int| 0 <= j < self.rows().len() implies kf::<T>()(
                        #[trigger] self.rows()[j],
                    ) != T::vkey(v@) by {
                        let j0 = if j < i as int { j } else { j + 1 };
                        assert(self.rows()[j] == old_rows[j0]);
                        assert(kf::<T>()(old_rows[j0]) != kf::<T>()(old_rows[i as int]));
                    }
                    lemma_unique_push(self.rows(), kf::<T>(), v@);
                    lemma_keyed_map_push(self.rows(), kf::<T>(), v@);
                }
                let ghost mid_rows = self.rows();
                self.items.push(v);
                proof {
                    assert(self.rows() =~= mid_rows.push(v@));
                }
            },
            None => {
                proof {
                    lemma_unique_push(self.rows(), kf::<T>(), v@);
                    lemma_keyed_map_push(self.rows(), kf::<T>(), v@);
                    lemma_keyed_map_contains(self.rows(), kf::<T>(), T::vkey(v@));
                }
                let ghost old_rows = self.rows();
                self.items.push(v);
                proof {
                    assert(self.rows() =~= old_rows.push(v@));
                    // the key was absent, so removing it first changes nothing
                    assert(keyed_map(old_rows, kf::<T>()).insert(T::vkey(v@), v@)
                        =~= old(self).contents().insert(T::vkey(v@), v@));
                }
            },
        }
    }

    /// Remove and return the record carrying key `k`: an atomic
    /// fetch-and-delete.
    pub fn take(&mut self, k: &str) -> (r: Option<T>)
        requires
            old(self).wf(),
        ensures
            final(self).wf(),
            final(self).contents() == old(self).contents().remove(k@),
            match r {
                Some(t) => old(self).contents().contains_key(k@) && t@ == old(
                    self,
                ).contents()[k@] && T::vkey(t@) == k@,
                None => !old(self).contents().contains_key(k@),
            },
    {
        match self.find_index(k) {
            Some(i) => {
                proof {
                    lemma_keyed_map_index(self.rows(), kf::<T>(), i as int);
                    lemma_keyed_map_remove(self.rows(), kf::<T>(), i as int);
                    lemma_unique_remove(self.rows(), kf::<T>(), i as int);
                }
                let ghost old_rows = self.rows();
                let t = self.items.remove(i);
                proof {
                    assert(t@ == old_rows[i as int]);
                    assert(self.rows() =~= old_rows.remove(i as int));
                }
                Some(t)
            },
            None => {
                proof {
                    lemma_keyed_map_contains(self.rows(), kf::<T>(), k@);
                    assert(old(self).contents().remove(k@) =~= old(self).contents());
                }
                None
            },
        }
    }
}

impl Keyed for Client {
    open spec fn vkey(v: ClientV) -> Seq<char> {
        v.client_id
    }

    fn key(&self) -> (r: &str) {
        self.client_id.as_str()
    }
}

impl Keyed for AccessToken {
    open spec fn vkey(v: AccessTokenV) -> Seq<char> {
        v.token
    }

    fn key(&self) -> (r: &str) {
        self.token.as_str()
    }
}

impl Keyed for RefreshToken {
    open spec fn vkey(v: RefreshTokenV) -> Seq<char> {
        v.token
    }

    fn key(&self) -> (r: &str) {
        self.token.as_str()
    }
}

impl Keyed for AuthRequest {
    open spec fn vkey(v: AuthRequestV) -> Seq<char> {
        v.code
    }

    fn key(&self) -> (r: &str) {
        self.code.as_str()
    }
}

impl Keyed for DeviceCodeRecord {
    open spec fn vkey(v: DeviceCodeV) -> Seq<char> {
        v.device_code
    }

    fn key(&self) -> (r: &str) {
        self.device_code.as_str()
    }
}


/// The mathematical state of the storage: one finite map per record kind.
#[verifier::ext_equal]
pub struct StoreView {
    pub clients: Map<Seq<char>, ClientV>,
    pub access_tokens: Map<Seq<char>, AccessTokenV>,
    pub refresh_tokens: Map<Seq<char>, RefreshTokenV>,
    pub auth_requests: Map<Seq<char>, AuthRequestV>,
    pub device_codes: Map<Seq<char>, DeviceCodeV>,
}

/// `s` with its client map replaced.
pub open spec fn with_clients(s: StoreView, m: Map<Seq<char>, ClientV>) -> StoreView {
    StoreView { clients: m, ..s }
}

/// `s` with its access-token map replaced.
pub open spec fn with_access_tokens(s: StoreView, m: Map<Seq<char>, AccessTokenV>) -> StoreView {
    StoreView { access_tokens: m, ..s }
}

/// `s` with its refresh-token map replaced.
pub open spec fn with_refresh_tokens(s: StoreView, m: Map<Seq<char>, RefreshTokenV>) -> StoreView {
    StoreView { refresh_tokens: m, ..s }
}

/// `s` with its authorization-request map replaced.
pub open spec fn with_auth_requests(s: StoreView, m: Map<Seq<char>, AuthRequestV>) -> StoreView {
    StoreView { auth_requests: m, ..s }
}

/// `s` with its device-code map replaced.
pub open spec fn with_device_codes(s: StoreView, m: Map<Seq<char>, DeviceCodeV>) -> StoreView {
    StoreView { device_codes: m, ..s }
}

/// The in-memory storage backend.
pub struct MemoryStore {
    clients: Table<Client>,
    access_tokens: Table<AccessToken>,
    refresh_tokens: Table<RefreshToken>,
    auth_requests: Table<AuthRequest>,
    device_codes: Table<DeviceCodeRecord>,
}

impl View for MemoryStore {
    type V = StoreView;

    closed spec fn view(&self) -> StoreView {
        StoreView {
            clients: self.clients.contents(),
            access_tokens: self.access_tokens.contents(),
            refresh_tokens: self.refresh_tokens.contents(),
            auth_requests: self.auth_requests.contents(),
            device_codes: self.device_codes.contents(),
        }
    }
}


/// The stored device code with its approval status (and approving
/// subject) replaced, everything else kept.
pub open spec fn spec_status_update(
    d: DeviceCodeV,
    status: DeviceStatus,
    user_id: Option<Seq<char>>,
) -> DeviceCodeV {
    DeviceCodeV { status, user_id, ..d }
}

/// The storage capability set: what any backend must offer the engine,
/// with identical semantics — only durability and eviction policy may
/// differ between implementations.  Every operation is specified over the
/// backend's [`StoreView`]; the three "consume" operations are atomic
/// fetch-and-delete, the single cross-operation atomicity the engine
/// needs.
pub trait OAuthStorage: Sized {
    /// The mathematical state of the backend.
    spec fn sview(&self) -> StoreView;

    /// The backend's internal invariant.
    spec fn inv(&self) -> bool;

    /// Look a registered client up by id.
    fn get_client(&self, id: &str) -> (r: Option<&Client>)
        requires
            self.inv(),
        ensures
            match r {
                Some(c) => self.sview().clients.contains_key(id@) && c@
                    == self.sview().clients[id@] && c@.client_id == id@,
                None => !self.sview().clients.contains_key(id@),
            },
    ;

    /// Register or replace a client record.
    fn put_client(&mut self, c: Client)
        requires
            old(self).inv(),
        ensures
            final(self).inv(),
            final(self).sview() == with_clients(
                old(self).sview(),
                old(self).sview().clients.insert(c.client_id@, c@),
            ),
    ;

    /// Look an access token up.
    fn get_token(&self, token: &str) -> (r: Option<&AccessToken>)
        requires
            self.inv(),
        ensures
            match r {
                Some(t) => self.sview().access_tokens.contains_key(token@) && t@
                    == self.sview().access_tokens[token@] && t@.token == token@,
                None => !self.sview().access_tokens.contains_key(token@),
            },
    ;

    /// Delete an access token.  Returns whether it was present.
    fn revoke_token(&mut self, token: &str) -> (r: bool)
        requires
            old(self).inv(),
        ensures
            final(self).inv(),
            final(self).sview() == with_access_tokens(
                old(self).sview(),
                old(self).sview().access_tokens.remove(token@),
            ),
            r == old(self).sview().access_tokens.contains_key(token@),
    ;

    /// Record a freshly minted access token.
    fn put_access_token(&mut self, t: AccessToken)
        requires
            old(self).inv(),
        ensures
            final(self).inv(),
            final(self).sview() == with_access_tokens(
                old(self).sview(),
                old(self).sview().access_tokens.insert(t.token@, t@),
            ),
    ;

    /// Record a freshly minted refresh token.
    fn put_refresh_token(&mut self, t: RefreshToken)
        requires
            old(self).inv(),
        ensures
            final(self).inv(),
            final(self).sview() == with_refresh_tokens(
                old(self).sview(),
                old(self).sview().refresh_tokens.insert(t.token@, t@),
            ),
    ;

    /// Atomically fetch and delete a refresh token.  Of two racing callers
    /// one receives the record and the other observes absence.
    fn consume_refresh_token(&mut self, token: &str) -> (r: Option<RefreshToken>)
        requires
            old(self).inv(),
        ensures
            final(self).inv(),
            final(self).sview() == with_refresh_tokens(
                old(self).sview(),
                old(self).sview().refresh_tokens.remove(token@),
            ),
            match r {
                Some(t) => old(self).sview().refresh_tokens.contains_key(token@) && t@ == old(
                    self,
                ).sview().refresh_tokens[token@] && t@.token == token@,
                None => !old(self).sview().refresh_tokens.contains_key(token@),
            },
    ;

    /// Store an authorization request under its code.
    fn put_authorization_request(&mut self, a: AuthRequest)
        requires
            old(self).inv(),
        ensures
            final(self).inv(),
            final(self).sview() == with_auth_requests(
                old(self).sview(),
                old(self).sview().auth_requests.insert(a.code@, a@),
            ),
    ;

    /// Atomically fetch and delete an authorization request by code.
    fn consume_authorization_request(&mut self, code: &str) -> (r: Option<AuthRequest>)
        requires
            old(self).inv(),
        ensures
            final(self).inv(),
            final(self).sview() == with_auth_requests(
                old(self).sview(),
                old(self).sview().auth_requests.remove(code@),
            ),
            match r {
                Some(a) => old(self).sview().auth_requests.contains_key(code@) && a@ == old(
                    self,
                ).sview().auth_requests[code@] && a@.code == code@,
                None => !old(self).sview().auth_requests.contains_key(code@),
            },
    ;

    /// Store a device code record.
    fn put_device_code(&mut self, d: DeviceCodeRecord)
        requires
            old(self).inv(),
        ensures
            final(self).inv(),
            final(self).sview() == with_device_codes(
                old(self).sview(),
                old(self).sview().device_codes.insert(d.device_code@, d@),
            ),
    ;

    /// Look a device code up.
    fn get_device_code(&self, code: &str) -> (r: Option<&DeviceCodeRecord>)
        requires
            self.inv(),
        ensures
            match r {
                Some(d) => self.sview().device_codes.contains_key(code@) && d@
                    == self.sview().device_codes[code@] && d@.device_code == code@,
                None => !self.sview().device_codes.contains_key(code@),
            },
    ;

    /// Atomically fetch and delete a device code.
    fn consume_device_code(&mut self, code: &str) -> (r: Option<DeviceCodeRecord>)
        requires
            old(self).inv(),
        ensures
            final(self).inv(),
            final(self).sview() == with_device_codes(
                old(self).sview(),
                old(self).sview().device_codes.remove(code@),
            ),
            match r {
                Some(d) => old(self).sview().device_codes.contains_key(code@) && d@ == old(
                    self,
                ).sview().device_codes[code@] && d@.device_code == code@,
                None => !old(self).sview().device_codes.contains_key(code@),
            },
    ;

    /// Set the approval status (and approving subject) of a stored device
    /// code.  Returns whether the code was present.
    fn update_device_code_status(
        &mut self,
        code: &str,
        status: DeviceStatus,
        user_id: Option<String>,
    ) -> (r: bool)
        requires
            old(self).inv(),
        ensures
            final(self).inv(),
            r == old(self).sview().device_codes.contains_key(code@),
            r ==> final(self).sview() == with_device_codes(
                old(self).sview(),
                old(self).sview().device_codes.insert(
                    code@,
                    spec_status_update(
                        old(self).sview().device_codes[code@],
                        status,
                        crate::text::spec_opt_str(user_id),
                    ),
                ),
            ),
            !r ==> final(self).sview() == old(self).sview(),
    ;
}

impl MemoryStore {
    /// Well-formed: each table carries each key at most once.
    pub closed spec fn wf(self) -> bool {
        self.clients.wf() && self.access_tokens.wf() && self.refresh_tokens.wf()
            && self.auth_requests.wf() && self.device_codes.wf()
    }

    /// An empty store.
    pub fn new() -> (r: MemoryStore)
        ensures
            r.wf(),
            r@.clients == Map::<Seq<char>, ClientV>::empty(),
            r@.access_tokens == Map::<Seq<char>, AccessTokenV>::empty(),
            r@.refresh_tokens == Map::<Seq<char>, RefreshTokenV>::empty(),
            r@.auth_requests == Map::<Seq<char>, AuthRequestV>::empty(),
            r@.device_codes == Map::<Seq<char>, DeviceCodeV>::empty(),
    {
        MemoryStore {
            clients: Table::new(),
            access_tokens: Table::new(),
            refresh_tokens: Table::new(),
            auth_requests: Table::new(),
            device_codes: Table::new(),
        }
    }

}

impl OAuthStorage for MemoryStore {
    /// The view of the in-memory store.
    open spec fn sview(&self) -> StoreView {
        self@
    }

    /// The in-memory store's invariant.
    open spec fn inv(&self) -> bool {
        self.wf()
    }

    fn get_client(&self, id: &str) -> (r: Option<&Client>) {
        self.clients.get(id)
    }

    fn put_client(&mut self, c: Client) {
        self.clients.put(c);
    }

    fn get_token(&self, token: &str) -> (r: Option<&AccessToken>) {
        self.access_tokens.get(token)
    }

    fn revoke_token(&mut self, token: &str) -> (r: bool) {
        self.access_tokens.take(token).is_some()
    }

    fn put_access_token(&mut self, t: AccessToken) {
        self.access_tokens.put(t);
    }

    fn put_refresh_token(&mut self, t: RefreshToken) {
        self.refresh_tokens.put(t);
    }

    fn consume_refresh_token(&mut self, token: &str) -> (r: Option<RefreshToken>) {
        self.refresh_tokens.take(token)
    }

    fn put_authorization_request(&mut self, a: AuthRequest) {
        self.auth_requests.put(a);
    }

    fn consume_authorization_request(&mut self, code: &str) -> (r: Option<AuthRequest>) {
        self.auth_requests.take(code)
    }

    fn put_device_code(&mut self, d: DeviceCodeRecord) {
        self.device_codes.put(d);
    }

    fn get_device_code(&self, code: &str) -> (r: Option<&DeviceCodeRecord>) {
        self.device_codes.get(code)
    }

    fn consume_device_code(&mut self, code: &str) -> (r: Option<DeviceCodeRecord>) {
        self.device_codes.take(code)
    }

    fn update_device_code_status(
        &mut self,
        code: &str,
        status: DeviceStatus,
        user_id: Option<String>,
    ) -> (r: bool) {
        match self.device_codes.take(code) {
            Some(mut d) => {
                d.status = status;
                d.user_id = user_id;
                self.device_codes.put(d);
                proof {
                    assert(self@.device_codes =~= old(self)@.device_codes.insert(
                        code@,
                        spec_status_update(
                            old(self)@.device_codes[code@],
                            status,
                            crate::text::spec_opt_str(user_id),
                        ),
                    ));
                }
                true
            },
            None => {
                proof {
                    assert(self@.device_codes =~= old(self)@.device_codes);
                    assert(self@ =~= old(self)@);
                }
                false
            },
        }
    }
}

} // verus!
