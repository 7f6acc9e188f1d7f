//! The DPoP nonce provider: server nonces derived deterministically from a
//! process-wide seed, a generation counter and a coarse time window, so any
//! replica can validate a recently issued nonce without shared state.
//! Validation fails closed: only the nonce of the current window or of the
//! one before it is accepted.

use vstd::prelude::*;
use crate::crypto::{b64url_nopad_encode, b64url_nopad_of, sha256, sha256_of};
use crate::text::str_eq;

verus! {

/// The eight big-endian bytes of a 64-bit number.
pub open spec fn spec_u64_be_bytes(n: u64) -> Seq<u8> {
    seq![
        (n >> 56) as u8,
        (n >> 48) as u8,
        (n >> 40) as u8,
        (n >> 32) as u8,
        (n >> 24) as u8,
        (n >> 16) as u8,
        (n >> 8) as u8,
        n as u8,
    ]
}

/// The bytes a nonce is derived from: the seed's UTF-8 bytes, then the
/// generation counter, then the time-window index, both big-endian.
pub open spec fn spec_nonce_material(seed: Seq<char>, generation: u64, window: u64) -> Seq<u8> {
    vstd::utf8::encode_utf8(seed) + spec_u64_be_bytes(generation) + spec_u64_be_bytes(window)
}

/// The nonce of a window: unpadded base64url of the SHA-256 digest of the
/// material.
pub open spec fn spec_nonce_at(seed: Seq<char>, generation: u64, window: u64) -> Seq<char> {
    b64url_nopad_of(sha256_of(spec_nonce_material(seed, generation, window)))
}

/// The eight big-endian bytes of a 64-bit number.
pub fn u64_be_bytes(n: u64) -> (r: Vec<u8>)
    ensures
        r@ == spec_u64_be_bytes(n),
{
    let mut v: Vec<u8> = Vec::new();
    v.push((n >> 56) as u8);
    v.push((n >> 48) as u8);
    v.push((n >> 40) as u8);
    v.push((n >> 32) as u8);
    v.push((n >> 24) as u8);
    v.push((n >> 16) as u8);
    v.push((n >> 8) as u8);
    v.push(n as u8);
    proof {
        assert(v@ =~= spec_u64_be_bytes(n));
    }
    v
}

/// The DPoP nonce provider: seed, generation counter and window length.
#[derive(Clone, Debug)]
pub struct DpopNonceProvider {
    pub seed: String,
    pub generation: u64,
    /// Length of a nonce window, in seconds.  Must not be zero.
    pub window_secs: u64,
}

impl DpopNonceProvider {
    /// Well-formed: the window has a positive length.
    pub open spec fn wf(self) -> bool {
        self.window_secs > 0
    }

    /// A provider over the given seed and generation, with the given
    /// window length.
    pub fn new(seed: String, generation: u64, window_secs: u64) -> (r: DpopNonceProvider)
        requires
            window_secs > 0,
        ensures
            r.wf(),
            r.seed == seed,
            r.generation == generation,
            r.window_secs == window_secs,
    {
        DpopNonceProvider { seed, generation, window_secs }
    }

    /// The nonce of a given window index.
    pub fn nonce_for_window(&self, window: u64) -> (r: String)
        ensures
            r@ == spec_nonce_at(self.seed@, self.generation, window),
    {
        let mut material: Vec<u8> = Vec::new();
        let ghost empty = material@;
        material.extend_from_slice(self.seed.as_str().as_bytes());
        proof {
            assert(material@ =~= vstd::utf8::encode_utf8(self.seed@));
        }
        let g = u64_be_bytes(self.generation);
        let ghost mid1 = material@;
        material.extend_from_slice(g.as_slice());
        proof {
            assert(material@ =~= mid1 + spec_u64_be_bytes(self.generation));
        }
        let w = u64_be_bytes(window);
        let ghost mid2 = material@;
        material.extend_from_slice(w.as_slice());
        proof {
            assert(material@ =~= mid2 + spec_u64_be_bytes(window));
            assert(material@ =~= spec_nonce_material(self.seed@, self.generation, window));
        }
        let digest = sha256(material.as_slice());
        b64url_nopad_encode(digest.as_slice())
    }

    /// Issue the nonce of the current window.
    pub fn issue_nonce(&self, now: u64) -> (r: String)
        requires
            self.wf(),
        ensures
            r@ == spec_nonce_at(self.seed@, self.generation, now / self.window_secs),
    {
        self.nonce_for_window(now / self.window_secs)
    }

    /// Whether a nonce a client echoed is acceptable now: exactly the
    /// nonce of the current window or of the window before it.  Anything
    /// else — older, malformed, or foreign — is rejected, and the caller
    /// answers with a fresh nonce to retry with.
    pub fn validate_nonce(&self, nonce: &str, now: u64) -> (r: bool)
        requires
            self.wf(),
        ensures
            r == {
                let cur = now / self.window_secs;
                ||| nonce@ == spec_nonce_at(self.seed@, self.generation, cur)
                ||| (cur > 0 && nonce@ == spec_nonce_at(self.seed@, self.generation, (cur - 1) as u64))
            },
    {
        let cur = now / self.window_secs;
        let current = self.nonce_for_window(cur);
        if str_eq(nonce, current.as_str()) {
            return true;
        }
        if cur > 0 {
            let previous = self.nonce_for_window(cur - 1);
            if str_eq(nonce, previous.as_str()) {
                return true;
            }
        }
        false
    }
}

} // verus!
