//! Trusted bridge to the cryptographic and encoding primitives the engine
//! rests on: SHA-256 digests, base64 encodings, random token material and
//! UTF-8 decoding.  Each outside call sits behind one wrapper whose contract
//! states only what the callee's documentation promises.

use vstd::prelude::*;
use base64::Engine;
use sha2::Digest;

verus! {

/// The SHA-256 digest of a byte sequence.  The digest is a function of the
/// input alone; its value is not written out here, so nothing is believed of
/// it beyond its length.
pub uninterp spec fn sha256_of(data: Seq<u8>) -> Seq<u8>;

/// The base64url encoding without padding of a byte sequence.
pub uninterp spec fn b64url_nopad_of(data: Seq<u8>) -> Seq<char>;

/// What base64 (standard alphabet, padded) decoding returns for a string:
/// the decoded bytes, or nothing when the input is not valid base64.
pub uninterp spec fn b64_decode_of(s: Seq<char>) -> Option<Seq<u8>>;

/// Relies on sha2's `Sha256::digest`: a 32-byte digest that depends on the
/// input bytes alone.
#[verifier::external_body]
pub(crate) fn sha256(data: &[u8]) -> (r: Vec<u8>)
    ensures
        r@ == sha256_of(data@),
        r@.len() == 32,
{
    sha2::Sha256::digest(data).to_vec()
}

/// Relies on base64's `URL_SAFE_NO_PAD.encode`: the unpadded base64url text
/// of the input, one character per 6 bits.
#[verifier::external_body]
pub(crate) fn b64url_nopad_encode(data: &[u8]) -> (r: String)
    ensures
        r@ == b64url_nopad_of(data@),
        r@.len() == (data@.len() * 4 + 2) / 3,
{
    base64::prelude::BASE64_URL_SAFE_NO_PAD.encode(data)
}

/// Relies on base64's `STANDARD.decode`: the bytes the input encodes, or an
/// error for text that is not valid padded base64.
#[verifier::external_body]
pub(crate) fn b64_decode(s: &str) -> (r: Option<Vec<u8>>)
    ensures
        match r {
            Some(b) => b64_decode_of(s@) == Some(b@),
            None => b64_decode_of(s@) is None,
        },
{
    match base64::prelude::BASE64_STANDARD.decode(s.as_bytes()) {
        Ok(b) => Some(b),
        Err(_) => None,
    }
}

/// Relies on rand's `random::<u8>()` (thread-local CSPRNG): 32 bytes about
/// whose values nothing is assumed.
#[verifier::external_body]
pub(crate) fn random_bytes_32() -> (r: Vec<u8>)
    ensures
        r@.len() == 32,
{
    let mut out = Vec::with_capacity(32);
    for _ in 0..32 {
        out.push(rand::random::<u8>());
    }
    out
}

/// Relies on std's `String::from_utf8`: succeeds exactly on valid UTF-8 and
/// returns the decoded characters.
#[verifier::external_body]
pub(crate) fn bytes_to_string(v: Vec<u8>) -> (r: Option<String>)
    ensures
        match r {
            Some(s) => vstd::utf8::valid_utf8(v@) && s@ == vstd::utf8::decode_utf8(v@),
            None => !vstd::utf8::valid_utf8(v@),
        },
{
    match String::from_utf8(v) {
        Ok(s) => Some(s),
        Err(_) => None,
    }
}

/// A freshly generated opaque token string: 32 random bytes in unpadded
/// base64url, hence 43 characters of unguessable text.
pub fn generate_token() -> (r: String)
    ensures
        r@.len() == 43,
{
    let bytes = random_bytes_32();
    b64url_nopad_encode(bytes.as_slice())
}

} // verus!
