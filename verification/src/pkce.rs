//! PKCE (RFC 7636): code-verifier generation, `S256` challenge derivation
//! and verifier-against-challenge checking.

use vstd::prelude::*;
use crate::crypto::{b64url_nopad_encode, b64url_nopad_of, random_bytes_32, sha256, sha256_of};
use crate::text::str_eq;

verus! {

/// The PKCE challenge methods the engine accepts.
#[derive(Clone, Copy, Debug, PartialEq, Eq, Structural)]
pub enum PkceMethod {
    Plain,
    S256,
}

/// The `S256` challenge a verifier string derives to: the unpadded base64url
/// text of the SHA-256 digest of the verifier's UTF-8 bytes.
pub open spec fn spec_s256_challenge(verifier: Seq<char>) -> Seq<char> {
    b64url_nopad_of(sha256_of(vstd::utf8::encode_utf8(verifier)))
}

/// Whether a code verifier satisfies a stored challenge under a method:
/// `S256` compares the derived challenge, `plain` compares the text itself.
pub open spec fn spec_pkce_ok(method: PkceMethod, verifier: Seq<char>, challenge: Seq<char>) -> bool {
    match method {
        PkceMethod::S256 => spec_s256_challenge(verifier) == challenge,
        PkceMethod::Plain => verifier == challenge,
    }
}

/// Generate a cryptographically secure code verifier for PKCE: 32 random
/// bytes as 43 characters of unpadded base64url text.
pub fn generate_code_verifier() -> (r: String)
    ensures
        r@.len() == 43,
{
    let bytes = random_bytes_32();
    b64url_nopad_encode(bytes.as_slice())
}

/// Generate the `S256` code challenge of a verifier.
pub fn generate_code_challenge(verifier: &str) -> (r: String)
    ensures
        r@ == spec_s256_challenge(verifier@),
{
    let digest = sha256(verifier.as_bytes());
    b64url_nopad_encode(digest.as_slice())
}

/// Check a code verifier against a stored challenge.  Succeeds iff the
/// derived (`S256`) or literal (`plain`) text equals the challenge.
pub fn verify_code_challenge(method: PkceMethod, verifier: &str, challenge: &str) -> (r: bool)
    ensures
        r == spec_pkce_ok(method, verifier@, challenge@),
{
    match method {
        PkceMethod::S256 => {
            let derived = generate_code_challenge(verifier);
            str_eq(derived.as_str(), challenge)
        },
        PkceMethod::Plain => str_eq(verifier, challenge),
    }
}

} // verus!
