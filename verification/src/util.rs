//! Account-credential primitives: session token generation and password
//! hashing.

use vstd::prelude::*;
use base64ct::{Base64UrlUnpadded, Encoding};
use argon2::password_hash::PasswordHasher;
use argon2::Argon2;
use rand::Rng;

verus! {

/// The BLAKE3 digest of the input bytes: 32 bytes, a function of the input
/// alone.
pub uninterp spec fn blake3_of(data: Seq<u8>) -> Seq<u8>;

/// The unpadded URL-safe base64 encoding of the input bytes: a function of
/// the input alone.
pub uninterp spec fn base64url_of(data: Seq<u8>) -> Seq<char>;

/// The characters of the URL-safe base64 alphabet.
pub open spec fn is_base64url_char(c: char) -> bool {
    ('A' <= c && c <= 'Z') || ('a' <= c && c <= 'z') || ('0' <= c && c <= '9') || c == '-' || c
        == '_'
}

/// Relies on `blake3::hash`: the 32-byte digest of the input.
#[verifier::external_body]
fn blake3_hash32(data: &[u8]) -> (r: Vec<u8>)
    ensures
        r@ == blake3_of(data@),
        r@.len() == 32,
{
    blake3::hash(data).as_bytes().to_vec()
}

/// Relies on `Base64UrlUnpadded::encode_string`: four output characters for
/// every three input bytes, rounded up, without padding, all drawn from the
/// URL-safe alphabet.
#[verifier::external_body]
fn base64url_encode(data: &[u8]) -> (r: String)
    requires
        data@.len() <= usize::MAX / 4,
    ensures
        r@ == base64url_of(data@),
        r@.len() == (data@.len() * 4 + 2) / 3,
        forall|i: int| 0 <= i < r@.len() ==> is_base64url_char(#[trigger] r@[i]),
{
    Base64UrlUnpadded::encode_string(data)
}

/// Relies on the thread-local cryptographically secure random generator of
/// `rand`: 32 fresh bytes; nothing is assumed of their values.
#[verifier::external_body]
fn random_bytes_32() -> (r: Vec<u8>)
    ensures
        r@.len() == 32,
{
    let mut buf = [0u8; 32];
    rand::rng().fill_bytes(&mut buf);
    buf.to_vec()
}

/// Draws a fresh session token: 32 random bytes, hashed with BLAKE3 and
/// rendered as unpadded URL-safe base64, giving 43 characters.
pub fn generate_session_token() -> (r: String)
    ensures
        r@.len() == 43,
        forall|i: int| 0 <= i < r@.len() ==> is_base64url_char(#[trigger] r@[i]),
        exists|b: Seq<u8>| b.len() == 32 && r@ == base64url_of(#[trigger] blake3_of(b)),
{
    let randombytes = random_bytes_32();
    let session_token = base64url_encode(blake3_hash32(randombytes.as_slice()).as_slice());
    proof {
        assert(session_token@ == base64url_of(blake3_of(randombytes@)));
    }
    session_token
}

/// Relies on argon2's `hash_password`: hashes the password with the default
/// Argon2id parameters under a fresh random salt and renders the PHC string.
/// The salt is random, so nothing is assumed of the result; failure of the
/// underlying primitive surfaces as `None`.
#[verifier::external_body]
pub fn hash_password(password: String) -> (r: Option<String>)
{
    let argon2 = Argon2::default();
    argon2.hash_password(password.as_bytes()).ok().map(|h| h.to_string())
}

} // verus!
