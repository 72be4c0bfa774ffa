//! Key custody: envelope encryption of private-key bytes at rest.
//!
//! Private keys are encrypted with the process-wide master key under
//! XChaCha20-Poly1305, an authenticated construction, with a fresh random
//! 192-bit nonce per record.  The master key is loaded once at startup from an
//! external key file; this module receives its raw bytes and never the file.

use vstd::prelude::*;
use crate::bootstrap::BootstrapError;
use chacha20poly1305::aead::{Aead, Generate};
use chacha20poly1305::{KeyInit, XChaCha20Poly1305, XNonce};

verus! {

/// The ciphertext XChaCha20-Poly1305 produces for the given 32-byte key,
/// 24-byte nonce and plaintext.  The construction is deterministic in these
/// three inputs.
pub uninterp spec fn seal_of(key: Seq<u8>, nonce: Seq<u8>, plaintext: Seq<u8>) -> Seq<u8>;

/// Relies on `XChaCha20Poly1305::encrypt` (with `KeyInit::new_from_slice`):
/// the ciphertext is a function of key, nonce and plaintext alone and is the
/// message followed by the 16-byte authentication tag; the cipher accepts
/// any 32-byte key, and encryption of an in-memory buffer fails only if the
/// plaintext exceeds the construction's maximum message length.
#[verifier::external_body]
fn xchacha_seal(key: &[u8], nonce: &[u8], plaintext: &[u8]) -> (r: Option<Vec<u8>>)
    requires
        key@.len() == 32,
        nonce@.len() == 24,
    ensures
        r matches Some(c) ==> c@ == seal_of(key@, nonce@, plaintext@) && c@.len()
            == plaintext@.len() + 16,
{
    let cipher = XChaCha20Poly1305::new_from_slice(key).ok()?;
    let nonce = XNonce::try_from(nonce).ok()?;
    cipher.encrypt(&nonce, plaintext).ok()
}

/// Relies on `XChaCha20Poly1305::decrypt`: authenticated decryption succeeds
/// exactly on the ciphertexts that encryption under the same key and nonce
/// produces, and returns the one plaintext that was sealed (the keystream is
/// a bijection on the message given key and nonce, so at most one plaintext
/// seals to a given ciphertext).
#[verifier::external_body]
fn xchacha_open(key: &[u8], nonce: &[u8], ciphertext: &[u8]) -> (r: Option<Vec<u8>>)
    requires
        key@.len() == 32,
        nonce@.len() == 24,
    ensures
        match r {
            Some(p) => ciphertext@ == seal_of(key@, nonce@, p@) && (forall|q: Seq<u8>|
                ciphertext@ == seal_of(key@, nonce@, q) ==> q == p@),
            None => forall|q: Seq<u8>| ciphertext@ != seal_of(key@, nonce@, q),
        },
{
    let cipher = XChaCha20Poly1305::new_from_slice(key).ok()?;
    let nonce = XNonce::try_from(nonce).ok()?;
    cipher.decrypt(&nonce, ciphertext).ok()
}

/// Relies on `XNonce::try_generate`: draws 24 bytes from the system's
/// cryptographically secure random source; nothing is assumed of the values.
#[verifier::external_body]
fn generate_nonce() -> (r: Option<Vec<u8>>)
    ensures
        r matches Some(n) ==> n@.len() == 24,
{
    XNonce::try_generate().ok().map(|n| n.to_vec())
}

/// The process-wide master key, held for the life of the process and used
/// only here.  Constructed once at startup from the configured key file's
/// bytes; a missing or malformed key file is a fatal configuration error.
pub struct Custody {
    key: Vec<u8>,
}

impl View for Custody {
    type V = Seq<u8>;

    closed spec fn view(&self) -> Seq<u8> {
        self.key@
    }
}

impl Custody {
    #[verifier::type_invariant]
    closed spec fn inv(self) -> bool {
        self.key@.len() == 32
    }

    /// Accepts the master key file's bytes, if the file was present and holds
    /// exactly the 32 bytes the cipher requires; anything else is a fatal
    /// `Config` error.
    pub fn new(key_bytes: Option<Vec<u8>>) -> (r: Result<Custody, BootstrapError>)
        ensures
            match r {
                Ok(c) => key_bytes matches Some(k) && k@.len() == 32 && c@ == k@,
                Err(e) => {
                    &&& e == BootstrapError::Config
                    &&& !(key_bytes matches Some(k) && k@.len() == 32)
                },
            },
    {
        match key_bytes {
            Some(k) => {
                if k.len() == 32 {
                    Ok(Custody { key: k })
                } else {
                    Err(BootstrapError::Config)
                }
            },
            None => Err(BootstrapError::Config),
        }
    }

    /// Envelope-encrypts private-key bytes: draws a fresh random nonce and
    /// seals the plaintext under the master key.  Returns the nonce and the
    /// ciphertext — the message plus its 16-byte authentication tag — in
    /// that order, for storage beside the certificate.
    pub fn encrypt_priv_key(&self, plaintext_key: &[u8]) -> (r: Result<
        (Vec<u8>, Vec<u8>),
        BootstrapError,
    >)
        ensures
            match r {
                Ok(p) => {
                    &&& p.0@.len() == 24
                    &&& p.1@ == seal_of(self@, p.0@, plaintext_key@)
                    &&& p.1@.len() == plaintext_key@.len() + 16
                },
                Err(e) => e == BootstrapError::KeyGen,
            },
    {
        proof {
            use_type_invariant(self);
        }
        let nonce = match generate_nonce() {
            Some(n) => n,
            None => {
                return Err(BootstrapError::KeyGen);
            },
        };
        match xchacha_seal(self.key.as_slice(), nonce.as_slice(), plaintext_key) {
            Some(ciphertext) => Ok((nonce, ciphertext)),
            None => Err(BootstrapError::KeyGen),
        }
    }

    /// Decrypts a stored private key.  Succeeds exactly on the pairs that
    /// [`Custody::encrypt_priv_key`] produced under the same master key;
    /// tampering, corruption or a wrong master key surface as a fatal
    /// `Decryption` error, never silently.
    pub fn decrypt_priv_key(&self, nonce: &[u8], ciphertext: &[u8]) -> (r: Result<
        Vec<u8>,
        BootstrapError,
    >)
        ensures
            match r {
                Ok(p) => {
                    &&& nonce@.len() == 24
                    &&& ciphertext@ == seal_of(self@, nonce@, p@)
                    &&& forall|q: Seq<u8>| ciphertext@ == seal_of(self@, nonce@, q) ==> q == p@
                },
                Err(e) => {
                    &&& e == BootstrapError::Decryption
                    &&& (nonce@.len() == 24 ==> forall|q: Seq<u8>|
                        ciphertext@ != seal_of(self@, nonce@, q))
                },
            },
    {
        proof {
            use_type_invariant(self);
        }
        if nonce.len() != 24 {
            return Err(BootstrapError::Decryption);
        }
        match xchacha_open(self.key.as_slice(), nonce, ciphertext) {
            Some(plaintext) => Ok(plaintext),
            None => Err(BootstrapError::Decryption),
        }
    }
}

} // verus!
