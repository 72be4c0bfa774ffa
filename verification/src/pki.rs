//! The boundary to the X.509 library: key generation, key and certificate
//! encoding, and certificate construction.  Everything here either declares an
//! outside type or wraps one outside operation; the role-dependent parameters
//! the wrappers receive are computed and verified in [`crate::cert`].

use vstd::prelude::*;
use crate::cert::{
    spec_inter_common_name, spec_root_common_name, valid_ymd, InterTarget, Ymd,
};
use picky::hash::HashAlgorithm;
use picky::key::{KeyError, PrivateKey};
use picky::signature::SignatureAlgorithm;
use picky::x509::certificate::{CertError, CertificateBuilder};
use picky::x509::date::UTCDate;
use picky::x509::name::DirectoryName;
use picky::x509::{Cert, KeyIdGenMethod};

verus! {

#[verifier::external_type_specification]
#[verifier::external_body]
pub struct ExPrivateKey(PrivateKey);

#[verifier::external_type_specification]
#[verifier::external_body]
pub struct ExCert(Cert);

#[verifier::external_type_specification]
#[verifier::external_body]
pub struct ExKeyError(KeyError);

#[verifier::external_type_specification]
#[verifier::external_body]
pub struct ExCertError(CertError);

/// Relies on the derived `Clone` of `picky::key::PrivateKey`, which copies
/// the key material.
pub assume_specification[ <PrivateKey as Clone>::clone ](key: &PrivateKey) -> PrivateKey;

/// Whether the bytes are a well-formed PKCS#8 private-key document, as
/// `PrivateKey::from_pkcs8` decides it; deterministic in the bytes.
pub uninterp spec fn pkcs8_ok(der: Seq<u8>) -> bool;

/// Whether the text is a PEM document holding a private key that
/// `PrivateKey::from_pem_str` accepts; deterministic in the text.
pub uninterp spec fn key_pem_ok(pem: Seq<char>) -> bool;

/// Whether the bytes are a DER-encoded certificate that `Cert::from_der`
/// accepts; deterministic in the bytes.
pub uninterp spec fn cert_der_ok(der: Seq<u8>) -> bool;

/// Relies on `PrivateKey::generate_rsa`: produces a fresh RSA key pair of the
/// requested modulus size from the system's random source.  Nothing is
/// assumed of the result; failure of the underlying primitive is fatal to the
/// caller.
#[verifier::external_body]
pub fn generate_keypair(bits: usize) -> (r: Result<PrivateKey, KeyError>)
{
    PrivateKey::generate_rsa(bits)
}

/// Relies on `PrivateKey::to_pkcs8`: serializes the key as a PKCS#8 document,
/// which `PrivateKey::from_pkcs8` parses back.
#[verifier::external_body]
pub fn key_to_pkcs8(key: &PrivateKey) -> (r: Result<Vec<u8>, KeyError>)
    ensures
        r matches Ok(der) ==> pkcs8_ok(der@),
{
    key.to_pkcs8()
}

/// Relies on `PrivateKey::from_pkcs8`: parses a PKCS#8 document, accepting
/// exactly the well-formed ones.
#[verifier::external_body]
pub fn key_from_pkcs8(der: &[u8]) -> (r: Result<PrivateKey, KeyError>)
    ensures
        r is Ok <==> pkcs8_ok(der@),
{
    PrivateKey::from_pkcs8(der)
}

/// Relies on `PrivateKey::from_pem_str`: parses a PEM-encoded private key,
/// accepting exactly the well-formed ones.
#[verifier::external_body]
pub fn key_from_pem(pem: &str) -> (r: Result<PrivateKey, KeyError>)
    ensures
        r is Ok <==> key_pem_ok(pem@),
{
    PrivateKey::from_pem_str(pem)
}

/// Relies on `Cert::to_der`: serializes the certificate as DER, which
/// `Cert::from_der` parses back.
#[verifier::external_body]
pub fn cert_to_der(cert: &Cert) -> (r: Result<Vec<u8>, CertError>)
    ensures
        r matches Ok(der) ==> cert_der_ok(der@),
{
    cert.to_der()
}

/// Relies on `Cert::from_der`: parses a DER-encoded certificate, accepting
/// exactly the well-formed ones.
#[verifier::external_body]
pub fn cert_from_der(der: &[u8]) -> (r: Result<Cert, CertError>)
    ensures
        r is Ok <==> cert_der_ok(der@),
{
    Cert::from_der(der)
}

/// Relies on `CertificateBuilder`: produces a self-signed certificate whose
/// subject and issuer common name is `cn`, valid over the given window, with
/// the given `CA` basic constraint and no path length restriction, signed
/// with RSA PKCS#1 v1.5 over SHA-512, the key identifier derived from the
/// full DER-encoded subject public key via SHA-512.  The arguments must
/// carry the root profile: the organisational name, a twenty-year window
/// and the `CA` mark, so every caller is held to it.
#[verifier::external_body]
pub fn build_self_signed(
    key: &PrivateKey,
    cn: &str,
    not_before: Ymd,
    not_after: Ymd,
    ca: bool,
) -> (r: Result<Cert, CertError>)
    requires
        valid_ymd(not_before),
        valid_ymd(not_after),
        cn@ == spec_root_common_name(),
        not_after.year == not_before.year + 20,
        not_after.month == not_before.month,
        not_after.day == not_before.day,
        ca,
{
    CertificateBuilder::new()
        .validity(
            UTCDate::ymd(not_before.year, not_before.month, not_before.day).unwrap(),
            UTCDate::ymd(not_after.year, not_after.month, not_after.day).unwrap(),
        )
        .self_signed(DirectoryName::new_common_name(cn), key)
        .ca(ca)
        .signature_hash_type(SignatureAlgorithm::RsaPkcs1v15(HashAlgorithm::SHA2_512))
        .key_id_gen_method(KeyIdGenMethod::SPKFullDER(HashAlgorithm::SHA2_512))
        .build()
}

/// Relies on `CertificateBuilder`: produces a certificate for the subject
/// key, chained to and signed by the issuer, with subject common name `cn`,
/// the given validity window, `CA` basic constraint and path length, signed
/// with RSA PKCS#1 v1.5 over SHA-512, the key identifier derived from the
/// full DER-encoded subject public key via SHA-512.  The arguments must
/// carry the intermediate profile: the subject names one of the two targets,
/// the window spans five years, and the certificate is a `CA` restricted to
/// a path length of zero, so every caller is held to it.
#[verifier::external_body]
pub fn build_issued(
    subject_key: &PrivateKey,
    issuer_cert: &Cert,
    issuer_key: &PrivateKey,
    cn: &str,
    not_before: Ymd,
    not_after: Ymd,
    ca: bool,
    pathlen: u8,
) -> (r: Result<Cert, CertError>)
    requires
        valid_ymd(not_before),
        valid_ymd(not_after),
        exists|t: InterTarget| cn@ == #[trigger] spec_inter_common_name(t),
        not_after.year == not_before.year + 5,
        not_after.month == not_before.month,
        not_after.day == not_before.day,
        ca,
        pathlen == 0,
{
    CertificateBuilder::new()
        .validity(
            UTCDate::ymd(not_before.year, not_before.month, not_before.day).unwrap(),
            UTCDate::ymd(not_after.year, not_after.month, not_after.day).unwrap(),
        )
        .issuer_cert(issuer_cert, issuer_key)
        .ca(ca)
        .signature_hash_type(SignatureAlgorithm::RsaPkcs1v15(HashAlgorithm::SHA2_512))
        .key_id_gen_method(KeyIdGenMethod::SPKFullDER(HashAlgorithm::SHA2_512))
        .pathlen(pathlen)
        .subject(DirectoryName::new_common_name(cn), subject_key.to_public_key())
        .build()
}

} // verus!
