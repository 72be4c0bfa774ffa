//! Bootstrap sequencing: check-or-create the root and the two intermediate
//! authorities, in dependency order, at process start.
//!
//! For each required role the sequencer queries the store; on a hit it
//! decodes the stored certificate (and, for an intermediate, decrypts its
//! signing key) and carries it forward as issuer context, on a miss it mints
//! fresh material, persists it and carries the new authority forward.  The
//! root must exist before either intermediate is built, so the order is
//! fixed.  A duplicate-role rejection from the store means a concurrent
//! bootstrap won the insert; the loser re-reads and continues with the
//! winner's record.  Every other failure is fatal: the controller must never
//! serve traffic with an incomplete trust chain.

use vstd::prelude::*;
use crate::cert::{generate_inter_cert, generate_root_cert, valid_ymd, InterTarget, Types, Ymd};
use crate::custody::{seal_of, Custody};
use crate::pki::{self, cert_der_ok, pkcs8_ok};
use crate::store::{CertificateRecord, CertificateStore, RecordView, StoreError};
use picky::key::PrivateKey;
use picky::x509::Cert;

verus! {

/// The RSA modulus size of freshly minted intermediate keys.
pub const RSA_BITS: usize = 4096;

/// Why a bootstrap pass halted.  Every failure is fatal to startup except the
/// duplicate-role store rejection, which the sequencer resolves by re-reading
/// the store (someone else already bootstrapped that role).
#[derive(Clone, Copy, Debug, PartialEq, Eq, Structural)]
pub enum BootstrapError {
    /// The master key or root signing key configuration is missing or invalid.
    Config,
    /// Cryptographic key material could not be produced or protected.
    KeyGen,
    /// Certificate construction failed.
    Cert,
    /// Certificate bytes could not be encoded to or decoded from DER.
    Encoding,
    /// A stored private key failed authenticated decryption: configuration
    /// drift or data corruption, never to be ignored.
    Decryption,
    /// The store rejected a write for a reason the sequencer cannot resolve.
    Store,
}

/// An in-memory authority: the decoded certificate, its DER form as
/// persisted, and the signing key, decrypted for the duration of the pass and
/// never persisted in the clear.
pub struct CaCert {
    pub role: Types,
    pub cert: Cert,
    pub der: Vec<u8>,
    pub key: PrivateKey,
}

/// The complete trust chain a successful bootstrap hands to the controller.
pub struct CaChain {
    pub root: CaCert,
    pub proxy_intermediate: CaCert,
    pub client_intermediate: CaCert,
}

/// The later store state keeps every record of the earlier one, in place:
/// bootstrap only appends.
pub open spec fn store_extends(later: Seq<RecordView>, earlier: Seq<RecordView>) -> bool {
    later.len() >= earlier.len() && forall|i: int|
        0 <= i < earlier.len() ==> later[i] == #[trigger] earlier[i]
}

/// Whether some record of the given role is present.
pub open spec fn has_role(s: Seq<RecordView>, role: Types) -> bool {
    exists|i: int| 0 <= i < s.len() && (#[trigger] s[i]).role == role
}

/// Whether a record's sealed private key opens under the master key and
/// parses as a PKCS#8 document.
pub open spec fn sealed_key_ok(master: Seq<u8>, rec: RecordView) -> bool {
    exists|p: Seq<u8>|
        rec.key_nonce.len() == 24 && rec.encrypted_private_key == seal_of(
            master,
            rec.key_nonce,
            p,
        ) && pkcs8_ok(p)
}

/// Whether a stored intermediate can be rebuilt: its certificate parses and
/// its sealed key opens and parses.
pub open spec fn inter_record_recoverable(master: Seq<u8>, rec: RecordView) -> bool {
    cert_der_ok(rec.certificate_der) && sealed_key_ok(master, rec)
}

/// Whether a store already holds a complete, rebuildable trust chain: a
/// record for each of the three authority roles, the root's certificate
/// parses, and each intermediate is recoverable.  On such a store a
/// bootstrap pass is bound to succeed.
pub open spec fn stored_chain_recoverable(master: Seq<u8>, s: Seq<RecordView>) -> bool {
    &&& has_role(s, Types::ROOT)
    &&& has_role(s, Types::PROXYINTER)
    &&& has_role(s, Types::CLIENTINTER)
    &&& forall|i: int|
        0 <= i < s.len() && (#[trigger] s[i]).role == Types::ROOT ==> cert_der_ok(
            s[i].certificate_der,
        )
    &&& forall|i: int|
        0 <= i < s.len() && ((#[trigger] s[i]).role == Types::PROXYINTER || s[i].role
            == Types::CLIENTINTER) ==> inter_record_recoverable(master, s[i])
}

/// Relies on `ulid::Ulid::generate`: a fresh identifier in its 26-character
/// canonical text form; nothing is assumed of its value.
#[verifier::external_body]
fn new_record_id() -> (r: String)
    ensures
        r@.len() == 26,
{
    ulid::Ulid::generate().to_string()
}

/// The placeholder stored in the root record's key column: the root's signing
/// key lives in configuration, never in the store.
fn root_key_placeholder() -> Vec<u8> {
    vec![145u8, 66u8, 62u8, 61u8, 56u8, 156u8, 145u8, 164u8]
}

/// The placeholder stored in the root record's nonce column.
fn root_nonce_placeholder() -> Vec<u8> {
    vec![145u8, 71u8, 62u8, 66u8, 56u8, 156u8, 145u8, 164u8]
}

/// Loads the root signing key from the PEM text of the configured key file,
/// if the file was present and parses; anything else is a fatal `Config`
/// error.
pub fn root_key_from_pem(pem: Option<&str>) -> (r: Result<PrivateKey, BootstrapError>)
    ensures
        r is Ok <==> (pem matches Some(p) && pki::key_pem_ok(p@)),
        r matches Err(e) ==> e == BootstrapError::Config,
{
    match pem {
        Some(p) => match pki::key_from_pem(p) {
            Ok(key) => Ok(key),
            Err(_) => Err(BootstrapError::Config),
        },
        None => Err(BootstrapError::Config),
    }
}

/// Rebuilds the root authority from its stored record; the signing key comes
/// from configuration, not from the record.
pub fn decode_root_record(rec: &CertificateRecord, root_key: &PrivateKey) -> (r: Result<
    CaCert,
    BootstrapError,
>)
    requires
        rec@.role == Types::ROOT,
    ensures
        match r {
            Ok(c) => {
                &&& c.role == Types::ROOT
                &&& c.der@ == rec@.certificate_der
                &&& cert_der_ok(rec@.certificate_der)
            },
            Err(e) => e == BootstrapError::Encoding && !cert_der_ok(rec@.certificate_der),
        },
{
    match pki::cert_from_der(rec.certificate_der.as_slice()) {
        Ok(cert) => {
            let der = rec.certificate_der.clone();
            proof {
                assert(der@ =~= rec.certificate_der@);
            }
            Ok(CaCert { role: Types::ROOT, cert, der, key: root_key.clone() })
        },
        Err(_) => Err(BootstrapError::Encoding),
    }
}

/// Rebuilds an intermediate authority from its stored record: decodes the
/// certificate and decrypts the stored signing key.  A record whose key
/// material does not decrypt and parse is fatal.
pub fn decode_inter_record(custody: &Custody, rec: &CertificateRecord) -> (r: Result<
    CaCert,
    BootstrapError,
>)
    ensures
        match r {
            Ok(c) => {
                &&& c.role == rec@.role
                &&& c.der@ == rec@.certificate_der
                &&& inter_record_recoverable(custody@, rec@)
            },
            Err(e) => match e {
                BootstrapError::Encoding => !cert_der_ok(rec@.certificate_der),
                BootstrapError::Decryption => cert_der_ok(rec@.certificate_der)
                    && !sealed_key_ok(custody@, rec@),
                _ => false,
            },
        },
{
    let cert = match pki::cert_from_der(rec.certificate_der.as_slice()) {
        Ok(c) => c,
        Err(_) => {
            return Err(BootstrapError::Encoding);
        },
    };
    let key_bytes = match custody.decrypt_priv_key(
        rec.key_nonce.as_slice(),
        rec.encrypted_private_key.as_slice(),
    ) {
        Ok(b) => b,
        Err(_) => {
            return Err(BootstrapError::Decryption);
        },
    };
    let key = match pki::key_from_pkcs8(key_bytes.as_slice()) {
        Ok(k) => k,
        Err(_) => {
            return Err(BootstrapError::Decryption);
        },
    };
    let der = rec.certificate_der.clone();
    proof {
        assert(der@ =~= rec.certificate_der@);
    }
    Ok(CaCert { role: rec.role, cert, der, key })
}

/// Mints the root authority: builds the self-signed certificate and the
/// record that persists it.  Pure construction; the caller inserts.
pub fn create_root(root_key: &PrivateKey, today: Ymd) -> (r: Result<
    (CaCert, CertificateRecord),
    BootstrapError,
>)
    requires
        valid_ymd(today),
        today.year + 20 <= u16::MAX,
    ensures
        match r {
            Ok(p) => {
                &&& p.0.role == Types::ROOT
                &&& p.1@.role == Types::ROOT
                &&& p.1@.certificate_der == p.0.der@
                &&& cert_der_ok(p.0.der@)
            },
            Err(e) => e == BootstrapError::Cert || e == BootstrapError::Encoding,
        },
{
    let cert = match generate_root_cert(root_key, today) {
        Ok(c) => c,
        Err(_) => {
            return Err(BootstrapError::Cert);
        },
    };
    let der = match pki::cert_to_der(&cert) {
        Ok(d) => d,
        Err(_) => {
            return Err(BootstrapError::Encoding);
        },
    };
    let der_copy = der.clone();
    proof {
        assert(der_copy@ =~= der@);
    }
    let record = CertificateRecord {
        id: new_record_id(),
        certificate_der: der_copy,
        encrypted_private_key: root_key_placeholder(),
        key_nonce: root_nonce_placeholder(),
        role: Types::ROOT,
    };
    Ok((CaCert { role: Types::ROOT, cert, der, key: root_key.clone() }, record))
}

/// Mints an intermediate authority for the given target: generates a fresh
/// RSA key pair, envelope-encrypts it, and builds the certificate chained to
/// the root.  Pure construction; the caller inserts.
pub fn create_inter(
    custody: &Custody,
    root: &CaCert,
    target: InterTarget,
    today: Ymd,
    rsa_bits: usize,
) -> (r: Result<(CaCert, CertificateRecord), BootstrapError>)
    requires
        valid_ymd(today),
        today.year + 5 <= u16::MAX,
    ensures
        match r {
            Ok(p) => {
                &&& p.0.role == target.spec_role()
                &&& p.1@.role == target.spec_role()
                &&& p.1@.certificate_der == p.0.der@
                &&& cert_der_ok(p.0.der@)
                &&& sealed_key_ok(custody@, p.1@)
            },
            Err(e) => e == BootstrapError::KeyGen || e == BootstrapError::Cert || e
                == BootstrapError::Encoding,
        },
{
    let key = match pki::generate_keypair(rsa_bits) {
        Ok(k) => k,
        Err(_) => {
            return Err(BootstrapError::KeyGen);
        },
    };
    let key_der = match pki::key_to_pkcs8(&key) {
        Ok(d) => d,
        Err(_) => {
            return Err(BootstrapError::KeyGen);
        },
    };
    let (nonce, sealed_key) = match custody.encrypt_priv_key(key_der.as_slice()) {
        Ok(p) => p,
        Err(_) => {
            return Err(BootstrapError::KeyGen);
        },
    };
    let cert = match generate_inter_cert(&key, target, (&root.cert, &root.key), today) {
        Ok(c) => c,
        Err(_) => {
            return Err(BootstrapError::Cert);
        },
    };
    let der = match pki::cert_to_der(&cert) {
        Ok(d) => d,
        Err(_) => {
            return Err(BootstrapError::Encoding);
        },
    };
    let der_copy = der.clone();
    proof {
        assert(der_copy@ =~= der@);
    }
    let role = target.role();
    let record = CertificateRecord {
        id: new_record_id(),
        certificate_der: der_copy,
        encrypted_private_key: sealed_key,
        key_nonce: nonce,
        role,
    };
    proof {
        assert(sealed_key_ok(custody@, record@)) by {
            assert(record@.key_nonce.len() == 24 && record@.encrypted_private_key == seal_of(
                custody@,
                record@.key_nonce,
                key_der@,
            ) && pkcs8_ok(key_der@));
        }
    }
    Ok((CaCert { role, cert, der, key }, record))
}

/// Check-or-create the root authority.  Leaves every existing record in
/// place; appends at most one record, of role `ROOT`, and only if none
/// existed.
pub fn ensure_root(store: &mut CertificateStore, root_key: &PrivateKey, today: Ymd) -> (r: Result<
    CaCert,
    BootstrapError,
>)
    requires
        old(store).wf(),
        valid_ymd(today),
        today.year + 20 <= u16::MAX,
    ensures
        final(store).wf(),
        store_extends(final(store)@, old(store)@),
        final(store)@.len() <= old(store)@.len() + 1,
        forall|i: int|
            old(store)@.len() <= i < final(store)@.len() ==> (#[trigger] final(store)@[i]).role
                == Types::ROOT && cert_der_ok(final(store)@[i].certificate_der),
        has_role(old(store)@, Types::ROOT) ==> final(store)@ == old(store)@,
        has_role(old(store)@, Types::ROOT) ==> {
            &&& (r is Ok <==> exists|i: int|
                0 <= i < old(store)@.len() && (#[trigger] old(store)@[i]).role == Types::ROOT
                    && cert_der_ok(old(store)@[i].certificate_der))
            &&& (r matches Err(e) ==> e == BootstrapError::Encoding)
        },
        match r {
            Ok(c) => {
                &&& c.role == Types::ROOT
                &&& cert_der_ok(c.der@)
                &&& exists|i: int|
                    0 <= i < final(store)@.len() && (#[trigger] final(store)@[i]).role
                        == Types::ROOT && final(store)@[i].certificate_der == c.der@
            },
            Err(_) => final(store)@ == old(store)@,
        },
{
    if let Some(rec) = store.find_by_role(Types::ROOT) {
        proof {
            // The stored ROOT record is unique, so its bytes decide the
            // outcome of this pass.
            let w = choose|i: int| 0 <= i < store@.len() && store@[i] == rec@;
            assert forall|j: int|
                0 <= j < store@.len() && (#[trigger] store@[j]).role
                    == Types::ROOT implies store@[j] == rec@ by {
                store.lemma_singleton_unique(Types::ROOT, w, j);
            };
        }
        return decode_root_record(rec, root_key);
    }
    let (authority, record) = match create_root(root_key, today) {
        Ok(p) => p,
        Err(e) => {
            return Err(e);
        },
    };
    let ghost appended = record@;
    let ghost before = store@;
    match store.insert(record) {
        Ok(_) => {
            proof {
                assert(store@ =~= before.push(appended));
                assert(store@[store@.len() - 1] == appended);
            }
            Ok(authority)
        },
        Err(StoreError::DuplicateRole) => {
            // A concurrent bootstrap won the insert: adopt its record.
            match store.find_by_role(Types::ROOT) {
                Some(rec) => decode_root_record(rec, root_key),
                None => Err(BootstrapError::Store),
            }
        },
        Err(StoreError::DuplicateNonce) => Err(BootstrapError::Store),
    }
}

/// Check-or-create the intermediate authority for `target`, signed by the
/// root.  Leaves every existing record in place; appends at most one record,
/// of the target's role, and only if none existed.
pub fn ensure_inter(
    store: &mut CertificateStore,
    custody: &Custody,
    root: &CaCert,
    target: InterTarget,
    today: Ymd,
    rsa_bits: usize,
) -> (r: Result<CaCert, BootstrapError>)
    requires
        old(store).wf(),
        valid_ymd(today),
        today.year + 5 <= u16::MAX,
    ensures
        final(store).wf(),
        store_extends(final(store)@, old(store)@),
        final(store)@.len() <= old(store)@.len() + 1,
        forall|i: int|
            old(store)@.len() <= i < final(store)@.len() ==> (#[trigger] final(store)@[i]).role
                == target.spec_role() && cert_der_ok(final(store)@[i].certificate_der),
        has_role(old(store)@, target.spec_role()) ==> final(store)@ == old(store)@,
        has_role(old(store)@, target.spec_role()) ==> {
            &&& (r is Ok <==> exists|i: int|
                0 <= i < old(store)@.len() && (#[trigger] old(store)@[i]).role
                    == target.spec_role() && inter_record_recoverable(custody@, old(store)@[i]))
            &&& (r matches Err(e) ==> (e == BootstrapError::Encoding && exists|i: int|
                0 <= i < old(store)@.len() && (#[trigger] old(store)@[i]).role
                    == target.spec_role() && !cert_der_ok(old(store)@[i].certificate_der)) || (e
                == BootstrapError::Decryption && exists|i: int|
                0 <= i < old(store)@.len() && (#[trigger] old(store)@[i]).role
                    == target.spec_role() && cert_der_ok(old(store)@[i].certificate_der)
                    && !sealed_key_ok(custody@, old(store)@[i])))
        },
        match r {
            Ok(c) => {
                &&& c.role == target.spec_role()
                &&& cert_der_ok(c.der@)
                &&& exists|i: int|
                    0 <= i < final(store)@.len() && (#[trigger] final(store)@[i]).role
                        == target.spec_role() && final(store)@[i].certificate_der == c.der@
            },
            Err(_) => final(store)@ == old(store)@,
        },
{
    let role = target.role();
    if let Some(rec) = store.find_by_role(role) {
        proof {
            // The stored record of this singleton role is unique, so its
            // bytes decide the outcome of this pass.
            assert(role.is_singleton());
            let w = choose|i: int| 0 <= i < store@.len() && store@[i] == rec@;
            assert forall|j: int|
                0 <= j < store@.len() && (#[trigger] store@[j]).role == role implies store@[j]
                == rec@ by {
                store.lemma_singleton_unique(role, w, j);
            };
        }
        return decode_inter_record(custody, rec);
    }
    let (authority, record) = match create_inter(custody, root, target, today, rsa_bits) {
        Ok(p) => p,
        Err(e) => {
            return Err(e);
        },
    };
    let ghost appended = record@;
    let ghost before = store@;
    match store.insert(record) {
        Ok(_) => {
            proof {
                assert(store@ =~= before.push(appended));
                assert(store@[store@.len() - 1] == appended);
            }
            Ok(authority)
        },
        Err(StoreError::DuplicateRole) => {
            // A concurrent bootstrap won the insert: adopt its record.
            match store.find_by_role(role) {
                Some(rec) => decode_inter_record(custody, rec),
                None => Err(BootstrapError::Store),
            }
        },
        Err(StoreError::DuplicateNonce) => Err(BootstrapError::Store),
    }
}

/// Runs the whole bootstrap pass: root, then proxy intermediate, then client
/// intermediate, each found in the store or minted and persisted.  On
/// success the store holds exactly one record for each of the three authority
/// roles and the returned chain matches those records; records that were
/// already present are reused untouched, so a second pass over a bootstrapped
/// store changes nothing.
pub fn ensure_ca_chain_ready(
    store: &mut CertificateStore,
    custody: &Custody,
    root_key: &PrivateKey,
    today: Ymd,
    rsa_bits: usize,
) -> (r: Result<CaChain, BootstrapError>)
    requires
        old(store).wf(),
        valid_ymd(today),
        today.year + 20 <= u16::MAX,
    ensures
        final(store).wf(),
        store_extends(final(store)@, old(store)@),
        final(store)@.len() <= old(store)@.len() + 3,
        forall|i: int|
            old(store)@.len() <= i < final(store)@.len() ==> (#[trigger] final(store)@[i]).role.is_singleton()
                && cert_der_ok(final(store)@[i].certificate_der) && !has_role(
                old(store)@,
                final(store)@[i].role,
            ),
        has_role(old(store)@, Types::ROOT) && has_role(old(store)@, Types::PROXYINTER) && has_role(
            old(store)@,
            Types::CLIENTINTER,
        ) ==> final(store)@ == old(store)@,
        stored_chain_recoverable(custody@, old(store)@) ==> r is Ok,
        match r {
            Ok(chain) => {
                &&& chain.root.role == Types::ROOT
                &&& chain.proxy_intermediate.role == Types::PROXYINTER
                &&& chain.client_intermediate.role == Types::CLIENTINTER
                &&& exists|i: int|
                    0 <= i < final(store)@.len() && (#[trigger] final(store)@[i]).role
                        == Types::ROOT && final(store)@[i].certificate_der == chain.root.der@
                &&& exists|i: int|
                    0 <= i < final(store)@.len() && (#[trigger] final(store)@[i]).role
                        == Types::PROXYINTER && final(store)@[i].certificate_der
                        == chain.proxy_intermediate.der@
                &&& exists|i: int|
                    0 <= i < final(store)@.len() && (#[trigger] final(store)@[i]).role
                        == Types::CLIENTINTER && final(store)@[i].certificate_der
                        == chain.client_intermediate.der@
            },
            Err(_) => true,
        },
{
    let ghost s0 = store@;
    let root = match ensure_root(store, root_key, today) {
        Ok(c) => c,
        Err(e) => {
            proof {
                if stored_chain_recoverable(custody@, s0) {
                    let i = choose|i: int|
                        0 <= i < s0.len() && (#[trigger] s0[i]).role == Types::ROOT;
                    assert(cert_der_ok(s0[i].certificate_der));
                    assert(false);
                }
            }
            return Err(e);
        },
    };
    let ghost s1 = store@;
    let proxy = match ensure_inter(store, custody, &root, InterTarget::PROXY, today, rsa_bits) {
        Ok(c) => c,
        Err(e) => {
            proof {
                if stored_chain_recoverable(custody@, s0) {
                    assert(s1 == s0);
                    let i = choose|i: int|
                        0 <= i < s0.len() && (#[trigger] s0[i]).role == Types::PROXYINTER;
                    assert(inter_record_recoverable(custody@, s0[i]));
                    assert(s1[i] == s0[i]);
                    assert(false);
                }
            }
            return Err(e);
        },
    };
    let ghost s2 = store@;
    let client = match ensure_inter(store, custody, &root, InterTarget::CLIENT, today, rsa_bits) {
        Ok(c) => c,
        Err(e) => {
            proof {
                if stored_chain_recoverable(custody@, s0) {
                    assert(s1 == s0 && s2 == s1);
                    let i = choose|i: int|
                        0 <= i < s0.len() && (#[trigger] s0[i]).role == Types::CLIENTINTER;
                    assert(inter_record_recoverable(custody@, s0[i]));
                    assert(s2[i] == s0[i]);
                    assert(false);
                }
            }
            return Err(e);
        },
    };
    proof {
        assert forall|i: int|
            s0.len() <= i < store@.len() implies ((#[trigger] store@[i]).role.is_singleton()
            && cert_der_ok(store@[i].certificate_der) && !has_role(s0, store@[i].role)) by {
            if i < s1.len() {
                assert(store@[i] == s1[i]);
                assert(s1[i].role == Types::ROOT);
                assert(s1.len() > s0.len());
                assert(!has_role(s0, Types::ROOT));
            } else if i < s2.len() {
                assert(store@[i] == s2[i]);
                assert(s2[i].role == Types::PROXYINTER);
                assert(!has_role(s1, Types::PROXYINTER));
                if has_role(s0, Types::PROXYINTER) {
                    let j = choose|j: int| 0 <= j < s0.len() && (#[trigger] s0[j]).role
                        == Types::PROXYINTER;
                    assert(s1[j] == s0[j]);
                    assert(has_role(s1, Types::PROXYINTER));
                }
            } else {
                assert(store@[i].role == Types::CLIENTINTER);
                assert(!has_role(s2, Types::CLIENTINTER));
                if has_role(s0, Types::CLIENTINTER) {
                    let j = choose|j: int| 0 <= j < s0.len() && (#[trigger] s0[j]).role
                        == Types::CLIENTINTER;
                    assert(s1[j] == s0[j]);
                    assert(s2[j] == s1[j]);
                    assert(has_role(s2, Types::CLIENTINTER));
                }
            }
        }
    }
    Ok(CaChain { root, proxy_intermediate: proxy, client_intermediate: client })
}

} // verus!
