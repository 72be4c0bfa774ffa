//! The certificate store: maps certificate roles to persisted records.
//!
//! The store is the only holder of `CertificateRecord`s.  It keeps two
//! invariants of the persisted table: at most one record exists for each
//! singleton role (the active trust anchor and the two intermediates), and no
//! two records share a key nonce (nonce reuse would break the authenticated
//! encryption of the stored keys).  Both are enforced atomically by
//! [`CertificateStore::insert`] itself, never by a caller's check-then-insert,
//! so a losing concurrent writer fails deterministically instead of
//! corrupting the table.

use vstd::prelude::*;
use crate::cert::Types;

verus! {

/// A persisted certificate: the signed certificate in DER form together with
/// the envelope-encrypted private key and the nonce it was sealed under.
pub struct CertificateRecord {
    /// Opaque unique identifier.
    pub id: String,
    /// The signed certificate, DER-encoded.
    pub certificate_der: Vec<u8>,
    /// The private key, sealed by key custody; never plaintext.
    pub encrypted_private_key: Vec<u8>,
    /// The nonce the key was sealed under, unique across all records.
    pub key_nonce: Vec<u8>,
    /// The role the certificate plays in the hierarchy.
    pub role: Types,
}

/// The mathematical content of a [`CertificateRecord`].
pub struct RecordView {
    pub id: Seq<char>,
    pub certificate_der: Seq<u8>,
    pub encrypted_private_key: Seq<u8>,
    pub key_nonce: Seq<u8>,
    pub role: Types,
}

impl View for CertificateRecord {
    type V = RecordView;

    open spec fn view(&self) -> RecordView {
        RecordView {
            id: self.id@,
            certificate_der: self.certificate_der@,
            encrypted_private_key: self.encrypted_private_key@,
            key_nonce: self.key_nonce@,
            role: self.role,
        }
    }
}

/// Why the store rejected a write.  A duplicate singleton role is the
/// recoverable "someone else already bootstrapped" case; a duplicate nonce
/// mirrors the table's unique index on the nonce column.
#[derive(Clone, Copy, Debug, PartialEq, Eq, Structural)]
pub enum StoreError {
    DuplicateRole,
    DuplicateNonce,
}

/// A certificate table with the uniqueness constraints of the persisted
/// schema.  Viewed as the sequence of its records in insertion order.
pub struct CertificateStore {
    records: Vec<CertificateRecord>,
}

impl View for CertificateStore {
    type V = Seq<RecordView>;

    closed spec fn view(&self) -> Seq<RecordView> {
        self.records@.map_values(|r: CertificateRecord| r@)
    }
}

impl CertificateStore {
    /// The table's invariants: at most one record per singleton role, and
    /// pairwise distinct key nonces.
    pub open spec fn wf(self) -> bool {
        forall|i: int, j: int|
            0 <= i < j < self@.len() ==> {
                &&& ((#[trigger] self@[i]).role.is_singleton() ==> self@[i].role != (
                #[trigger] self@[j]).role)
                &&& self@[i].key_nonce != self@[j].key_nonce
            }
    }

    /// An empty store.
    pub fn new() -> (r: CertificateStore)
        ensures
            r.wf(),
            r@ =~= Seq::<RecordView>::empty(),
    {
        CertificateStore { records: Vec::new() }
    }

    /// How many records the store holds.
    pub fn len(&self) -> (r: usize)
        ensures
            r == self@.len(),
    {
        self.records.len()
    }

    /// Returns a record of the given role, if one exists: the singleton
    /// record for a singleton role, or the first matching record otherwise.
    pub fn find_by_role(&self, role: Types) -> (r: Option<&CertificateRecord>)
        ensures
            match r {
                Some(rec) => rec@.role == role && exists|i: int|
                    0 <= i < self@.len() && self@[i] == rec@,
                None => forall|i: int| 0 <= i < self@.len() ==> (#[trigger] self@[i]).role != role,
            },
    {
        let n = self.records.len();
        for i in 0..n
            invariant
                n == self@.len(),
                forall|k: int| 0 <= k < i ==> (#[trigger] self@[k]).role != role,
        {
            if self.records[i].role == role {
                proof {
                    assert(self@[i as int] == self.records@[i as int]@);
                }
                return Some(&self.records[i]);
            }
        }
        None
    }

    /// Singleton law: a well-formed store never holds two records of one
    /// singleton role; any two positions carrying that role coincide.
    pub proof fn lemma_singleton_unique(self, role: Types, i: int, j: int)
        requires
            self.wf(),
            role.is_singleton(),
            0 <= i < self@.len(),
            0 <= j < self@.len(),
            self@[i].role == role,
            self@[j].role == role,
        ensures
            i == j,
    {
    }

    /// Nonce law: a well-formed store never holds two records sealed under
    /// the same key nonce; any two positions carrying that nonce coincide.
    pub proof fn lemma_nonce_unique(self, i: int, j: int)
        requires
            self.wf(),
            0 <= i < self@.len(),
            0 <= j < self@.len(),
            self@[i].key_nonce == self@[j].key_nonce,
        ensures
            i == j,
    {
    }

    /// Appends a record, enforcing the table's uniqueness constraints
    /// atomically: a second record for a singleton role is rejected with
    /// `DuplicateRole`, a reused key nonce with `DuplicateNonce`, and a
    /// rejected insert leaves the store unchanged.
    pub fn insert(&mut self, record: CertificateRecord) -> (r: Result<(), StoreError>)
        requires
            old(self).wf(),
        ensures
            final(self).wf(),
            match r {
                Ok(_) => {
                    &&& final(self)@ =~= old(self)@.push(record@)
                    &&& !(record.role.is_singleton() && exists|i: int|
                        0 <= i < old(self)@.len() && (#[trigger] old(self)@[i]).role
                            == record.role)
                    &&& !(exists|i: int|
                        0 <= i < old(self)@.len() && (#[trigger] old(self)@[i]).key_nonce
                            == record@.key_nonce)
                },
                Err(e) => final(self)@ == old(self)@ && match e {
                    StoreError::DuplicateRole => record.role.is_singleton() && exists|i: int|
                        0 <= i < old(self)@.len() && (#[trigger] old(self)@[i]).role
                            == record.role,
                    StoreError::DuplicateNonce => {
                        &&& exists|i: int|
                            0 <= i < old(self)@.len() && (#[trigger] old(self)@[i]).key_nonce
                                == record@.key_nonce
                        &&& !(record.role.is_singleton() && exists|i: int|
                            0 <= i < old(self)@.len() && (#[trigger] old(self)@[i]).role
                                == record.role)
                    },
                },
            },
    {
        let n = self.records.len();
        if record.role.is_singleton_role() {
            for i in 0..n
                invariant
                    *self == *old(self),
                    old(self).wf(),
                    record.role.is_singleton(),
                    n == self@.len(),
                    forall|k: int| 0 <= k < i ==> (#[trigger] self@[k]).role != record.role,
            {
                if self.records[i].role == record.role {
                    proof {
                        assert(self@[i as int] == self.records@[i as int]@);
                    }
                    return Err(StoreError::DuplicateRole);
                }
            }
        }
        for i in 0..n
            invariant
                *self == *old(self),
                old(self).wf(),
                n == self@.len(),
                !(record.role.is_singleton() && exists|k: int|
                    0 <= k < self@.len() && (#[trigger] self@[k]).role == record.role),
                forall|k: int| 0 <= k < i ==> (#[trigger] self@[k]).key_nonce != record@.key_nonce,
        {
            if self.records[i].key_nonce == record.key_nonce {
                proof {
                    assert(self@[i as int] == self.records@[i as int]@);
                }
                return Err(StoreError::DuplicateNonce);
            }
        }
        let ghost prior = self@;
        self.records.push(record);
        proof {
            assert(self@ =~= prior.push(record@));
            assert forall|i: int, j: int| 0 <= i < j < self@.len() implies {
                &&& ((#[trigger] self@[i]).role.is_singleton() ==> self@[i].role != (
                #[trigger] self@[j]).role)
                &&& self@[i].key_nonce != self@[j].key_nonce
            } by {
                if j < self@.len() - 1 {
                    assert(old(self).wf());
                } else {
                    assert(self@[j] == record@);
                    assert(self@[i] == prior[i]);
                }
            }
        }
        Ok(())
    }
}

} // verus!
