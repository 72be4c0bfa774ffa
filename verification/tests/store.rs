use driptorch::cert::Types;
use driptorch::store::{CertificateRecord, CertificateStore, StoreError};

fn record(id: &str, role: Types, nonce: Vec<u8>) -> CertificateRecord {
    CertificateRecord {
        id: id.to_string(),
        certificate_der: vec![0x30, 0x03, 0x02, 0x01, 0x01],
        encrypted_private_key: vec![1, 2, 3],
        key_nonce: nonce,
        role,
    }
}

#[test]
fn empty_store_finds_nothing() {
    let store = CertificateStore::new();
    assert_eq!(store.len(), 0);
    assert!(store.find_by_role(Types::ROOT).is_none());
}

#[test]
fn insert_then_find() {
    let mut store = CertificateStore::new();
    store.insert(record("a", Types::ROOT, vec![1])).unwrap();
    assert_eq!(store.len(), 1);
    let found = store.find_by_role(Types::ROOT).unwrap();
    assert_eq!(found.id, "a");
    assert!(store.find_by_role(Types::PROXYINTER).is_none());
}

#[test]
fn second_singleton_role_is_rejected() {
    let mut store = CertificateStore::new();
    store.insert(record("a", Types::ROOT, vec![1])).unwrap();
    let r = store.insert(record("b", Types::ROOT, vec![2]));
    assert_eq!(r, Err(StoreError::DuplicateRole));
    assert_eq!(store.len(), 1);
    assert_eq!(store.find_by_role(Types::ROOT).unwrap().id, "a");
}

#[test]
fn each_singleton_role_can_exist_once() {
    let mut store = CertificateStore::new();
    store.insert(record("a", Types::ROOT, vec![1])).unwrap();
    store.insert(record("b", Types::PROXYINTER, vec![2])).unwrap();
    store.insert(record("c", Types::CLIENTINTER, vec![3])).unwrap();
    assert_eq!(store.len(), 3);
}

#[test]
fn leaf_roles_are_not_singletons() {
    let mut store = CertificateStore::new();
    store.insert(record("a", Types::CLIENTLEAF, vec![1])).unwrap();
    store.insert(record("b", Types::CLIENTLEAF, vec![2])).unwrap();
    assert_eq!(store.len(), 2);
}

#[test]
fn reused_nonce_is_rejected() {
    let mut store = CertificateStore::new();
    store.insert(record("a", Types::CLIENTLEAF, vec![7, 7])).unwrap();
    let r = store.insert(record("b", Types::PROXYLEAF, vec![7, 7]));
    assert_eq!(r, Err(StoreError::DuplicateNonce));
    assert_eq!(store.len(), 1);
}
