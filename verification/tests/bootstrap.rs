use driptorch::bootstrap::{
    create_root, decode_inter_record, decode_root_record, ensure_ca_chain_ready, ensure_root,
    root_key_from_pem, BootstrapError,
};
use driptorch::cert::{Types, Ymd};
use driptorch::custody::Custody;
use driptorch::store::{CertificateRecord, CertificateStore, StoreError};
use picky::key::PrivateKey;
use picky::x509::Cert;

const TEST_BITS: usize = 1024;

fn today() -> Ymd {
    Ymd { year: 2024, month: 3, day: 15 }
}

fn master_key() -> Vec<u8> {
    (100u8..132u8).collect()
}

fn copy_record(rec: &CertificateRecord) -> CertificateRecord {
    CertificateRecord {
        id: rec.id.clone(),
        certificate_der: rec.certificate_der.clone(),
        encrypted_private_key: rec.encrypted_private_key.clone(),
        key_nonce: rec.key_nonce.clone(),
        role: rec.role,
    }
}

#[test]
fn scenario_empty_store_creates_three_records() {
    let mut store = CertificateStore::new();
    let custody = Custody::new(Some(master_key())).unwrap();
    let root_key = PrivateKey::generate_rsa(TEST_BITS).unwrap();

    let chain = ensure_ca_chain_ready(&mut store, &custody, &root_key, today(), TEST_BITS)
        .unwrap();

    assert_eq!(store.len(), 3);
    for role in [Types::ROOT, Types::PROXYINTER, Types::CLIENTINTER] {
        let rec = store.find_by_role(role).expect("record for role");
        assert_eq!(rec.id.len(), 26);
        assert!(Cert::from_der(&rec.certificate_der).is_ok());
    }
    assert_eq!(
        store.find_by_role(Types::ROOT).unwrap().certificate_der,
        chain.root.der
    );
    assert_eq!(
        store.find_by_role(Types::PROXYINTER).unwrap().certificate_der,
        chain.proxy_intermediate.der
    );
    assert_eq!(
        store.find_by_role(Types::CLIENTINTER).unwrap().certificate_der,
        chain.client_intermediate.der
    );

    let root = Cert::from_der(&chain.root.der).unwrap();
    let proxy = Cert::from_der(&chain.proxy_intermediate.der).unwrap();
    let client = Cert::from_der(&chain.client_intermediate.der).unwrap();
    assert_eq!(proxy.issuer_name().to_string(), root.subject_name().to_string());
    assert_eq!(client.issuer_name().to_string(), root.subject_name().to_string());
    assert!(root.is_parent_of(&proxy).is_ok());
    assert!(root.is_parent_of(&client).is_ok());
}

#[test]
fn bootstrap_twice_is_idempotent() {
    let mut store = CertificateStore::new();
    let custody = Custody::new(Some(master_key())).unwrap();
    let root_key = PrivateKey::generate_rsa(TEST_BITS).unwrap();

    ensure_ca_chain_ready(&mut store, &custody, &root_key, today(), TEST_BITS).unwrap();
    assert_eq!(store.len(), 3);
    let first: Vec<Vec<u8>> = [Types::ROOT, Types::PROXYINTER, Types::CLIENTINTER]
        .iter()
        .map(|r| store.find_by_role(*r).unwrap().certificate_der.clone())
        .collect();

    let chain = ensure_ca_chain_ready(&mut store, &custody, &root_key, today(), TEST_BITS)
        .unwrap();

    assert_eq!(store.len(), 3);
    let second: Vec<Vec<u8>> = [Types::ROOT, Types::PROXYINTER, Types::CLIENTINTER]
        .iter()
        .map(|r| store.find_by_role(*r).unwrap().certificate_der.clone())
        .collect();
    assert_eq!(first, second);
    assert_eq!(chain.root.der, first[0]);
}

#[test]
fn scenario_existing_root_is_reused() {
    let mut store = CertificateStore::new();
    let custody = Custody::new(Some(master_key())).unwrap();
    let root_key = PrivateKey::generate_rsa(TEST_BITS).unwrap();

    let pre = ensure_root(&mut store, &root_key, today()).unwrap();
    assert_eq!(store.len(), 1);
    let existing_der = store.find_by_role(Types::ROOT).unwrap().certificate_der.clone();
    assert_eq!(pre.der, existing_der);

    let chain = ensure_ca_chain_ready(&mut store, &custody, &root_key, today(), TEST_BITS)
        .unwrap();

    assert_eq!(store.len(), 3);
    assert_eq!(
        store.find_by_role(Types::ROOT).unwrap().certificate_der,
        existing_der
    );
    assert_eq!(chain.root.der, existing_der);

    // The new intermediates chain to the pre-existing root.
    let root = Cert::from_der(&existing_der).unwrap();
    let proxy = Cert::from_der(&chain.proxy_intermediate.der).unwrap();
    assert!(root.is_parent_of(&proxy).is_ok());
}

#[test]
fn scenario_missing_configuration_fails_before_any_write() {
    let store = CertificateStore::new();
    assert!(matches!(Custody::new(None), Err(BootstrapError::Config)));
    assert!(matches!(root_key_from_pem(None), Err(BootstrapError::Config)));
    assert!(matches!(
        root_key_from_pem(Some("not a pem document")),
        Err(BootstrapError::Config)
    ));
    assert_eq!(store.len(), 0);
}

#[test]
fn root_key_round_trips_through_pem() {
    let key = PrivateKey::generate_rsa(TEST_BITS).unwrap();
    let pem = key.to_pem().unwrap();
    assert!(root_key_from_pem(Some(&pem)).is_ok());
}

#[test]
fn scenario_corrupted_stored_key_is_fatal() {
    let mut store = CertificateStore::new();
    let custody = Custody::new(Some(master_key())).unwrap();
    let root_key = PrivateKey::generate_rsa(TEST_BITS).unwrap();
    ensure_ca_chain_ready(&mut store, &custody, &root_key, today(), TEST_BITS).unwrap();

    // Rebuild a store whose proxy-intermediate key material is corrupted.
    let root_rec = copy_record(store.find_by_role(Types::ROOT).unwrap());
    let mut proxy_rec = copy_record(store.find_by_role(Types::PROXYINTER).unwrap());
    proxy_rec.encrypted_private_key[0] ^= 0x01;

    assert!(matches!(
        decode_inter_record(&custody, &proxy_rec),
        Err(BootstrapError::Decryption)
    ));

    let mut corrupted_store = CertificateStore::new();
    corrupted_store.insert(root_rec).unwrap();
    corrupted_store.insert(proxy_rec).unwrap();
    let r = ensure_ca_chain_ready(&mut corrupted_store, &custody, &root_key, today(), TEST_BITS);
    assert!(matches!(r, Err(BootstrapError::Decryption)));
    // The failure aborted the pass: nothing further was persisted.
    assert_eq!(corrupted_store.len(), 2);
}

#[test]
fn concurrent_bootstrap_race_leaves_one_root() {
    let mut store = CertificateStore::new();
    let root_key = PrivateKey::generate_rsa(TEST_BITS).unwrap();

    // Two bootstrap attempts both observe an empty store and mint a root.
    let (_first_authority, first_record) = create_root(&root_key, today()).unwrap();
    let (_second_authority, second_record) = create_root(&root_key, today()).unwrap();
    let winner_der = first_record.certificate_der.clone();

    assert!(store.insert(first_record).is_ok());
    let loser = store.insert(second_record);
    assert_eq!(loser, Err(StoreError::DuplicateRole));
    assert_eq!(store.len(), 1);

    // The loser re-reads and adopts the winner's root.
    let adopted = ensure_root(&mut store, &root_key, today()).unwrap();
    assert_eq!(adopted.der, winner_der);
    assert_eq!(store.len(), 1);
}

#[test]
fn garbled_certificate_bytes_are_an_encoding_error() {
    let root_key = PrivateKey::generate_rsa(TEST_BITS).unwrap();
    let garbled = CertificateRecord {
        id: "01ARZ3NDEKTSV4RRFFQ69G5FAV".to_string(),
        certificate_der: vec![0xDE, 0xAD, 0xBE, 0xEF],
        encrypted_private_key: vec![1, 2, 3],
        key_nonce: vec![4, 5, 6],
        role: Types::ROOT,
    };
    let r = decode_root_record(&garbled, &root_key);
    assert!(matches!(r, Err(BootstrapError::Encoding)));
}
