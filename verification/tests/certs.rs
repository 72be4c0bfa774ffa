use driptorch::cert::{generate_inter_cert, generate_root_cert, InterTarget, Types, Ymd};
use picky::key::PrivateKey;
use picky::x509::Cert;

const TEST_BITS: usize = 1024;

fn today() -> Ymd {
    Ymd { year: 2024, month: 3, day: 15 }
}

#[test]
fn der_round_trip() {
    let key = PrivateKey::generate_rsa(TEST_BITS).unwrap();
    let cert = generate_root_cert(&key, today()).unwrap();
    let der = cert.to_der().unwrap();
    let decoded = Cert::from_der(&der).unwrap();
    assert_eq!(decoded.to_der().unwrap(), der);
}

#[test]
fn root_validity_window_is_twenty_years() {
    let key = PrivateKey::generate_rsa(TEST_BITS).unwrap();
    let cert = generate_root_cert(&key, today()).unwrap();
    let nb = cert.valid_not_before();
    let na = cert.valid_not_after();
    assert_eq!((nb.year(), nb.month(), nb.day()), (2024, 3, 15));
    assert_eq!((na.year(), na.month(), na.day()), (2044, 3, 15));
}

#[test]
fn intermediate_validity_window_is_five_years() {
    let root_key = PrivateKey::generate_rsa(TEST_BITS).unwrap();
    let root = generate_root_cert(&root_key, today()).unwrap();
    let key = PrivateKey::generate_rsa(TEST_BITS).unwrap();
    let cert = generate_inter_cert(&key, InterTarget::PROXY, (&root, &root_key), today()).unwrap();
    let nb = cert.valid_not_before();
    let na = cert.valid_not_after();
    assert_eq!((nb.year(), nb.month(), nb.day()), (2024, 3, 15));
    assert_eq!((na.year(), na.month(), na.day()), (2029, 3, 15));
}

#[test]
fn root_constraints() {
    let key = PrivateKey::generate_rsa(TEST_BITS).unwrap();
    let cert = generate_root_cert(&key, today()).unwrap();
    let bc = cert.basic_constraints().unwrap();
    assert_eq!(bc.ca(), Some(true));
    assert_eq!(bc.pathlen(), None);
}

#[test]
fn intermediate_constraints_and_naming() {
    let root_key = PrivateKey::generate_rsa(TEST_BITS).unwrap();
    let root = generate_root_cert(&root_key, today()).unwrap();
    let key = PrivateKey::generate_rsa(TEST_BITS).unwrap();
    let proxy =
        generate_inter_cert(&key, InterTarget::PROXY, (&root, &root_key), today()).unwrap();
    let client =
        generate_inter_cert(&key, InterTarget::CLIENT, (&root, &root_key), today()).unwrap();

    for cert in [&proxy, &client] {
        let bc = cert.basic_constraints().unwrap();
        assert_eq!(bc.ca(), Some(true));
        assert_eq!(bc.pathlen(), Some(0));
    }

    let proxy_subject = proxy.subject_name().to_string();
    let client_subject = client.subject_name().to_string();
    assert_ne!(proxy_subject, client_subject);
    assert!(proxy_subject.contains("Driptorch PROXY"));
    assert!(client_subject.contains("Driptorch CLIENT"));
    assert_eq!(root.subject_name().to_string(), "CN=Driptorch");

    assert_eq!(proxy.issuer_name().to_string(), root.subject_name().to_string());
    assert!(root.is_parent_of(&proxy).is_ok());
    assert!(root.is_parent_of(&client).is_ok());
}

#[test]
fn role_and_target_names() {
    assert_eq!(Types::ROOT.as_str(), "ROOT");
    assert_eq!(Types::CLIENTINTER.as_str(), "CLIENTINTER");
    assert_eq!(Types::PROXYINTER.as_str(), "PROXYINTER");
    assert_eq!(Types::CLIENTLEAF.as_str(), "CLIENTLEAF");
    assert_eq!(Types::PROXYLEAF.as_str(), "PROXYLEAF");
    assert_eq!(InterTarget::CLIENT.as_str(), "CLIENT");
    assert_eq!(InterTarget::PROXY.as_str(), "PROXY");
    assert_eq!(InterTarget::CLIENT.role(), Types::CLIENTINTER);
    assert_eq!(InterTarget::PROXY.role(), Types::PROXYINTER);
}
