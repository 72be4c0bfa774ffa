use driptorch::bootstrap::BootstrapError;
use driptorch::custody::Custody;

fn master_key() -> Vec<u8> {
    (0u8..32u8).collect()
}

#[test]
fn custody_rejects_missing_key_file() {
    let r = Custody::new(None);
    assert!(matches!(r, Err(BootstrapError::Config)));
}

#[test]
fn custody_rejects_short_key() {
    let r = Custody::new(Some(vec![1u8, 2, 3]));
    assert!(matches!(r, Err(BootstrapError::Config)));
}

#[test]
fn custody_accepts_32_byte_key() {
    assert!(Custody::new(Some(master_key())).is_ok());
}

#[test]
fn encrypt_decrypt_round_trip() {
    let custody = Custody::new(Some(master_key())).unwrap();
    let secret = b"a private key in pkcs8 form".to_vec();
    let (nonce, ciphertext) = custody.encrypt_priv_key(&secret).unwrap();
    assert_eq!(nonce.len(), 24);
    assert_eq!(ciphertext.len(), secret.len() + 16);
    assert_ne!(ciphertext, secret);
    let recovered = custody.decrypt_priv_key(&nonce, &ciphertext).unwrap();
    assert_eq!(recovered, secret);
}

#[test]
fn fresh_nonce_per_encryption() {
    let custody = Custody::new(Some(master_key())).unwrap();
    let (n1, c1) = custody.encrypt_priv_key(b"same plaintext").unwrap();
    let (n2, c2) = custody.encrypt_priv_key(b"same plaintext").unwrap();
    assert_ne!(n1, n2);
    assert_ne!(c1, c2);
}

#[test]
fn tampered_ciphertext_fails_decryption() {
    let custody = Custody::new(Some(master_key())).unwrap();
    let (nonce, mut ciphertext) = custody.encrypt_priv_key(b"sensitive").unwrap();
    ciphertext[0] ^= 0x01;
    let r = custody.decrypt_priv_key(&nonce, &ciphertext);
    assert!(matches!(r, Err(BootstrapError::Decryption)));
}

#[test]
fn wrong_master_key_fails_decryption() {
    let custody = Custody::new(Some(master_key())).unwrap();
    let other = Custody::new(Some(vec![0xAAu8; 32])).unwrap();
    let (nonce, ciphertext) = custody.encrypt_priv_key(b"sensitive").unwrap();
    let r = other.decrypt_priv_key(&nonce, &ciphertext);
    assert!(matches!(r, Err(BootstrapError::Decryption)));
}

#[test]
fn malformed_nonce_fails_decryption() {
    let custody = Custody::new(Some(master_key())).unwrap();
    let (_, ciphertext) = custody.encrypt_priv_key(b"sensitive").unwrap();
    let r = custody.decrypt_priv_key(&[0u8; 8], &ciphertext);
    assert!(matches!(r, Err(BootstrapError::Decryption)));
}
