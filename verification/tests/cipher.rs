use std::collections::HashSet;

use crypto_facade::cipher::AeadCipher;
use crypto_facade::util::CryptoErr;
use crypto_facade::{derive_key, Cipher};

fn test_key() -> Vec<u8> {
    derive_key("cipher-test", "some key material")
}

#[test]
fn round_trip_returns_the_plaintext() {
    let cipher = Cipher::init(&test_key()).unwrap();
    for plaintext in [&b""[..], &b"x"[..], &b"a somewhat longer plaintext payload"[..]] {
        let envelope = cipher.encrypt(plaintext).unwrap();
        assert_eq!(envelope.len(), plaintext.len() + 40);
        assert_eq!(cipher.decrypt(&envelope, 24).unwrap(), plaintext);
    }
}

#[test]
fn mutating_any_envelope_byte_fails_decryption() {
    let cipher = Cipher::init(&test_key()).unwrap();
    let envelope = cipher.encrypt(b"integrity matters").unwrap();
    for i in 0..envelope.len() {
        let mut tampered = envelope.clone();
        tampered[i] ^= 0x01;
        assert!(matches!(cipher.decrypt(&tampered, 24), Err(CryptoErr::CipherErr(_))));
    }
}

#[test]
fn wrong_key_fails_decryption() {
    let cipher = Cipher::init(&test_key()).unwrap();
    let other = Cipher::init(&derive_key("cipher-test", "another key")).unwrap();
    let envelope = cipher.encrypt(b"for the right key only").unwrap();
    assert!(matches!(other.decrypt(&envelope, 24), Err(CryptoErr::CipherErr(_))));
}

#[test]
fn init_rejects_wrong_key_length() {
    assert!(matches!(Cipher::init(&[0u8; 16]), Err(CryptoErr::InvalidKey(_))));
    assert!(matches!(Cipher::init(&[0u8; 33]), Err(CryptoErr::InvalidKey(_))));
}

#[test]
fn decrypt_rejects_bad_split_points() {
    let cipher = Cipher::init(&test_key()).unwrap();
    let envelope = cipher.encrypt(b"payload").unwrap();
    assert!(matches!(cipher.decrypt(&envelope, 12), Err(CryptoErr::CipherErr(_))));
    assert!(matches!(cipher.decrypt(&envelope[..10], 24), Err(CryptoErr::CipherErr(_))));
}

#[test]
fn encrypt_uses_distinct_nonces() {
    let cipher = Cipher::init(&test_key()).unwrap();
    let mut nonces: HashSet<Vec<u8>> = HashSet::new();
    for _ in 0..10_000 {
        let envelope = cipher.encrypt(b"").unwrap();
        nonces.insert(envelope[..24].to_vec());
    }
    assert_eq!(nonces.len(), 10_000);
}

#[test]
fn aead_cipher_round_trips_with_explicit_nonce_split() {
    let key_vec = test_key();
    let mut key = [0u8; 32];
    key.copy_from_slice(&key_vec);
    let aead = AeadCipher::from_key(&key);
    let envelope = aead.encrypt_bytes(b"split by hand").unwrap();
    let (nonce, cipher_data) = envelope.split_at(24);
    assert_eq!(aead.decrypt_bytes(nonce, cipher_data).unwrap(), b"split by hand");
    assert!(matches!(
        aead.decrypt_bytes(&nonce[..12], cipher_data),
        Err(CryptoErr::CipherErr(_))
    ));
}
