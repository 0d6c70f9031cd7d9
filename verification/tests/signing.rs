use crypto_facade::util::{b64_to_bytes, ecdsa_gen_kp, CryptoErr};
use crypto_facade::Ecdsa;

#[test]
fn sign_then_verify_succeeds() {
    let kp = Ecdsa::init(None).unwrap();
    let msg = b"attack at dawn";
    let sig = kp.sign(msg).unwrap();
    assert_eq!(sig.len(), 64);
    assert!(Ecdsa::verify(&kp.vk(), msg, &sig).unwrap());
}

#[test]
fn verify_rejects_mutated_message() {
    let kp = Ecdsa::init(None).unwrap();
    let msg = b"attack at dawn".to_vec();
    let sig = kp.sign(&msg).unwrap();
    for i in 0..msg.len() {
        let mut tampered = msg.clone();
        tampered[i] ^= 0x01;
        assert!(Ecdsa::verify(&kp.vk(), &tampered, &sig).is_err());
    }
}

#[test]
fn verify_rejects_mutated_signature() {
    let kp = Ecdsa::init(None).unwrap();
    let msg = b"attack at dawn";
    let sig = kp.sign(msg).unwrap();
    for i in 0..sig.len() {
        let mut tampered = sig.clone();
        tampered[i] ^= 0x01;
        assert!(Ecdsa::verify(&kp.vk(), msg, &tampered).is_err());
    }
}

#[test]
fn verify_separates_malformed_inputs() {
    let kp = Ecdsa::init(None).unwrap();
    let msg = b"attack at dawn";
    let sig = kp.sign(msg).unwrap();
    assert!(matches!(
        Ecdsa::verify(&[1u8; 31], msg, &sig),
        Err(CryptoErr::InvalidKey(_))
    ));
    assert!(matches!(
        Ecdsa::verify(&kp.vk(), msg, &sig[..63]),
        Err(CryptoErr::SignatureErr(_))
    ));
}

#[test]
fn imported_seed_reproduces_the_pair() {
    let kp = Ecdsa::init(None).unwrap();
    let reimported = Ecdsa::init(Some(kp.sk())).unwrap();
    assert_eq!(reimported.vk(), kp.vk());
    let msg = b"same seed, same signature";
    assert_eq!(reimported.sign(msg).unwrap(), kp.sign(msg).unwrap());
}

#[test]
fn init_rejects_wrong_seed_length() {
    assert!(matches!(Ecdsa::init(Some(vec![0u8; 31])), Err(CryptoErr::InvalidKey(_))));
}

#[test]
fn sign_by_matches_pair_signature() {
    let kp = Ecdsa::init(None).unwrap();
    let text = "a text message";
    let sig = Ecdsa::sign_by(&kp.sk(), text).unwrap();
    assert!(Ecdsa::verify(&kp.vk(), text.as_bytes(), &sig).unwrap());
    assert_eq!(sig, kp.sign(text.as_bytes()).unwrap());
    assert!(matches!(Ecdsa::sign_by(&[0u8; 16], text), Err(CryptoErr::InvalidKey(_))));
}

#[test]
fn key_getters_encode_the_raw_keys() {
    let kp = Ecdsa::init(None).unwrap();
    assert_eq!(b64_to_bytes(&kp.sign_key()).unwrap(), kp.sk());
    assert_eq!(b64_to_bytes(&kp.verify_key()).unwrap(), kp.vk());
}

#[test]
fn ecdsa_gen_kp_derives_verifying_key_from_seed() {
    let (seed, vk) = ecdsa_gen_kp().unwrap();
    let kp = Ecdsa::init(Some(seed)).unwrap();
    assert_eq!(kp.vk(), vk);
}
