use base64ct::{Base64, Encoding};
use crypto_facade::util::{b64_to_bytes, ecdh_gen_kp, CryptoErr};
use crypto_facade::{Ecdh, StaticEcdh};

#[test]
fn static_exchange_is_symmetric() {
    let a = StaticEcdh::init().unwrap();
    let b = StaticEcdh::init().unwrap();
    let ab = a.exchange(&b.pub_key()).unwrap();
    let ba = b.exchange(&a.pub_key()).unwrap();
    assert_eq!(ab, ba);
    assert_eq!(ab.len(), 32);
}

#[test]
fn static_round_trip_preserves_exchanges() {
    let kp = StaticEcdh::init().unwrap();
    let third = StaticEcdh::init().unwrap();
    let reimported = StaticEcdh::from_bytes(&kp.to_bytes()).unwrap();
    assert_eq!(reimported.pub_key(), kp.pub_key());
    assert_eq!(
        reimported.exchange(&third.pub_key()).unwrap(),
        kp.exchange(&third.pub_key()).unwrap()
    );
}

#[test]
fn static_pair_supports_repeated_exchanges() {
    let kp = StaticEcdh::init().unwrap();
    let b = StaticEcdh::init().unwrap();
    let c = StaticEcdh::init().unwrap();
    let with_b = kp.exchange(&b.pub_key()).unwrap();
    let with_c = kp.exchange(&c.pub_key()).unwrap();
    assert_ne!(with_b, with_c);
}

#[test]
fn ephemeral_exchange_agrees_with_peer() {
    // The ephemeral pair is consumed by its one exchange: a second call on
    // `eph` would not compile, which is the single-use guarantee.
    let eph = Ecdh::init();
    let peer = StaticEcdh::init().unwrap();
    let eph_pub = eph.pub_key();
    let eph_side = eph.exchange(&peer.pub_key()).unwrap();
    let peer_side = peer.exchange(&eph_pub).unwrap();
    assert_eq!(eph_side, peer_side);
}

#[test]
fn exchange_b64_agrees_with_raw_exchange() {
    let a = StaticEcdh::init().unwrap();
    let b = StaticEcdh::init().unwrap();
    let b_pub_b64 = Base64::encode_string(&b.pub_key());
    assert_eq!(a.exchange_b64(&b_pub_b64).unwrap(), a.exchange(&b.pub_key()).unwrap());
}

#[test]
fn exchange_rejects_wrong_key_length() {
    let a = StaticEcdh::init().unwrap();
    assert!(matches!(a.exchange(&[0u8; 31]), Err(CryptoErr::InvalidKey(_))));
    let eph = Ecdh::init();
    assert!(matches!(eph.exchange(&[0u8; 33]), Err(CryptoErr::InvalidKey(_))));
}

#[test]
fn exchange_b64_separates_decode_and_length_errors() {
    let a = StaticEcdh::init().unwrap();
    assert!(matches!(a.exchange_b64("%%%%"), Err(CryptoErr::DecodeBase64Err(_))));
    let three_bytes = Base64::encode_string(&[1u8, 2, 3]);
    assert!(matches!(a.exchange_b64(&three_bytes), Err(CryptoErr::InvalidKey(_))));
}

#[test]
fn from_bytes_rejects_wrong_length() {
    assert!(matches!(StaticEcdh::from_bytes(&[7u8; 16]), Err(CryptoErr::InvalidKey(_))));
}

#[test]
fn b64_to_bytes_reports_distinct_errors() {
    assert!(matches!(b64_to_bytes("not base64 !"), Err(CryptoErr::DecodeBase64Err(_))));
    assert!(matches!(b64_to_bytes("AAAA"), Err(CryptoErr::InvalidKey(_))));
    let ok = Base64::encode_string(&[9u8; 32]);
    assert_eq!(b64_to_bytes(&ok).unwrap(), vec![9u8; 32]);
}

#[test]
fn ecdh_gen_kp_derives_public_from_secret() {
    let (secret, public) = ecdh_gen_kp();
    let kp = StaticEcdh::from_bytes(&secret).unwrap();
    assert_eq!(kp.pub_key(), public);
}
