use crypto_facade::util::{b64_to_bytes, bytes_to_hex};
use crypto_facade::{derive_key, gen_key_b64, hash, hash_b64, hash_hex};

#[test]
fn test_derive_key() {
    derive_key("pin-code-str", "kind-of-salt");
}

#[test]
fn test_gen_key() {
    let key = gen_key_b64("pin-code-str", "kind-of-salt");
    println!("{key}");
}

#[test]
fn test_hash() {
    let cont = "this is a text";
    println!("{:?}", hash_b64(cont));
    println!("{:?}", hash_hex(cont));
}

#[test]
fn derive_key_is_deterministic() {
    assert_eq!(derive_key("ctx-a", "material"), derive_key("ctx-a", "material"));
    assert_eq!(gen_key_b64("ctx-a", "material"), gen_key_b64("ctx-a", "material"));
}

#[test]
fn derive_key_separates_contexts() {
    assert_ne!(derive_key("ctx-a", "material"), derive_key("ctx-b", "material"));
    assert_ne!(derive_key("ctx-a", "material"), derive_key("ctx-a", "other material"));
}

#[test]
fn derive_key_output_is_a_256_bit_key() {
    assert_eq!(derive_key("ctx-a", "material").len(), 32);
}

#[test]
fn gen_key_b64_encodes_derive_key() {
    let encoded = gen_key_b64("ctx-a", "material");
    assert_eq!(b64_to_bytes(&encoded).unwrap(), derive_key("ctx-a", "material"));
}

#[test]
fn hash_stream_equals_hash_of_concatenation() {
    let b1 = b"this is ".to_vec();
    let b2 = b"a ".to_vec();
    let b3 = b"text".to_vec();
    let whole = b"this is a text".to_vec();
    assert_eq!(hash(vec![b1, b2, b3]), hash(vec![whole]));
}

#[test]
fn hash_of_no_chunks_is_hash_of_empty() {
    assert_eq!(hash(vec![]), hash(vec![vec![]]));
}

#[test]
fn hash_hex_matches_recorded_digest() {
    assert_eq!(
        hash_hex("this is a text"),
        "88a6de39292f025a369f67f0c6426acb14498560442727910b5dfdc3300de83a"
    );
}

#[test]
fn hash_b64_matches_recorded_digest() {
    assert_eq!(hash_b64("this is a text"), "iKbeOSkvAlo2n2fwxkJqyxRJhWBEJyeRC139wzAN6Do=");
}

#[test]
fn hash_hex_agrees_with_hash() {
    let digest = hash(vec![b"this is a text".to_vec()]);
    assert_eq!(hash_hex("this is a text"), bytes_to_hex(&digest));
}

#[test]
fn bytes_to_hex_formats_nibbles() {
    assert_eq!(bytes_to_hex(&[0x00, 0x1a, 0xa5, 0xff]), "001aa5ff");
    assert_eq!(bytes_to_hex(&[]), "");
}
