//! Trusted boundary to the cryptographic primitive crates.
//!
//! Every function here is `external_body`: its contract is believed, not
//! proved. Each result that is a pure function of the arguments is given a
//! name by an uninterpreted spec function, so that the verified code above
//! can state exact contracts without restating the primitive itself.

use vstd::prelude::*;

use base64ct::Encoding;
use chacha20poly1305::aead::Aead;
use chacha20poly1305::KeyInit;
use ed25519_dalek::{Signer, Verifier};

use crate::util::CryptoErr;

verus! {

/// The bytes that standard base64 (padded alphabet) decodes `s` to, if `s` is well formed.
pub uninterp spec fn b64_decode_of(s: Seq<char>) -> Option<Seq<u8>>;

/// The standard base64 (padded alphabet) text for the bytes `b`.
pub uninterp spec fn b64_encode_of(b: Seq<u8>) -> Seq<char>;

/// The x25519 public key derived from a 32-byte secret.
pub uninterp spec fn x25519_public_of(secret: Seq<u8>) -> Seq<u8>;

/// The x25519 shared secret of a 32-byte local secret and a 32-byte remote public key.
pub uninterp spec fn x25519_shared_of(secret: Seq<u8>, peer: Seq<u8>) -> Seq<u8>;

/// The ed25519 verifying key derived from a 32-byte seed.
pub uninterp spec fn ed25519_verifying_key_of(seed: Seq<u8>) -> Seq<u8>;

/// The ed25519 signature over `msg` by the key pair with the given seed.
pub uninterp spec fn ed25519_signature_of(seed: Seq<u8>, msg: Seq<u8>) -> Seq<u8>;

/// Whether 32 bytes decompress to a valid ed25519 verifying key.
pub uninterp spec fn ed25519_key_parses(vk: Seq<u8>) -> bool;

/// Whether the verifying key `vk` accepts `sig` as a signature over `msg`.
pub uninterp spec fn ed25519_accepts(vk: Seq<u8>, msg: Seq<u8>, sig: Seq<u8>) -> bool;

/// The XChaCha20-Poly1305 ciphertext (tag appended) for a key, nonce and plaintext.
pub uninterp spec fn xchacha_sealed_of(key: Seq<u8>, nonce: Seq<u8>, pt: Seq<u8>) -> Seq<u8>;

/// The plaintext that XChaCha20-Poly1305 opens `ct` to, if its tag verifies.
pub uninterp spec fn xchacha_opened_of(key: Seq<u8>, nonce: Seq<u8>, ct: Seq<u8>) -> Option<
    Seq<u8>,
>;

/// The 32-byte BLAKE3 digest of `data`.
pub uninterp spec fn blake3_digest_of(data: Seq<u8>) -> Seq<u8>;

/// The 32-byte BLAKE3 key derived from a context string and key material.
pub uninterp spec fn blake3_derived_of(ctx: Seq<char>, material: Seq<u8>) -> Seq<u8>;

/// Relies on `base64ct::Base64::decode_vec`: standard base64 with padding,
/// rejecting malformed text.
#[verifier::external_body]
pub(crate) fn b64_decode(s: &str) -> (r: Result<Vec<u8>, CryptoErr>)
    ensures
        (r is Ok) == (b64_decode_of(s@) is Some),
        r matches Ok(v) ==> b64_decode_of(s@) == Some(v@),
        r matches Err(e) ==> e is DecodeBase64Err,
{
    match base64ct::Base64::decode_vec(s) {
        Ok(v) => Ok(v),
        Err(e) => Err(CryptoErr::DecodeBase64Err(e.to_string())),
    }
}

/// Relies on `base64ct::Base64::encode_string`: standard base64 with padding,
/// producing exactly the canonical text that `decode_vec` decodes back to the
/// input bytes.
#[verifier::external_body]
pub(crate) fn b64_encode(b: &[u8]) -> (r: String)
    ensures
        r@ == b64_encode_of(b@),
        b64_decode_of(r@) == Some(b@),
{
    base64ct::Base64::encode_string(b)
}

/// Relies on `getrandom::fill`: fills a buffer from the operating system's
/// secure random source, reporting its failure instead of aborting.
#[verifier::external_body]
pub(crate) fn random_bytes(n: usize) -> (r: Result<Vec<u8>, CryptoErr>)
    ensures
        r matches Ok(v) ==> v@.len() == n,
        r matches Err(e) ==> e is RandomSourceErr,
{
    let mut buf = vec![0u8; n];
    match getrandom::fill(&mut buf) {
        Ok(()) => Ok(buf),
        Err(e) => Err(CryptoErr::RandomSourceErr(e.to_string())),
    }
}

/// Relies on `x25519_dalek::StaticSecret::random`: 32 fresh bytes from the
/// secure random source; aborts if that source fails.
#[verifier::external_body]
pub(crate) fn x25519_random_secret() -> (r: Vec<u8>)
    ensures
        r@.len() == 32,
{
    x25519_dalek::StaticSecret::random().to_bytes().to_vec()
}

/// Relies on `x25519_dalek::PublicKey::from(&StaticSecret)`: the public key
/// is a function of the secret bytes alone.
#[verifier::external_body]
pub(crate) fn x25519_public(secret: &[u8]) -> (r: Vec<u8>)
    requires
        secret@.len() == 32,
    ensures
        r@ == x25519_public_of(secret@),
        r@.len() == 32,
{
    let arr: [u8; 32] = secret.try_into().unwrap();
    let public = x25519_dalek::PublicKey::from(&x25519_dalek::StaticSecret::from(arr));
    public.as_bytes().to_vec()
}

/// The shared secret `shared` is the Diffie-Hellman product of `secret` and
/// `peer`; and whenever `peer` is the public key of some secret `other`, the
/// other party computes the same bytes from its own secret and this party's
/// public key — x25519 is scalar multiplication of one point, which commutes.
pub open spec fn dh_agreement(secret: Seq<u8>, peer: Seq<u8>, shared: Seq<u8>) -> bool {
    &&& shared == x25519_shared_of(secret, peer)
    &&& forall|other: Seq<u8>|
        #![trigger x25519_public_of(other)]
        x25519_public_of(other) == peer ==> shared == x25519_shared_of(
            other,
            x25519_public_of(secret),
        )
}

/// Relies on `x25519_dalek::StaticSecret::diffie_hellman`: the shared secret
/// is a function of the local secret bytes and the remote public bytes alone,
/// and both parties of an exchange compute the same bytes (`dh_agreement`),
/// since the product is the peer point multiplied by the own clamped scalar.
#[verifier::external_body]
pub(crate) fn x25519_shared(secret: &[u8], peer: &[u8]) -> (r: Vec<u8>)
    requires
        secret@.len() == 32,
        peer@.len() == 32,
    ensures
        r@ == x25519_shared_of(secret@, peer@),
        dh_agreement(secret@, peer@, r@),
        r@.len() == 32,
{
    let secret_arr: [u8; 32] = secret.try_into().unwrap();
    let peer_arr: [u8; 32] = peer.try_into().unwrap();
    let local = x25519_dalek::StaticSecret::from(secret_arr);
    let shared = local.diffie_hellman(&x25519_dalek::PublicKey::from(peer_arr));
    shared.to_bytes().to_vec()
}

/// Relies on `ed25519_dalek::SigningKey::verifying_key`: derived
/// deterministically from the 32-byte seed.
#[verifier::external_body]
pub(crate) fn ed25519_verifying_key(seed: &[u8]) -> (r: Vec<u8>)
    requires
        seed@.len() == 32,
    ensures
        r@ == ed25519_verifying_key_of(seed@),
        r@.len() == 32,
{
    let arr: [u8; 32] = seed.try_into().unwrap();
    let signing = ed25519_dalek::SigningKey::from_bytes(&arr);
    signing.verifying_key().to_bytes().to_vec()
}

/// Relies on `ed25519_dalek::SigningKey::try_sign`: ed25519 signing is
/// deterministic in the seed and the message and, for a `SigningKey`, never
/// fails; the derived verifying key is a decompressible point and accepts the
/// signature it made.
#[verifier::external_body]
pub(crate) fn ed25519_sign(seed: &[u8], msg: &[u8]) -> (r: Result<Vec<u8>, CryptoErr>)
    requires
        seed@.len() == 32,
    ensures
        r is Ok,
        r matches Ok(s) ==> s@ == ed25519_signature_of(seed@, msg@) && s@.len() == 64,
        r matches Ok(s) ==> ed25519_key_parses(ed25519_verifying_key_of(seed@))
            && ed25519_accepts(ed25519_verifying_key_of(seed@), msg@, s@),
{
    let arr: [u8; 32] = seed.try_into().unwrap();
    let signing = ed25519_dalek::SigningKey::from_bytes(&arr);
    match signing.try_sign(msg) {
        Ok(sig) => Ok(sig.to_bytes().to_vec()),
        Err(e) => Err(CryptoErr::EcdsaErr(e.to_string())),
    }
}

/// Relies on `ed25519_dalek::VerifyingKey::from_bytes`: whether 32 bytes are
/// a decompressible verifying key is a function of the bytes alone.
#[verifier::external_body]
pub(crate) fn ed25519_parse_key(vk: &[u8]) -> (r: bool)
    requires
        vk@.len() == 32,
    ensures
        r == ed25519_key_parses(vk@),
{
    let arr: [u8; 32] = vk.try_into().unwrap();
    ed25519_dalek::VerifyingKey::from_bytes(&arr).is_ok()
}

/// Relies on `ed25519_dalek::VerifyingKey::verify` (with
/// `VerifyingKey::from_bytes` and `Signature::from_slice` reconstructing the
/// arguments, both total under this `requires`): verification is
/// deterministic and side-effect-free.
#[verifier::external_body]
pub(crate) fn ed25519_verify(vk: &[u8], msg: &[u8], sig: &[u8]) -> (r: bool)
    requires
        vk@.len() == 32,
        ed25519_key_parses(vk@),
        sig@.len() == 64,
    ensures
        r == ed25519_accepts(vk@, msg@, sig@),
{
    let arr: [u8; 32] = vk.try_into().unwrap();
    let key = ed25519_dalek::VerifyingKey::from_bytes(&arr).unwrap();
    let signature = ed25519_dalek::Signature::from_slice(sig).unwrap();
    key.verify(msg, &signature).is_ok()
}

/// Relies on `chacha20poly1305::XChaCha20Poly1305::encrypt` (with `new`
/// binding the key): deterministic in key, nonce and plaintext, appending the
/// 16-byte Poly1305 tag; `decrypt` under the same key and nonce opens the
/// sealed bytes back to the plaintext.
#[verifier::external_body]
pub(crate) fn xchacha_seal(key: &[u8], nonce: &[u8], pt: &[u8]) -> (r: Result<Vec<u8>, CryptoErr>)
    requires
        key@.len() == 32,
        nonce@.len() == 24,
    ensures
        r matches Ok(c) ==> c@ == xchacha_sealed_of(key@, nonce@, pt@) && c@.len() == pt@.len()
            + 16,
        r matches Ok(c) ==> xchacha_opened_of(key@, nonce@, c@) == Some(pt@),
        r matches Err(e) ==> e is CipherErr,
{
    let key_arr = chacha20poly1305::Key::try_from(key).unwrap();
    let nonce_arr = chacha20poly1305::XNonce::try_from(nonce).unwrap();
    let cipher = chacha20poly1305::XChaCha20Poly1305::new(&key_arr);
    match cipher.encrypt(&nonce_arr, pt) {
        Ok(c) => Ok(c),
        Err(e) => Err(CryptoErr::CipherErr(e.to_string())),
    }
}

/// Relies on `chacha20poly1305::XChaCha20Poly1305::decrypt` (with `new`
/// binding the key): returns the plaintext exactly when the tag verifies,
/// deterministically in key, nonce and ciphertext.
#[verifier::external_body]
pub(crate) fn xchacha_open(key: &[u8], nonce: &[u8], ct: &[u8]) -> (r: Result<Vec<u8>, CryptoErr>)
    requires
        key@.len() == 32,
        nonce@.len() == 24,
    ensures
        (r is Ok) == (xchacha_opened_of(key@, nonce@, ct@) is Some),
        r matches Ok(p) ==> xchacha_opened_of(key@, nonce@, ct@) == Some(p@),
        r matches Err(e) ==> e is CipherErr,
{
    let key_arr = chacha20poly1305::Key::try_from(key).unwrap();
    let nonce_arr = chacha20poly1305::XNonce::try_from(nonce).unwrap();
    let cipher = chacha20poly1305::XChaCha20Poly1305::new(&key_arr);
    match cipher.decrypt(&nonce_arr, ct) {
        Ok(p) => Ok(p),
        Err(e) => Err(CryptoErr::CipherErr(e.to_string())),
    }
}

/// Relies on `blake3::hash`: the digest is a function of the input bytes alone.
#[verifier::external_body]
pub(crate) fn blake3_digest(data: &[u8]) -> (r: Vec<u8>)
    ensures
        r@ == blake3_digest_of(data@),
        r@.len() == 32,
{
    blake3::hash(data).as_bytes().to_vec()
}

/// Relies on `blake3::derive_key`: deterministic and domain-separated by the
/// context string.
#[verifier::external_body]
pub(crate) fn blake3_derive(ctx: &str, material: &[u8]) -> (r: Vec<u8>)
    ensures
        r@ == blake3_derived_of(ctx@, material@),
        r@.len() == 32,
{
    blake3::derive_key(ctx, material).to_vec()
}

} // verus!
