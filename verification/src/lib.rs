//! A facade over cryptographic primitives: Diffie-Hellman key exchange
//! (ephemeral and static), ed25519 signatures, XChaCha20-Poly1305
//! authenticated encryption, and BLAKE3 hashing and key derivation. The
//! facade owns the correctness contracts: key and nonce lengths, envelope
//! layout, error discrimination, and the determinism of derivation.

pub mod cipher;
pub mod primitives;
pub mod util;

use vstd::prelude::*;
use vstd::string::StringSliceAdditionalSpecFns;

use crate::cipher::AeadCipher;
use crate::primitives::{
    b64_decode_of, b64_encode_of, blake3_derived_of, blake3_digest_of, dh_agreement,
    ed25519_accepts, ed25519_key_parses, ed25519_signature_of, ed25519_verifying_key_of,
    x25519_public_of, x25519_shared_of, xchacha_opened_of,
};
use crate::util::{b64_to_bytes, bytes_to_hex, hex_of, CryptoErr, CryptoResult};

verus! {

/// An ephemeral Diffie-Hellman key pair: consumed by its one exchange, so a
/// second exchange with the same secret is impossible at compile time.
pub struct Ecdh {
    secret: Vec<u8>,
    pub_key: Vec<u8>,
}

impl Ecdh {
    /// The pair holds a 32-byte secret and the public key derived from it.
    pub closed spec fn wf(&self) -> bool {
        &&& self.secret@.len() == 32
        &&& self.pub_key@ == x25519_public_of(self.secret@)
        &&& self.pub_key@.len() == 32
    }

    /// The secret scalar bytes of this pair.
    pub closed spec fn secret_view(&self) -> Seq<u8> {
        self.secret@
    }

    /// Draws a fresh random key pair; an unavailable randomness source is
    /// fatal here, not a typed error.
    pub fn init() -> (r: Self)
        ensures
            r.wf(),
    {
        let (secret, pub_key) = util::ecdh_gen_kp();
        Ecdh { secret, pub_key }
    }

    /// Computes the shared secret with a remote public key given as raw
    /// bytes, consuming this pair. Exactly 32 bytes are accepted.
    pub fn exchange(self, rival_pk: &[u8]) -> (r: CryptoResult<Vec<u8>>)
        requires
            self.wf(),
        ensures
            r is Ok <==> rival_pk@.len() == 32,
            r matches Ok(s) ==> dh_agreement(self.secret_view(), rival_pk@, s@) && s@.len() == 32,
            r matches Err(e) ==> e is InvalidKey,
    {
        if rival_pk.len() != 32 {
            return Err(CryptoErr::InvalidKey("invalid key length".to_owned()));
        }
        self.dh_share(rival_pk)
    }

    fn dh_share(self, rival_pk_arr: &[u8]) -> (r: CryptoResult<Vec<u8>>)
        requires
            self.wf(),
            rival_pk_arr@.len() == 32,
        ensures
            r matches Ok(s) ==> dh_agreement(self.secret_view(), rival_pk_arr@, s@) && s@.len()
                == 32,
            r is Ok,
    {
        Ok(primitives::x25519_shared(self.secret.as_slice(), rival_pk_arr))
    }

    /// Computes the shared secret with a remote public key given as base64
    /// text, consuming this pair. Malformed text and a wrong decoded length
    /// are distinct errors.
    pub fn exchange_b64(self, rival_pk_b64: &str) -> (r: CryptoResult<Vec<u8>>)
        requires
            self.wf(),
        ensures
            r is Ok <==> (b64_decode_of(rival_pk_b64@) matches Some(b) && b.len() == 32),
            r matches Ok(s) ==> dh_agreement(
                self.secret_view(),
                b64_decode_of(rival_pk_b64@).unwrap(),
                s@,
            ) && s@.len() == 32,
            r matches Err(e) ==> (e is DecodeBase64Err <==> b64_decode_of(rival_pk_b64@) is None),
            r matches Err(e) ==> (e is InvalidKey <==> (b64_decode_of(rival_pk_b64@) matches Some(
                b,
            ) && b.len() != 32)),
    {
        let rival_pk_arr = match b64_to_bytes(rival_pk_b64) {
            Ok(v) => v,
            Err(e) => {
                return Err(e);
            },
        };
        self.dh_share(rival_pk_arr.as_slice())
    }

    /// The public key of this pair, as raw bytes.
    pub fn pub_key(&self) -> (r: Vec<u8>)
        requires
            self.wf(),
        ensures
            r@ == x25519_public_of(self.secret_view()),
            r@.len() == 32,
    {
        vstd::slice::slice_to_vec(self.pub_key.as_slice())
    }
}

/// A static Diffie-Hellman key pair: reusable across exchanges and
/// exportable to raw bytes for storage.
pub struct StaticEcdh {
    secret: Vec<u8>,
}

impl StaticEcdh {
    /// The pair holds a 32-byte secret.
    pub closed spec fn wf(&self) -> bool {
        self.secret@.len() == 32
    }

    /// The secret scalar bytes of this pair.
    pub closed spec fn secret_view(&self) -> Seq<u8> {
        self.secret@
    }

    /// Draws a fresh random key pair; an unavailable randomness source is
    /// surfaced as `RandomSourceErr`.
    pub fn init() -> (r: CryptoResult<Self>)
        ensures
            r matches Ok(kp) ==> kp.wf(),
            r matches Err(e) ==> e is RandomSourceErr,
    {
        let secret = match primitives::random_bytes(32) {
            Ok(v) => v,
            Err(e) => {
                return Err(e);
            },
        };
        Ok(StaticEcdh { secret })
    }

    /// Exports the secret for storage.
    pub fn to_bytes(&self) -> (r: Vec<u8>)
        requires
            self.wf(),
        ensures
            r@ == self.secret_view(),
            r@.len() == 32,
    {
        vstd::slice::slice_to_vec(self.secret.as_slice())
    }

    /// Re-imports an exported secret. Exactly 32 bytes are accepted.
    pub fn from_bytes(ecdh_bytes: &[u8]) -> (r: CryptoResult<Self>)
        ensures
            r is Ok <==> ecdh_bytes@.len() == 32,
            r matches Ok(kp) ==> kp.wf() && kp.secret_view() == ecdh_bytes@,
            r matches Err(e) ==> e is InvalidKey,
    {
        if ecdh_bytes.len() != 32 {
            return Err(CryptoErr::InvalidKey("invalid key length".to_owned()));
        }
        Ok(StaticEcdh { secret: vstd::slice::slice_to_vec(ecdh_bytes) })
    }

    /// Computes the shared secret with a remote public key given as raw
    /// bytes; the pair stays usable for further exchanges.
    pub fn exchange(&self, rival_pk: &[u8]) -> (r: CryptoResult<Vec<u8>>)
        requires
            self.wf(),
        ensures
            r is Ok <==> rival_pk@.len() == 32,
            r matches Ok(s) ==> dh_agreement(self.secret_view(), rival_pk@, s@) && s@.len() == 32,
            r matches Err(e) ==> e is InvalidKey,
    {
        if rival_pk.len() != 32 {
            return Err(CryptoErr::InvalidKey("invalid key length".to_owned()));
        }
        self.dh_share(rival_pk)
    }

    fn dh_share(&self, rival_pk_arr: &[u8]) -> (r: CryptoResult<Vec<u8>>)
        requires
            self.wf(),
            rival_pk_arr@.len() == 32,
        ensures
            r matches Ok(s) ==> dh_agreement(self.secret_view(), rival_pk_arr@, s@) && s@.len()
                == 32,
            r is Ok,
    {
        Ok(primitives::x25519_shared(self.secret.as_slice(), rival_pk_arr))
    }

    /// Computes the shared secret with a remote public key given as base64
    /// text; the pair stays usable for further exchanges.
    pub fn exchange_b64(&self, rival_pk_b64: &str) -> (r: CryptoResult<Vec<u8>>)
        requires
            self.wf(),
        ensures
            r is Ok <==> (b64_decode_of(rival_pk_b64@) matches Some(b) && b.len() == 32),
            r matches Ok(s) ==> dh_agreement(
                self.secret_view(),
                b64_decode_of(rival_pk_b64@).unwrap(),
                s@,
            ) && s@.len() == 32,
            r matches Err(e) ==> (e is DecodeBase64Err <==> b64_decode_of(rival_pk_b64@) is None),
            r matches Err(e) ==> (e is InvalidKey <==> (b64_decode_of(rival_pk_b64@) matches Some(
                b,
            ) && b.len() != 32)),
    {
        let rival_pk_arr = match b64_to_bytes(rival_pk_b64) {
            Ok(v) => v,
            Err(e) => {
                return Err(e);
            },
        };
        self.dh_share(rival_pk_arr.as_slice())
    }

    /// The public key derived from this pair's secret, as raw bytes.
    pub fn pub_key(&self) -> (r: Vec<u8>)
        requires
            self.wf(),
        ensures
            r@ == x25519_public_of(self.secret_view()),
            r@.len() == 32,
    {
        primitives::x25519_public(self.secret.as_slice())
    }
}

/// An ed25519 signing key pair. The verifying key is always the one derived
/// from the seed, whether the pair was generated or imported.
pub struct Ecdsa {
    sign_key: Vec<u8>,
    verify_key: Vec<u8>,
}

impl Ecdsa {
    /// The pair holds a 32-byte seed and the verifying key derived from it.
    pub closed spec fn wf(&self) -> bool {
        &&& self.sign_key@.len() == 32
        &&& self.verify_key@ == ed25519_verifying_key_of(self.sign_key@)
        &&& self.verify_key@.len() == 32
    }

    /// The 32-byte signing seed of this pair.
    pub closed spec fn seed_view(&self) -> Seq<u8> {
        self.sign_key@
    }

    /// The 32-byte verifying key of this pair.
    pub closed spec fn vk_view(&self) -> Seq<u8> {
        self.verify_key@
    }

    /// Builds a pair from an imported 32-byte seed, or, given none, from a
    /// freshly generated one. A seed of any other length is `InvalidKey`; a
    /// failing randomness source is `RandomSourceErr`.
    pub fn init(sk_opt: Option<Vec<u8>>) -> (r: CryptoResult<Self>)
        ensures
            r matches Ok(kp) ==> kp.wf(),
            sk_opt matches Some(sk) ==> (r is Ok <==> sk@.len() == 32),
            sk_opt matches Some(sk) ==> (r matches Ok(kp) ==> kp.seed_view() == sk@),
            sk_opt matches Some(sk) ==> (r matches Err(e) ==> e is InvalidKey),
            sk_opt is None ==> (r matches Err(e) ==> e is RandomSourceErr),
    {
        let (sign_key, verify_key) = match sk_opt {
            Some(sk) => {
                if sk.len() != 32 {
                    return Err(CryptoErr::InvalidKey("invalid seed length".to_owned()));
                }
                let verifying = primitives::ed25519_verifying_key(sk.as_slice());
                (sk, verifying)
            },
            None => {
                match util::ecdsa_gen_kp() {
                    Ok(kp) => kp,
                    Err(e) => {
                        return Err(e);
                    },
                }
            },
        };
        Ok(Ecdsa { sign_key, verify_key })
    }

    /// The signing seed, base64-encoded.
    pub fn sign_key(&self) -> (r: String)
        requires
            self.wf(),
        ensures
            r@ == b64_encode_of(self.seed_view()),
    {
        primitives::b64_encode(self.sign_key.as_slice())
    }

    /// The verifying key, base64-encoded.
    pub fn verify_key(&self) -> (r: String)
        requires
            self.wf(),
        ensures
            r@ == b64_encode_of(self.vk_view()),
    {
        primitives::b64_encode(self.verify_key.as_slice())
    }

    /// The signing seed, as raw bytes.
    pub fn sk(&self) -> (r: Vec<u8>)
        requires
            self.wf(),
        ensures
            r@ == self.seed_view(),
    {
        vstd::slice::slice_to_vec(self.sign_key.as_slice())
    }

    /// The verifying key, as raw bytes.
    pub fn vk(&self) -> (r: Vec<u8>)
        requires
            self.wf(),
        ensures
            r@ == self.vk_view(),
    {
        vstd::slice::slice_to_vec(self.verify_key.as_slice())
    }

    /// Signs a message (raw bytes or a digest made by the caller) with this
    /// pair's seed. Signing always succeeds, and this pair's verifying key
    /// accepts the signature.
    pub fn sign(&self, msg_hash: &[u8]) -> (r: CryptoResult<Vec<u8>>)
        requires
            self.wf(),
        ensures
            r is Ok,
            r matches Ok(s) ==> s@ == ed25519_signature_of(self.seed_view(), msg_hash@)
                && s@.len() == 64,
            r matches Ok(s) ==> ed25519_key_parses(self.vk_view()) && ed25519_accepts(
                self.vk_view(),
                msg_hash@,
                s@,
            ),
    {
        primitives::ed25519_sign(self.sign_key.as_slice(), msg_hash)
    }

    /// Signs a text message with a caller-supplied 32-byte seed, succeeding
    /// exactly on seeds of that length; a seed of any other length is
    /// `InvalidKey`. The signature equals the one a pair built from that seed
    /// makes, and that pair's verifying key accepts it.
    pub fn sign_by(sign_key: &[u8], msg_hash: &str) -> (r: CryptoResult<Vec<u8>>)
        ensures
            r is Ok <==> sign_key@.len() == 32,
            r matches Ok(s) ==> s@ == ed25519_signature_of(sign_key@, msg_hash.spec_bytes())
                && s@.len() == 64,
            r matches Ok(s) ==> ed25519_key_parses(ed25519_verifying_key_of(sign_key@))
                && ed25519_accepts(
                ed25519_verifying_key_of(sign_key@),
                msg_hash.spec_bytes(),
                s@,
            ),
            r matches Err(e) ==> e is InvalidKey,
    {
        if sign_key.len() != 32 {
            return Err(CryptoErr::InvalidKey("invalid seed length".to_owned()));
        }
        primitives::ed25519_sign(sign_key, msg_hash.as_bytes())
    }

    /// Verifies a signature. A verifying key that is not 32 bytes, or whose
    /// 32 bytes do not decompress to a curve point, is `InvalidKey`; a
    /// signature that is not 64 bytes is `SignatureErr`; a well-formed
    /// signature that fails cryptographic verification is `EcdsaErr`; `Ok`
    /// carries `true` and nothing else.
    pub fn verify(rival_pk: &[u8], msg_hash: &[u8], sign: &[u8]) -> (r: CryptoResult<bool>)
        ensures
            r matches Ok(b) ==> b == true,
            rival_pk@.len() != 32 ==> (r matches Err(e) && e is InvalidKey),
            rival_pk@.len() == 32 && !ed25519_key_parses(rival_pk@) ==> (r matches Err(e)
                && e is InvalidKey),
            rival_pk@.len() == 32 && ed25519_key_parses(rival_pk@) && sign@.len() != 64 ==> (
            r matches Err(e) && e is SignatureErr),
            rival_pk@.len() == 32 && ed25519_key_parses(rival_pk@) && sign@.len() == 64 ==> (
            r is Ok <==> ed25519_accepts(rival_pk@, msg_hash@, sign@)),
            rival_pk@.len() == 32 && ed25519_key_parses(rival_pk@) && sign@.len() == 64 ==> (
            r matches Err(e) ==> e is EcdsaErr),
    {
        if rival_pk.len() != 32 {
            return Err(CryptoErr::InvalidKey("invalid key length".to_owned()));
        }
        if !primitives::ed25519_parse_key(rival_pk) {
            return Err(CryptoErr::InvalidKey("malformed verifying key".to_owned()));
        }
        if sign.len() != 64 {
            return Err(CryptoErr::SignatureErr("invalid signature length".to_owned()));
        }
        if primitives::ed25519_verify(rival_pk, msg_hash, sign) {
            Ok(true)
        } else {
            Err(CryptoErr::EcdsaErr("signature verification failed".to_owned()))
        }
    }
}

/// Seed reproducibility: two well-formed signing pairs over the same seed
/// carry the same verifying key, so a pair built from an imported seed
/// reproduces the verifying key of the pair that exported it.
pub proof fn lemma_signing_key_reproducible(a: Ecdsa, b: Ecdsa)
    requires
        a.wf(),
        b.wf(),
        a.seed_view() == b.seed_view(),
    ensures
        a.vk_view() == b.vk_view(),
{
}

/// An authenticated cipher over a caller-supplied 256-bit key, in the
/// XChaCha20-Poly1305 variant with its 24-byte nonces.
pub struct Cipher(AeadCipher);

impl Cipher {
    /// The cipher's well-formedness carries over from the algorithm binding.
    pub closed spec fn wf(&self) -> bool {
        self.0.wf()
    }

    /// The symmetric key this cipher is bound to.
    pub closed spec fn key_view(&self) -> Seq<u8> {
        self.0.key_view()
    }

    /// Binds a symmetric key. Exactly 32 bytes are accepted.
    pub fn init(key: &[u8]) -> (r: CryptoResult<Self>)
        ensures
            r is Ok <==> key@.len() == 32,
            r matches Ok(c) ==> c.wf() && c.key_view() == key@,
            r matches Err(e) ==> e is InvalidKey,
    {
        if key.len() != 32 {
            return Err(CryptoErr::InvalidKey("invalid key length".to_owned()));
        }
        Ok(Cipher(AeadCipher::from_slice_key(key)))
    }

    /// Encrypts `data` under a fresh random nonce, returning the envelope
    /// `nonce || ciphertext-with-tag`; decrypting that envelope at the
    /// 24-byte split under this key recovers `data`.
    pub fn encrypt(&self, data: &[u8]) -> (r: CryptoResult<Vec<u8>>)
        requires
            self.wf(),
        ensures
            r matches Ok(env) ==> exists|n: Seq<u8>|
                #![auto]
                n.len() == 24 && env@ == n + primitives::xchacha_sealed_of(
                    self.key_view(),
                    n,
                    data@,
                ),
            r matches Ok(env) ==> env@.len() == data@.len() + 40,
            r matches Ok(env) ==> xchacha_opened_of(
                self.key_view(),
                env@.subrange(0, 24),
                env@.subrange(24, env@.len() as int),
            ) == Some(data@),
            r matches Err(e) ==> e is CipherErr || e is RandomSourceErr,
    {
        self.0.encrypt_bytes(data)
    }

    /// Splits an envelope at `nonce_len` and decrypts. Every failure is
    /// `CipherErr`: an envelope shorter than `nonce_len`, a split point other
    /// than the algorithm's 24-byte nonce length, and a tag mismatch.
    pub fn decrypt(&self, enc_data: &[u8], nonce_len: usize) -> (r: CryptoResult<Vec<u8>>)
        requires
            self.wf(),
        ensures
            nonce_len > enc_data@.len() || nonce_len != 24 ==> r is Err,
            nonce_len <= enc_data@.len() && nonce_len == 24 ==> ((r is Ok) == (xchacha_opened_of(
                self.key_view(),
                enc_data@.subrange(0, 24),
                enc_data@.subrange(24, enc_data@.len() as int),
            ) is Some)),
            r matches Ok(p) ==> nonce_len == 24 && nonce_len <= enc_data@.len()
                && xchacha_opened_of(
                self.key_view(),
                enc_data@.subrange(0, 24),
                enc_data@.subrange(24, enc_data@.len() as int),
            ) == Some(p@),
            r matches Err(e) ==> e is CipherErr,
    {
        if nonce_len > enc_data.len() {
            return Err(CryptoErr::CipherErr("envelope shorter than nonce".to_owned()));
        }
        let (nonce, cipher_data) = enc_data.split_at(nonce_len);
        self.0.decrypt_bytes(nonce, cipher_data)
    }
}

/// Static round trip: a pair that re-imported an exported secret makes the
/// same shared secret with every peer as the pair it came from, because the
/// exchange result is a function of the secret bytes and the peer key alone.
pub proof fn lemma_static_round_trip(original: StaticEcdh, reimported: StaticEcdh, peer: Seq<u8>)
    requires
        original.wf(),
        reimported.wf(),
        reimported.secret_view() == original.secret_view(),
    ensures
        x25519_shared_of(reimported.secret_view(), peer) == x25519_shared_of(
            original.secret_view(),
            peer,
        ),
{
}

/// Exchange symmetry: when each party exchanges its own secret against the
/// other's public key, the two shared secrets are the same bytes. The
/// premises are exactly what `exchange` ensures of each side's result.
pub proof fn lemma_exchange_symmetry(
    secret_a: Seq<u8>,
    secret_b: Seq<u8>,
    shared_ab: Seq<u8>,
    shared_ba: Seq<u8>,
)
    requires
        dh_agreement(secret_a, x25519_public_of(secret_b), shared_ab),
        dh_agreement(secret_b, x25519_public_of(secret_a), shared_ba),
    ensures
        shared_ab == shared_ba,
{
    assert(shared_ab == x25519_shared_of(secret_b, x25519_public_of(secret_a)));
}

/// The concatenation of a sequence of byte chunks, in order.
pub open spec fn concat_of(parts: Seq<Seq<u8>>) -> Seq<u8>
    decreases parts.len(),
{
    if parts.len() == 0 {
        Seq::empty()
    } else {
        concat_of(parts.drop_last()) + parts.last()
    }
}

/// Derives a 32-byte key from a context string and key material,
/// deterministically and domain-separated by the context.
pub fn derive_key(ctx: &str, key_material: &str) -> (r: Vec<u8>)
    ensures
        r@ == blake3_derived_of(ctx@, key_material.spec_bytes()),
        r@.len() == 32,
{
    primitives::blake3_derive(ctx, key_material.as_bytes())
}

/// Derives a 32-byte key and returns it base64-encoded.
pub fn gen_key_b64(ctx: &str, key_material: &str) -> (r: String)
    ensures
        r@ == b64_encode_of(blake3_derived_of(ctx@, key_material.spec_bytes())),
{
    let key = primitives::blake3_derive(ctx, key_material.as_bytes());
    primitives::b64_encode(key.as_slice())
}

/// Hashes a text and returns the digest as lowercase hexadecimal.
pub fn hash_hex(cont: &str) -> (r: String)
    ensures
        r@ == hex_of(blake3_digest_of(cont.spec_bytes())),
{
    let digest = primitives::blake3_digest(cont.as_bytes());
    bytes_to_hex(digest.as_slice())
}

/// Hashes a text and returns the digest base64-encoded.
pub fn hash_b64(cont: &str) -> (r: String)
    ensures
        r@ == b64_encode_of(blake3_digest_of(cont.spec_bytes())),
{
    let digest = primitives::blake3_digest(cont.as_bytes());
    primitives::b64_encode(digest.as_slice())
}

/// Hashes an ordered sequence of byte chunks: the digest is that of the
/// concatenation of all chunks in order.
pub fn hash(parts: Vec<Vec<u8>>) -> (r: Vec<u8>)
    ensures
        r@ == blake3_digest_of(concat_of(parts.deep_view())),
        r@.len() == 32,
{
    let mut buf: Vec<u8> = Vec::new();
    let mut i: usize = 0;
    while i < parts.len()
        invariant
            i <= parts@.len(),
            buf@ == concat_of(parts.deep_view().take(i as int)),
        decreases parts@.len() - i,
    {
        cipher::append_bytes(&mut buf, parts[i].as_slice());
        proof {
            let dv = parts.deep_view();
            assert(dv.take(i + 1 as int).drop_last() =~= dv.take(i as int));
            assert(dv.take(i + 1 as int).last() =~= parts@[i as int]@);
        }
        i = i + 1;
    }
    proof {
        assert(parts.deep_view().take(parts@.len() as int) =~= parts.deep_view());
    }
    primitives::blake3_digest(buf.as_slice())
}

/// Streaming equivalence: hashing a list of chunks gives the digest of the
/// single chunk holding their concatenation.
pub proof fn lemma_hash_stream_equivalence(chunks: Seq<Seq<u8>>)
    ensures
        blake3_digest_of(concat_of(chunks)) == blake3_digest_of(
            concat_of(seq![concat_of(chunks)]),
        ),
{
    let whole = concat_of(chunks);
    assert(seq![whole].drop_last() =~= Seq::<Seq<u8>>::empty());
    assert(seq![whole].last() == whole);
    assert(concat_of(seq![whole]) == concat_of(Seq::<Seq<u8>>::empty()) + whole);
    assert(concat_of(Seq::<Seq<u8>>::empty()) + whole =~= whole);
}

/// Derivation determinism: the derived key is specified as a function of the
/// context and the material alone, so equal inputs always give equal keys.
pub proof fn lemma_derive_key_deterministic(ctx: Seq<char>, material: Seq<u8>)
    ensures
        blake3_derived_of(ctx, material) == blake3_derived_of(ctx, material),
{
}

} // verus!
