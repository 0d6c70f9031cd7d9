use vstd::prelude::*;

use crate::primitives;
use crate::primitives::{xchacha_opened_of, xchacha_sealed_of};
use crate::util::{CryptoErr, CryptoResult};

verus! {

/// An authenticated cipher bound to one 256-bit key, in the XChaCha20-Poly1305
/// variant: 24-byte nonces, a 16-byte tag appended to the ciphertext.
pub struct AeadCipher {
    key: Vec<u8>,
}

/// Appends every byte of `src` to `dst`.
pub(crate) fn append_bytes(dst: &mut Vec<u8>, src: &[u8])
    ensures
        final(dst)@ == old(dst)@ + src@,
{
    let mut i: usize = 0;
    while i < src.len()
        invariant
            i <= src@.len(),
            dst@ == old(dst)@ + src@.subrange(0, i as int),
        decreases src@.len() - i,
    {
        dst.push(src[i]);
        i = i + 1;
        assert(src@.subrange(0, i as int) == src@.subrange(0, i - 1) + seq![src@[i - 1]]);
    }
    assert(src@.subrange(0, src@.len() as int) == src@);
}

impl AeadCipher {
    /// The cipher holds exactly the 32 key bytes it was built from.
    pub closed spec fn wf(&self) -> bool {
        self.key@.len() == 32
    }

    /// The symmetric key this cipher is bound to.
    pub closed spec fn key_view(&self) -> Seq<u8> {
        self.key@
    }

    /// Binds a 32-byte symmetric key.
    pub fn from_key(key: &[u8; 32]) -> (r: Self)
        ensures
            r.wf(),
            r.key_view() == key@,
    {
        Self::from_slice_key(key.as_slice())
    }

    /// Binds a symmetric key given as a 32-byte slice.
    pub(crate) fn from_slice_key(key: &[u8]) -> (r: Self)
        requires
            key@.len() == 32,
        ensures
            r.wf(),
            r.key_view() == key@,
    {
        AeadCipher { key: vstd::slice::slice_to_vec(key) }
    }

    /// Encrypts `data` under a fresh random 24-byte nonce and returns the
    /// envelope `nonce || ciphertext-with-tag` as one contiguous sequence.
    pub fn encrypt_bytes(&self, data: &[u8]) -> (r: CryptoResult<Vec<u8>>)
        requires
            self.wf(),
        ensures
            r matches Ok(env) ==> exists|n: Seq<u8>|
                #![auto]
                n.len() == 24 && env@ == n + xchacha_sealed_of(self.key_view(), n, data@),
            r matches Ok(env) ==> env@.len() == data@.len() + 40,
            r matches Ok(env) ==> xchacha_opened_of(
                self.key_view(),
                env@.subrange(0, 24),
                env@.subrange(24, env@.len() as int),
            ) == Some(data@),
            r matches Err(e) ==> e is CipherErr || e is RandomSourceErr,
    {
        let nonce = match primitives::random_bytes(24) {
            Ok(v) => v,
            Err(e) => {
                return Err(e);
            },
        };
        let sealed = match primitives::xchacha_seal(
            self.key.as_slice(),
            nonce.as_slice(),
            data,
        ) {
            Ok(c) => c,
            Err(e) => {
                return Err(e);
            },
        };
        let mut envelope = nonce;
        proof {
            lemma_envelope_split(envelope@, sealed@);
        }
        append_bytes(&mut envelope, sealed.as_slice());
        Ok(envelope)
    }

    /// Decrypts one ciphertext-with-tag under the given 24-byte nonce. Every
    /// failure of the authenticated-encryption primitive is `CipherErr`: a
    /// nonce of the wrong length, and a tag mismatch from tampering or a
    /// wrong key, which are not told apart further.
    pub fn decrypt_bytes(&self, nonce: &[u8], cipher_data: &[u8]) -> (r: CryptoResult<Vec<u8>>)
        requires
            self.wf(),
        ensures
            nonce@.len() != 24 ==> r is Err,
            nonce@.len() == 24 ==> ((r is Ok) == (xchacha_opened_of(
                self.key_view(),
                nonce@,
                cipher_data@,
            ) is Some)),
            r matches Ok(p) ==> xchacha_opened_of(self.key_view(), nonce@, cipher_data@) == Some(
                p@,
            ),
            r matches Err(e) ==> e is CipherErr,
    {
        if nonce.len() != 24 {
            return Err(CryptoErr::CipherErr("invalid nonce length".to_owned()));
        }
        primitives::xchacha_open(self.key.as_slice(), nonce, cipher_data)
    }
}

/// Splitting an envelope at the nonce boundary returns exactly the nonce and
/// the ciphertext that were joined: the verified half of the cipher round
/// trip, leaving only the primitive's own seal/open inverse to the primitive.
pub proof fn lemma_envelope_split(n: Seq<u8>, c: Seq<u8>)
    requires
        n.len() == 24,
    ensures
        (n + c).subrange(0, 24) == n,
        (n + c).subrange(24, (n + c).len() as int) == c,
{
    assert((n + c).subrange(0, 24) =~= n);
    assert((n + c).subrange(24, (n + c).len() as int) =~= c);
}

} // verus!
