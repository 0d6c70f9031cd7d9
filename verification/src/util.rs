use vstd::prelude::*;
use vstd::string::StringExecFns;

use crate::primitives;
use crate::primitives::{b64_decode_of, ed25519_verifying_key_of, x25519_public_of};

verus! {

/// The single error domain of the library.
///
/// Every operation reports its failure as one of these kinds, each with a
/// human-readable message, so that a caller can branch on bad input versus
/// failed verification versus environment failure.
#[derive(Debug)]
pub enum CryptoErr {
    /// Key bytes of the wrong length, or 32 bytes that do not decode to a key.
    InvalidKey(String),
    /// Malformed base64 text, reported before any length validation.
    DecodeBase64Err(String),
    /// Signature bytes of the wrong length.
    SignatureErr(String),
    /// A signature that fails cryptographic verification, or a signing failure.
    EcdsaErr(String),
    /// An authenticated-encryption failure, above all a tag mismatch.
    CipherErr(String),
    /// The secure random source is unavailable.
    RandomSourceErr(String),
}

pub type CryptoResult<T> = Result<T, CryptoErr>;

/// Decodes base64 text to exactly 32 key bytes.
///
/// Malformed base64 and a well-formed text of the wrong decoded length are
/// distinct failures: the first is `DecodeBase64Err`, the second `InvalidKey`.
pub fn b64_to_bytes(key_b64: &str) -> (r: CryptoResult<Vec<u8>>)
    ensures
        r is Ok <==> (b64_decode_of(key_b64@) matches Some(b) && b.len() == 32),
        r matches Ok(v) ==> b64_decode_of(key_b64@) == Some(v@) && v@.len() == 32,
        r matches Err(e) ==> (e is DecodeBase64Err <==> b64_decode_of(key_b64@) is None),
        r matches Err(e) ==> (e is InvalidKey <==> (b64_decode_of(key_b64@) matches Some(b)
            && b.len() != 32)),
{
    let decoded = match primitives::b64_decode(key_b64) {
        Ok(v) => v,
        Err(e) => {
            return Err(e);
        },
    };
    if decoded.len() != 32 {
        return Err(CryptoErr::InvalidKey("invalid key length".to_owned()));
    }
    Ok(decoded)
}

/// Generates a fresh ephemeral Diffie-Hellman key pair as `(secret, public)`
/// bytes.
///
/// Failure of the operating system's randomness source aborts here, the one
/// path where it is fatal; the static and signing paths surface it as an
/// error instead.
pub fn ecdh_gen_kp() -> (r: (Vec<u8>, Vec<u8>))
    ensures
        r.0@.len() == 32,
        r.1@ == x25519_public_of(r.0@),
        r.1@.len() == 32,
{
    let secret = primitives::x25519_random_secret();
    let public = primitives::x25519_public(secret.as_slice());
    (secret, public)
}

/// Generates a fresh signing key pair as `(seed, verifying key)` bytes.
///
/// An unavailable randomness source is reported as `RandomSourceErr`.
pub fn ecdsa_gen_kp() -> (r: CryptoResult<(Vec<u8>, Vec<u8>)>)
    ensures
        r matches Ok(kp) ==> kp.0@.len() == 32 && kp.1@ == ed25519_verifying_key_of(kp.0@)
            && kp.1@.len() == 32,
        r matches Err(e) ==> e is RandomSourceErr,
{
    let seed = match primitives::random_bytes(32) {
        Ok(v) => v,
        Err(e) => {
            return Err(e);
        },
    };
    let verify = primitives::ed25519_verifying_key(seed.as_slice());
    Ok((seed, verify))
}

/// The lowercase hexadecimal digit for a value below 16.
pub open spec fn hex_char(n: u8) -> char {
    if n == 0 {
        '0'
    } else if n == 1 {
        '1'
    } else if n == 2 {
        '2'
    } else if n == 3 {
        '3'
    } else if n == 4 {
        '4'
    } else if n == 5 {
        '5'
    } else if n == 6 {
        '6'
    } else if n == 7 {
        '7'
    } else if n == 8 {
        '8'
    } else if n == 9 {
        '9'
    } else if n == 10 {
        'a'
    } else if n == 11 {
        'b'
    } else if n == 12 {
        'c'
    } else if n == 13 {
        'd'
    } else if n == 14 {
        'e'
    } else {
        'f'
    }
}

/// The lowercase hexadecimal text for a byte sequence, two digits per byte,
/// high nibble first.
pub open spec fn hex_of(b: Seq<u8>) -> Seq<char> {
    Seq::new(
        b.len() * 2,
        |i: int|
            if i % 2 == 0 {
                hex_char((b[i / 2] / 16) as u8)
            } else {
                hex_char((b[i / 2] % 16) as u8)
            },
    )
}

/// One lowercase hexadecimal digit as a string slice.
fn hex_digit_str(n: u8) -> (r: &'static str)
    requires
        n < 16,
    ensures
        r@ == seq![hex_char(n)],
{
    proof {
        reveal_strlit("0");
        reveal_strlit("1");
        reveal_strlit("2");
        reveal_strlit("3");
        reveal_strlit("4");
        reveal_strlit("5");
        reveal_strlit("6");
        reveal_strlit("7");
        reveal_strlit("8");
        reveal_strlit("9");
        reveal_strlit("a");
        reveal_strlit("b");
        reveal_strlit("c");
        reveal_strlit("d");
        reveal_strlit("e");
        reveal_strlit("f");
    }
    let r: &'static str = if n == 0 {
        "0"
    } else if n == 1 {
        "1"
    } else if n == 2 {
        "2"
    } else if n == 3 {
        "3"
    } else if n == 4 {
        "4"
    } else if n == 5 {
        "5"
    } else if n == 6 {
        "6"
    } else if n == 7 {
        "7"
    } else if n == 8 {
        "8"
    } else if n == 9 {
        "9"
    } else if n == 10 {
        "a"
    } else if n == 11 {
        "b"
    } else if n == 12 {
        "c"
    } else if n == 13 {
        "d"
    } else if n == 14 {
        "e"
    } else {
        "f"
    };
    proof {
        assert(r@ =~= seq![hex_char(n)]);
    }
    r
}

/// Formats bytes as lowercase hexadecimal, two digits per byte.
pub fn bytes_to_hex(b: &[u8]) -> (r: String)
    ensures
        r@ == hex_of(b@),
{
    let mut out = String::new();
    let mut i: usize = 0;
    while i < b.len()
        invariant
            i <= b@.len(),
            out@ == hex_of(b@).subrange(0, 2 * i as int),
        decreases b@.len() - i,
    {
        let hi: u8 = b[i] / 16;
        let lo: u8 = b[i] % 16;
        out.append(hex_digit_str(hi));
        out.append(hex_digit_str(lo));
        proof {
            assert(hex_of(b@).subrange(0, 2 * (i + 1) as int) =~= hex_of(b@).subrange(
                0,
                2 * i as int,
            ) + seq![hex_char((b@[i as int] / 16) as u8), hex_char((b@[i as int] % 16) as u8)]);
        }
        i = i + 1;
    }
    proof {
        assert(hex_of(b@).subrange(0, 2 * b@.len() as int) =~= hex_of(b@));
    }
    out
}

} // verus!
