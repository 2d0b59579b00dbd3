//! Post-quantum key exchange (Kyber-1024) for threat signals, with keys and
//! ciphertexts carried as standard base64 text.

use vstd::prelude::*;
use base64::Engine as _;
use pqcrypto_traits::kem::{Ciphertext as _, PublicKey as _, SecretKey as _, SharedSecret as _};

verus! {

/// The size of a Kyber-1024 public key, in bytes.
pub const PUBLIC_KEY_BYTES: usize = 1568;

/// The size of a Kyber-1024 secret key, in bytes.
pub const SECRET_KEY_BYTES: usize = 3168;

/// The size of a Kyber-1024 ciphertext, in bytes.
pub const CIPHERTEXT_BYTES: usize = 1568;

/// The size of a Kyber-1024 shared secret, in bytes.
pub const SHARED_SECRET_BYTES: usize = 32;

/// The character of a six-bit value in the standard base64 alphabet.
pub open spec fn base64_digit(v: int) -> char {
    if v < 26 {
        (65 + v) as char
    } else if v < 52 {
        (97 + v - 26) as char
    } else if v < 62 {
        (48 + v - 52) as char
    } else if v == 62 {
        '+'
    } else {
        '/'
    }
}

/// The standard base64 text of some bytes: each group of three bytes as four
/// digits, a last group of one or two bytes padded with `=`.
pub open spec fn base64_of(bytes: Seq<u8>) -> Seq<char>
    decreases bytes.len(),
{
    if bytes.len() == 0 {
        Seq::empty()
    } else if bytes.len() == 1 {
        let a = bytes[0] as int;
        seq![base64_digit(a / 4), base64_digit((a % 4) * 16), '=', '=']
    } else if bytes.len() == 2 {
        let a = bytes[0] as int;
        let b = bytes[1] as int;
        seq![base64_digit(a / 4), base64_digit((a % 4) * 16 + b / 16), base64_digit((b % 16) * 4), '=']
    } else {
        let a = bytes[0] as int;
        let b = bytes[1] as int;
        let c = bytes[2] as int;
        seq![
            base64_digit(a / 4),
            base64_digit((a % 4) * 16 + b / 16),
            base64_digit((b % 16) * 4 + c / 64),
            base64_digit(c % 64),
        ] + base64_of(bytes.subrange(3, bytes.len() as int))
    }
}

/// The bytes that a text decodes to under standard base64, when it is valid.
pub uninterp spec fn base64_decoded(text: Seq<char>) -> Option<Seq<u8>>;

/// The shared secret that Kyber-1024 decapsulation derives from a
/// ciphertext and a secret key.
pub uninterp spec fn kyber_shared_secret(ciphertext: Seq<u8>, secret_key: Seq<u8>) -> Seq<u8>;

/// Whether a public key and a secret key, as bytes, are a Kyber-1024 key
/// pair made together by key generation.
pub uninterp spec fn kyber_key_pair(public_key: Seq<u8>, secret_key: Seq<u8>) -> bool;

/// Whether a shared secret and a ciphertext, as bytes, are an encapsulation
/// made for the public key.
pub uninterp spec fn kyber_encapsulation(public_key: Seq<u8>, shared_secret: Seq<u8>, ciphertext: Seq<u8>) -> bool;

/// Where a Kyber-1024 secret key holds a copy of its public key.
pub const SECRET_KEY_PUBLIC_OFFSET: usize = 1536;

/// Calls `base64::engine::general_purpose::STANDARD.encode`. The contract
/// claims that the result is the standard padded base64 text `base64_of` of
/// the bytes and that decoding it gives the bytes back (the round trip the
/// crate's tests check).
#[verifier::external_body]
pub(crate) fn encode_base64(bytes: &[u8]) -> (res: String)
    ensures
        res@ == base64_of(bytes@),
        base64_decoded(res@) == Some(bytes@),
{
    base64::engine::general_purpose::STANDARD.encode(bytes)
}

/// Calls `base64::engine::general_purpose::STANDARD.decode` on the text's
/// bytes; the contract claims only that the result is `base64_decoded` of
/// the text, with the crate's error mapped to `None`.
#[verifier::external_body]
fn decode_base64(text: &str) -> (res: Option<Vec<u8>>)
    ensures
        match res {
            Some(b) => base64_decoded(text@) == Some(b@),
            None => base64_decoded(text@) is None,
        },
{
    base64::engine::general_purpose::STANDARD.decode(text).ok()
}

/// Calls `pqcrypto_kyber::kyber1024::keypair` and returns the bytes of the
/// public and secret keys. The keys are random; the contract claims their
/// sizes, that they are a key pair (`kyber_key_pair`), and that the secret
/// key holds a copy of the public key from byte 1536 on, which the key
/// generation of every implementation in the crate writes.
#[verifier::external_body]
fn kyber_keypair() -> (res: (Vec<u8>, Vec<u8>))
    ensures
        res.0@.len() == PUBLIC_KEY_BYTES,
        res.1@.len() == SECRET_KEY_BYTES,
        kyber_key_pair(res.0@, res.1@),
        res.1@.subrange(
            SECRET_KEY_PUBLIC_OFFSET as int,
            SECRET_KEY_PUBLIC_OFFSET + PUBLIC_KEY_BYTES,
        ) == res.0@,
{
    let (pk, sk) = pqcrypto_kyber::kyber1024::keypair();
    (pk.as_bytes().to_vec(), sk.as_bytes().to_vec())
}

/// Calls `pqcrypto_kyber::kyber1024::encapsulate` on a public key given by
/// its bytes (`PublicKey::from_bytes` accepts exactly this length) and
/// returns the bytes of the shared secret and the ciphertext. Both are
/// random; the contract claims their sizes and that they are an
/// encapsulation for the given key (`kyber_encapsulation`).
#[verifier::external_body]
fn kyber_encapsulate(public_key: &[u8]) -> (res: (Vec<u8>, Vec<u8>))
    requires
        public_key@.len() == PUBLIC_KEY_BYTES,
    ensures
        res.0@.len() == SHARED_SECRET_BYTES,
        res.1@.len() == CIPHERTEXT_BYTES,
        kyber_encapsulation(public_key@, res.0@, res.1@),
{
    let pk = pqcrypto_kyber::kyber1024::PublicKey::from_bytes(public_key).unwrap();
    let (ss, ct) = pqcrypto_kyber::kyber1024::encapsulate(&pk);
    (ss.as_bytes().to_vec(), ct.as_bytes().to_vec())
}

/// Calls `pqcrypto_kyber::kyber1024::decapsulate` on a ciphertext and a
/// secret key given by their bytes (`from_bytes` accepts exactly these
/// lengths). The contract claims that the result is `kyber_shared_secret`
/// of the two, of the shared-secret size.
#[verifier::external_body]
fn kyber_decapsulate(ciphertext: &[u8], secret_key: &[u8]) -> (res: Vec<u8>)
    requires
        ciphertext@.len() == CIPHERTEXT_BYTES,
        secret_key@.len() == SECRET_KEY_BYTES,
    ensures
        res@ == kyber_shared_secret(ciphertext@, secret_key@),
        res@.len() == SHARED_SECRET_BYTES,
{
    let ct = pqcrypto_kyber::kyber1024::Ciphertext::from_bytes(ciphertext).unwrap();
    let sk = pqcrypto_kyber::kyber1024::SecretKey::from_bytes(secret_key).unwrap();
    pqcrypto_kyber::kyber1024::decapsulate(&ct, &sk).as_bytes().to_vec()
}

/// A key pair, each key as base64 text.
pub struct KeyPair {
    pub public_key: String,
    pub secret_key: String,
}

/// A text that decodes to `n` bytes.
pub open spec fn encodes_bytes(text: Seq<char>, n: nat) -> bool {
    base64_decoded(text) matches Some(b) && b.len() == n
}

/// The bytes a valid base64 text decodes to.
pub open spec fn decoded_bytes(text: Seq<char>) -> Seq<u8> {
    base64_decoded(text)->0
}

/// Whether a text is the base64 of some bytes of length `n`.
pub open spec fn is_base64_of_len(text: Seq<char>, n: nat) -> bool {
    exists|b: Seq<u8>| b.len() == n && text == base64_of(b)
}

/// Generates a fresh key pair: the base64 texts of a public key and a
/// secret key made together, the secret key holding a copy of the public one.
pub fn generate_quantum_keys() -> (r: KeyPair)
    ensures
        encodes_bytes(r.public_key@, PUBLIC_KEY_BYTES as nat),
        encodes_bytes(r.secret_key@, SECRET_KEY_BYTES as nat),
        r.public_key@ == base64_of(decoded_bytes(r.public_key@)),
        r.secret_key@ == base64_of(decoded_bytes(r.secret_key@)),
        kyber_key_pair(decoded_bytes(r.public_key@), decoded_bytes(r.secret_key@)),
        decoded_bytes(r.secret_key@).subrange(
            SECRET_KEY_PUBLIC_OFFSET as int,
            SECRET_KEY_PUBLIC_OFFSET + PUBLIC_KEY_BYTES,
        ) == decoded_bytes(r.public_key@),
{
    let (pk, sk) = kyber_keypair();
    KeyPair { public_key: encode_base64(pk.as_slice()), secret_key: encode_base64(sk.as_slice()) }
}

/// Encapsulates a fresh shared secret for a public key given as base64;
/// returns the shared secret and the ciphertext, both as base64, made for
/// exactly the decoded key.
pub fn encrypt_with_kyber(pk_base64: &str) -> (r: (String, String))
    requires
        encodes_bytes(pk_base64@, PUBLIC_KEY_BYTES as nat),
    ensures
        is_base64_of_len(r.0@, SHARED_SECRET_BYTES as nat),
        is_base64_of_len(r.1@, CIPHERTEXT_BYTES as nat),
        encodes_bytes(r.0@, SHARED_SECRET_BYTES as nat),
        encodes_bytes(r.1@, CIPHERTEXT_BYTES as nat),
        kyber_encapsulation(decoded_bytes(pk_base64@), decoded_bytes(r.0@), decoded_bytes(r.1@)),
{
    let pk = match decode_base64(pk_base64) {
        Some(b) => b,
        None => {
            proof {
                assert(false);
            }
            Vec::new()
        },
    };
    let (ss, ct) = kyber_encapsulate(pk.as_slice());
    (encode_base64(ss.as_slice()), encode_base64(ct.as_slice()))
}

/// Encapsulates for a public key given as base64, or refuses the key: `None`
/// exactly when the text is not base64 of a key of the public-key size.
pub fn try_encrypt_with_kyber(pk_base64: &str) -> (r: Option<(String, String)>)
    ensures
        r is None <==> !encodes_bytes(pk_base64@, PUBLIC_KEY_BYTES as nat),
        r matches Some(p) ==> is_base64_of_len(p.0@, SHARED_SECRET_BYTES as nat) && is_base64_of_len(
            p.1@,
            CIPHERTEXT_BYTES as nat,
        ) && kyber_encapsulation(decoded_bytes(pk_base64@), decoded_bytes(p.0@), decoded_bytes(p.1@)),
{
    match decode_base64(pk_base64) {
        Some(b) => {
            if b.len() == PUBLIC_KEY_BYTES {
                Some(encrypt_with_kyber(pk_base64))
            } else {
                None
            }
        },
        None => None,
    }
}

/// The shared secret, as base64, that a ciphertext and a secret key given as
/// base64 yield.
pub open spec fn decrypted(ct_base64: Seq<char>, sk_base64: Seq<char>) -> Seq<char> {
    base64_of(kyber_shared_secret(base64_decoded(ct_base64)->0, base64_decoded(sk_base64)->0))
}

/// Decapsulates a ciphertext with a secret key, both given as base64, and
/// returns the shared secret as base64.
pub fn decrypt_with_kyber(ct_base64: &str, sk_base64: &str) -> (r: String)
    requires
        encodes_bytes(ct_base64@, CIPHERTEXT_BYTES as nat),
        encodes_bytes(sk_base64@, SECRET_KEY_BYTES as nat),
    ensures
        r@ == decrypted(ct_base64@, sk_base64@),
{
    let ct = match decode_base64(ct_base64) {
        Some(b) => b,
        None => {
            proof {
                assert(false);
            }
            Vec::new()
        },
    };
    let sk = match decode_base64(sk_base64) {
        Some(b) => b,
        None => {
            proof {
                assert(false);
            }
            Vec::new()
        },
    };
    let ss = kyber_decapsulate(ct.as_slice(), sk.as_slice());
    encode_base64(ss.as_slice())
}

/// Decapsulates, or refuses the inputs: `None` exactly when one of them is
/// not base64 of bytes of the right size.
pub fn try_decrypt_with_kyber(ct_base64: &str, sk_base64: &str) -> (r: Option<String>)
    ensures
        r is None <==> !(encodes_bytes(ct_base64@, CIPHERTEXT_BYTES as nat) && encodes_bytes(
            sk_base64@,
            SECRET_KEY_BYTES as nat,
        )),
        r matches Some(s) ==> s@ == decrypted(ct_base64@, sk_base64@),
{
    let ct_ok = match decode_base64(ct_base64) {
        Some(b) => b.len() == CIPHERTEXT_BYTES,
        None => false,
    };
    let sk_ok = match decode_base64(sk_base64) {
        Some(b) => b.len() == SECRET_KEY_BYTES,
        None => false,
    };
    if ct_ok && sk_ok {
        Some(decrypt_with_kyber(ct_base64, sk_base64))
    } else {
        None
    }
}

} // verus!
