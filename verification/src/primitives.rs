//! The cryptographic primitives that the protocol is built from.
//!
//! X25519, ML-KEM-768, HKDF-SHA3-256, HMAC-SHA3-256 and BLAKE3 are computed by their
//! crates; each call stands behind one trusted wrapper whose contract names the result.
//! Keys are carried as plain bytes: an X25519 secret as its 32 raw bytes (what
//! `StaticSecret::to_bytes` returns), an ML-KEM-768 decapsulation key as its 64-byte seed,
//! an encapsulation key as its 1184-byte encoding and a ciphertext as its 1088 bytes.
use vstd::prelude::*;
use crate::bytes::push_all;
use crate::error::CryptoError;
use hkdf::hmac::{Hmac, Mac};
use hkdf::Hkdf;
use ml_kem::kem::Decapsulate;
use ml_kem::{DecapsulationKey, EncapsulationKey, KeyExport, MlKem768};
use rand_core::Rng;
use sha3::Sha3_256;
use x25519_dalek::{PublicKey, StaticSecret};

verus! {

/// The longest output HKDF-SHA3-256 can expand to: 255 blocks of 32 bytes.
pub const HKDF_SHA3_256_MAX_LEN: usize = 8160;

/// Error of `Hkdf::expand` (the output length is too large).
#[verifier::external_type_specification]
#[verifier::external_body]
pub struct ExHkdfInvalidLength(hkdf::InvalidLength);

/// Error of `KeyInit::new_from_slice` for a MAC key.
#[verifier::external_type_specification]
#[verifier::external_body]
pub struct ExMacInvalidLength(hkdf::hmac::digest::InvalidLength);

/// Error of `EncapsulationKey::new` (the encoding fails the FIPS 203 key check).
#[verifier::external_type_specification]
#[verifier::external_body]
pub struct ExInvalidKey(ml_kem::InvalidKey);

// ---------------------------------------------------------------------------------------
// Names for what the outside functions compute.
// ---------------------------------------------------------------------------------------

/// X25519 public key of a 32-byte secret: `PublicKey::from(&StaticSecret::from(sk))`.
pub uninterp spec fn x25519_base(sk: Seq<u8>) -> Seq<u8>;

/// X25519 shared secret of a secret and a public key: `StaticSecret::diffie_hellman`.
pub uninterp spec fn x25519(sk: Seq<u8>, pk: Seq<u8>) -> Seq<u8>;

/// Encoded ML-KEM-768 encapsulation key of the decapsulation key made from a seed.
pub uninterp spec fn mlkem768_ek_from_seed(seed: Seq<u8>) -> Seq<u8>;

/// `(ciphertext, shared key)` of ML-KEM-768 encapsulation to an encoded key with message `m`.
pub uninterp spec fn mlkem768_encaps(ek: Seq<u8>, m: Seq<u8>) -> (Seq<u8>, Seq<u8>);

/// Shared key of ML-KEM-768 decapsulation (with implicit rejection) of a ciphertext.
pub uninterp spec fn mlkem768_decaps(seed: Seq<u8>, ct: Seq<u8>) -> Seq<u8>;

/// HKDF-SHA3-256 output keying material of length `len` (RFC 5869).
pub uninterp spec fn hkdf_sha3_256(ikm: Seq<u8>, salt: Option<Seq<u8>>, info: Seq<u8>, len: nat) -> Seq<u8>;

/// HMAC-SHA3-256 tag of a message under a key.
pub uninterp spec fn hmac_sha3_256(key: Seq<u8>, msg: Seq<u8>) -> Seq<u8>;

/// BLAKE3 hash (the first 32 bytes of its extendable output).
pub uninterp spec fn blake3_hash(input: Seq<u8>) -> Seq<u8>;

/// The FIPS 203 encapsulation-key check for ML-KEM-768: the key is 1184 bytes and each of
/// the 768 twelve-bit coefficients packed little-endian into its first 1152 bytes is below
/// the modulus 3329.
pub open spec fn mlkem768_ek_well_formed(ek: Seq<u8>) -> bool {
    &&& ek.len() == 1184
    &&& forall|j: int| 0 <= j < 384 ==> {
        &&& #[trigger] ek[3 * j] + 256 * (ek[3 * j + 1] % 16) < 3329
        &&& ek[3 * j + 1] / 16 + 16 * ek[3 * j + 2] < 3329
    }
}

/// `pk` is the X25519 public key of `sk` and has the Diffie-Hellman property towards every
/// other secret `b`: `b` applied to `pk` gives what `sk` gives applied to `b`'s public key.
pub open spec fn x25519_key_pair(sk: Seq<u8>, pk: Seq<u8>) -> bool {
    &&& pk == x25519_base(sk)
    &&& forall|b: Seq<u8>| b.len() == 32 ==> #[trigger] x25519(b, pk) == x25519(sk, x25519_base(b))
}

/// Thirty-two zero bytes: the salt HKDF uses when none is given (the hash length).
pub open spec fn zeros32() -> Seq<u8> {
    Seq::new(32, |i: int| 0u8)
}

/// Whether decapsulating with `seed` recovers the key that encapsulation to `ek` with
/// message `m` produced.
pub open spec fn mlkem768_recovers(ek: Seq<u8>, seed: Seq<u8>, m: Seq<u8>) -> bool {
    mlkem768_decaps(seed, mlkem768_encaps(ek, m).0) == mlkem768_encaps(ek, m).1
}

/// The salt as bytes.
pub open spec fn salt_view(salt: Option<&[u8]>) -> Option<Seq<u8>> {
    match salt {
        Some(s) => Some(s@),
        None => None,
    }
}

// ---------------------------------------------------------------------------------------
// Trusted wrappers.
// ---------------------------------------------------------------------------------------

/// Fills `N` bytes from the thread-local generator, `rand::rng()`, through
/// `rand_core::Rng::fill_bytes`. Nothing is stated of the bytes: they are random.
#[verifier::external_body]
pub(crate) fn random_bytes<const N: usize>() -> [u8; N] {
    let mut bytes = [0u8; N];
    rand::rng().fill_bytes(&mut bytes);
    bytes
}

/// `PublicKey::from(&StaticSecret::from(sk))` of x25519-dalek; the result is named
/// `x25519_base(sk)`. It has the Diffie-Hellman property that x25519-dalek documents (both
/// parties of an exchange get the same shared secret): another secret `b` applied to it
/// gives what `sk` gives applied to `b`'s public key. Both sides compute the clamped `sk`
/// times the clamped `b` times the base point.
#[verifier::external_body]
fn x25519_public_of_secret(sk: &[u8; 32]) -> (pk: [u8; 32])
    ensures
        pk@ == x25519_base(sk@),
        forall|b: Seq<u8>| b.len() == 32 ==> #[trigger] x25519(b, pk@) == x25519(sk@, x25519_base(b)),
{
    PublicKey::from(&StaticSecret::from(*sk)).to_bytes()
}

/// `StaticSecret::diffie_hellman` of x25519-dalek on a secret and a public key given by
/// their bytes; the result is named `x25519(sk, pk)`.
#[verifier::external_body]
pub(crate) fn x25519_diffie_hellman(sk: &[u8; 32], pk: &[u8; 32]) -> (ss: [u8; 32])
    ensures
        ss@ == x25519(sk@, pk@),
{
    StaticSecret::from(*sk).diffie_hellman(&PublicKey::from(*pk)).to_bytes()
}

/// `DecapsulationKey::<MlKem768>::from_seed`, then the encoding of its encapsulation key
/// (`encapsulation_key().to_bytes()`); the result is named `mlkem768_ek_from_seed(seed)`.
/// Its coefficients are reduced modulo 3329 before they are encoded, so it passes the
/// FIPS 203 encapsulation-key check.
#[verifier::external_body]
fn mlkem768_encapsulation_key(seed: &[u8; 64]) -> (ek: [u8; 1184])
    ensures
        ek@ == mlkem768_ek_from_seed(seed@),
        mlkem768_ek_well_formed(ek@),
{
    DecapsulationKey::<MlKem768>::from_seed((*seed).into()).encapsulation_key().to_bytes().into()
}

/// `EncapsulationKey::<MlKem768>::new` on the encoded key, then
/// `encapsulate_deterministic` with the 32-byte message `m` (what `encapsulate_with_rng`
/// does after drawing `m`). Decoding fails exactly when the FIPS 203 key check fails;
/// otherwise the result is named `mlkem768_encaps(ek, m)`.
#[verifier::external_body]
pub(crate) fn mlkem768_encapsulate(ek: &[u8; 1184], m: &[u8; 32]) -> (r: Result<([u8; 1088], [u8; 32]), ml_kem::InvalidKey>)
    ensures
        r is Ok <==> mlkem768_ek_well_formed(ek@),
        r matches Ok(p) ==> (p.0@, p.1@) == mlkem768_encaps(ek@, m@),
{
    match EncapsulationKey::<MlKem768>::new(&(*ek).into()) {
        Ok(key) => {
            let (ct, ss) = key.encapsulate_deterministic(&(*m).into());
            Ok((ct.into(), ss.into()))
        },
        Err(e) => Err(e),
    }
}

/// `DecapsulationKey::<MlKem768>::from_seed`, then `Decapsulate::decapsulate` of the
/// ciphertext; infallible (implicit rejection). The result is named
/// `mlkem768_decaps(seed, ct)`.
#[verifier::external_body]
pub(crate) fn mlkem768_decapsulate(seed: &[u8; 64], ct: &[u8; 1088]) -> (ss: [u8; 32])
    ensures
        ss@ == mlkem768_decaps(seed@, ct@),
{
    DecapsulationKey::<MlKem768>::from_seed((*seed).into()).decapsulate(&(*ct).into()).into()
}

/// `Hkdf::<Sha3_256>::new(salt, ikm)` followed by `expand(info, okm)` into `len` bytes.
/// `expand` fails exactly when `len` exceeds 255 blocks of 32 bytes; otherwise the output
/// is named `hkdf_sha3_256(ikm, salt, info, len)` and has `len` bytes. `expand` writes the
/// blocks T(1), T(2), ... in order and cuts the last, so every shorter output is a prefix
/// of this one; and `new` takes a missing salt as 32 zero bytes (`Output::default()`).
#[verifier::external_body]
fn hkdf_sha3_256_expand(ikm: &[u8], salt: Option<&[u8]>, info: &[u8], len: usize) -> (r: Result<Vec<u8>, hkdf::InvalidLength>)
    ensures
        r is Ok <==> len <= HKDF_SHA3_256_MAX_LEN,
        r matches Ok(okm) ==> okm@ == hkdf_sha3_256(ikm@, salt_view(salt), info@, len as nat)
            && okm@.len() == len,
        r matches Ok(okm) ==> forall|l: nat| l <= len ==> #[trigger] hkdf_sha3_256(ikm@, salt_view(salt), info@, l)
            == okm@.subrange(0, l as int),
        r matches Ok(okm) ==> salt is None ==> okm@ == hkdf_sha3_256(ikm@, Some(zeros32()), info@, len as nat),
{
    let mut okm = vec![0u8; len];
    match Hkdf::<Sha3_256>::new(salt, ikm).expand(info, &mut okm) {
        Ok(()) => Ok(okm),
        Err(e) => Err(e),
    }
}

/// `Hmac::<Sha3_256>::new_from_slice(key)`, `update(msg)` and `finalize`. HMAC takes keys of
/// any length, so `new_from_slice` does not fail; the tag is named `hmac_sha3_256(key, msg)`.
#[verifier::external_body]
pub(crate) fn hmac_sha3_256_tag(key: &[u8], msg: &[u8]) -> (r: Result<[u8; 32], hkdf::hmac::digest::InvalidLength>)
    ensures
        r is Ok,
        r matches Ok(tag) ==> tag@ == hmac_sha3_256(key@, msg@),
{
    match <Hmac<Sha3_256> as Mac>::new_from_slice(key) {
        Ok(mut mac) => {
            mac.update(msg);
            Ok(mac.finalize().into_bytes().into())
        },
        Err(e) => Err(e),
    }
}

/// `Hmac::<Sha3_256>::new_from_slice(key)`, `update(msg)` and `verify_slice(tag)`, which
/// compares in constant time and succeeds exactly when `tag` is the tag of `msg` under `key`.
#[verifier::external_body]
pub(crate) fn hmac_sha3_256_verify(key: &[u8], msg: &[u8], tag: &[u8; 32]) -> (r: Result<bool, hkdf::hmac::digest::InvalidLength>)
    ensures
        r is Ok,
        r matches Ok(ok) ==> ok == (tag@ == hmac_sha3_256(key@, msg@)),
{
    match <Hmac<Sha3_256> as Mac>::new_from_slice(key) {
        Ok(mut mac) => {
            mac.update(msg);
            Ok(mac.verify_slice(tag).is_ok())
        },
        Err(e) => Err(e),
    }
}

/// `blake3::hash`: the 32-byte BLAKE3 digest, which is also the first 32 bytes of the
/// extendable output of a hasher fed the same bytes. Named `blake3_hash(input)`.
#[verifier::external_body]
fn blake3_hash_32(input: &[u8]) -> (h: [u8; 32])
    ensures
        h@ == blake3_hash(input@),
{
    *blake3::hash(input).as_bytes()
}

// ---------------------------------------------------------------------------------------
// Key derivation and key generation.
// ---------------------------------------------------------------------------------------

/// BLAKE3-KDF: the BLAKE3 hash of `key ‖ domain ‖ info`.
pub open spec fn blake3_kdf_spec(key: Seq<u8>, domain: u8, info: Seq<u8>) -> Seq<u8> {
    blake3_hash(key + seq![domain] + info)
}

/// HKDF-SHA3-256 of `ikm` under `salt` and `info`, expanded to `len` bytes.
///
/// Fails with `HkdfExpand` exactly when `len` is above 8160 (255 hash blocks).
pub fn hkdf_derive(ikm: &[u8], salt: Option<&[u8]>, info: &[u8], len: usize) -> (r: Result<Vec<u8>, CryptoError>)
    ensures
        r is Ok <==> len <= HKDF_SHA3_256_MAX_LEN,
        r matches Ok(okm) ==> okm@ == hkdf_sha3_256(ikm@, salt_view(salt), info@, len as nat)
            && okm@.len() == len,
        r matches Ok(okm) ==> forall|l: nat| l <= len ==> #[trigger] hkdf_sha3_256(ikm@, salt_view(salt), info@, l)
            == okm@.subrange(0, l as int),
        r matches Ok(okm) ==> salt is None ==> okm@ == hkdf_sha3_256(ikm@, Some(zeros32()), info@, len as nat),
        r matches Err(e) ==> e == CryptoError::HkdfExpand,
{
    match hkdf_sha3_256_expand(ikm, salt, info, len) {
        Ok(okm) => Ok(okm),
        Err(_) => Err(CryptoError::HkdfExpand),
    }
}

/// BLAKE3-KDF: hashes `key`, the domain byte and `info`, in that order, into 32 bytes.
pub fn blake3_kdf(key: &[u8; 32], domain: u8, info: &[u8]) -> (out: [u8; 32])
    ensures
        out@ == blake3_kdf_spec(key@, domain, info@),
{
    let mut input: Vec<u8> = Vec::new();
    push_all(&mut input, key.as_slice());
    input.push(domain);
    push_all(&mut input, info);
    assert(input@ =~= key@ + seq![domain] + info@);
    blake3_hash_32(input.as_slice())
}

/// The X25519 public key of a secret, with the Diffie-Hellman property towards every other
/// secret.
pub fn x25519_public_key(sk: &[u8; 32]) -> (pk: [u8; 32])
    ensures
        x25519_key_pair(sk@, pk@),
{
    x25519_public_of_secret(sk)
}

/// A fresh X25519 secret: 32 random bytes (clamping is applied when the secret is used).
pub fn random_x25519_secret() -> (sk: [u8; 32]) {
    random_bytes::<32>()
}

/// The ML-KEM-768 key pair made from `seed`: its encoded encapsulation key and the seed,
/// which is the decapsulation key.
pub fn mlkem768_keypair_from_seed(seed: [u8; 64]) -> (keys: ([u8; 1184], [u8; 64]))
    ensures
        keys.0@ == mlkem768_ek_from_seed(seed@),
        mlkem768_ek_well_formed(keys.0@),
        keys.1 == seed,
{
    (mlkem768_encapsulation_key(&seed), seed)
}

/// A fresh ML-KEM-768 key pair (FIPS 203 key generation from a random 64-byte seed):
/// `(encapsulation key, decapsulation-key seed)`.
pub fn mlkem768_keygen() -> (keys: ([u8; 1184], [u8; 64]))
    ensures
        keys.0@ == mlkem768_ek_from_seed(keys.1@),
        mlkem768_ek_well_formed(keys.0@),
{
    let seed = random_bytes::<64>();
    mlkem768_keypair_from_seed(seed)
}

} // verus!
