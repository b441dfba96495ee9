use hkdf::hmac::{Hmac, Mac};
use sha3::Sha3_256;
use ml_kem::KeyExport;
use star_mesh::bytes::be32;
use star_mesh::{blake3_kdf, hex_str, hkdf_derive, mlkem768_keygen, CryptoError};

#[test]
fn hkdf_derive_limits_output_length() {
    let ikm = [1u8; 32];
    assert_eq!(hkdf_derive(&ikm, None, b"info", 8160).unwrap().len(), 8160);
    assert_eq!(hkdf_derive(&ikm, None, b"info", 8161), Err(CryptoError::HkdfExpand));
    assert_eq!(hkdf_derive(&ikm, None, b"info", 0).unwrap().len(), 0);
}

#[test]
fn hkdf_derive_matches_rfc5869_construction() {
    let ikm = [0x0bu8; 22];
    let salt = [0x01u8, 0x02, 0x03];
    let info = [0xf0u8, 0xf1];
    let okm = hkdf_derive(&ikm, Some(&salt), &info, 42).unwrap();
    // PRK = HMAC(salt, IKM); T(1) = HMAC(PRK, info ‖ 1); T(2) = HMAC(PRK, T(1) ‖ info ‖ 2).
    let mut m = <Hmac<Sha3_256> as Mac>::new_from_slice(&salt).unwrap();
    m.update(&ikm);
    let prk = m.finalize().into_bytes();
    let mut m = <Hmac<Sha3_256> as Mac>::new_from_slice(&prk).unwrap();
    m.update(&info);
    m.update(&[1]);
    let t1 = m.finalize().into_bytes();
    let mut m = <Hmac<Sha3_256> as Mac>::new_from_slice(&prk).unwrap();
    m.update(&t1);
    m.update(&info);
    m.update(&[2]);
    let t2 = m.finalize().into_bytes();
    let mut expected = t1.to_vec();
    expected.extend_from_slice(&t2[..10]);
    assert_eq!(okm, expected);
}

#[test]
fn blake3_kdf_hashes_key_domain_and_info() {
    let key = [5u8; 32];
    let mut input = key.to_vec();
    input.push(0x02);
    input.extend_from_slice(b"label");
    assert_eq!(blake3_kdf(&key, 0x02, b"label"), *blake3::hash(&input).as_bytes());
    assert_ne!(blake3_kdf(&key, 0x01, b"label"), blake3_kdf(&key, 0x02, b"label"));
}

#[test]
fn keygen_gives_matching_encapsulation_key() {
    let (ek, seed) = mlkem768_keygen();
    let dk = ml_kem::DecapsulationKey::<ml_kem::MlKem768>::from_seed(seed.into());
    assert_eq!(&ek[..], dk.encapsulation_key().to_bytes().as_slice());
    let (ek2, seed2) = mlkem768_keygen();
    assert_ne!(seed, seed2);
    assert_ne!(&ek[..], &ek2[..]);
}

#[test]
fn be32_is_big_endian() {
    assert_eq!(be32(0x0102_0304), [1, 2, 3, 4]);
    assert_eq!(be32(1952), 1952u32.to_be_bytes());
}

#[test]
fn hex_str_previews_four_bytes() {
    assert_eq!(hex_str(&[0xde, 0xad, 0xbe, 0xef, 0x00]), "deadbeef...");
    assert_eq!(hex_str(&[0x00, 0x0a, 0x42, 0xff]), "000a42ff...");
}

#[test]
fn error_messages() {
    assert_eq!(CryptoError::HkdfExpand.message(), "HKDF expand failed");
    assert_eq!(CryptoError::InvalidState.message(), "Invalid ratchet state");
    assert_eq!(CryptoError::NoChainKey.message(), "No chain key available");
    assert_eq!(CryptoError::AuthenticationFailed.message(), "Handshake confirmation failed");
    assert_eq!(CryptoError::InvalidPublicKey.message(), "Invalid ML-KEM encapsulation key");
}

#[test]
fn hkdf_missing_salt_is_zero_salt() {
    let ikm = [9u8; 40];
    assert_eq!(
        hkdf_derive(&ikm, None, b"ctx", 50).unwrap(),
        hkdf_derive(&ikm, Some(&[0u8; 32]), b"ctx", 50).unwrap()
    );
}

#[test]
fn hkdf_shorter_output_is_prefix() {
    let ikm = [9u8; 40];
    let long = hkdf_derive(&ikm, Some(b"salt"), b"ctx", 100).unwrap();
    let short = hkdf_derive(&ikm, Some(b"salt"), b"ctx", 33).unwrap();
    assert_eq!(&long[..33], &short[..]);
}
