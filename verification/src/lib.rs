//! Star-Mesh: a hybrid post-quantum key agreement (PQ-X3DH) and a post-quantum double
//! ratchet, with the byte-level derivations of both proved against their specifications.
//!
//! - `primitives`: X25519, ML-KEM-768, HKDF-SHA3-256, HMAC-SHA3-256 and BLAKE3 behind
//!   trusted wrappers, with the key-derivation helpers built on them.
//! - `handshake`: the PQ-X3DH initiator and responder and their agreement laws.
//! - `ratchet`: the ratchet state machine and its laws.
//! - `bytes`, `labels`, `hex`: byte strings, derivation labels, hexadecimal previews.
pub mod bytes;
pub mod error;
pub mod handshake;
pub mod hex;
pub mod labels;
pub mod primitives;
pub mod ratchet;

pub use error::CryptoError;
pub use handshake::{
    pq_x3dh_initiator, pq_x3dh_initiator_with, pq_x3dh_responder, pq_x3dh_verify_responder_tag,
    BobPreKeyBundle, BobSecretBundle, HandshakeMessageM0,
};
pub use hex::hex_str;
pub use primitives::{
    blake3_kdf, hkdf_derive, mlkem768_keygen, mlkem768_keypair_from_seed, random_x25519_secret,
    x25519_public_key,
};
pub use ratchet::RatchetState;
