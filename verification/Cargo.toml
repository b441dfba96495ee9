[package]
name = "star_mesh"
version = "0.1.0"
edition = "2021"
publish = false

[dependencies]
blake3 = "1"
hkdf = "0.12"
ml-kem = "0.3"
rand = "0.10"
rand_core = "0.10"
sha3 = "0.10"
x25519-dalek = { version = "2", features = ["static_secrets"] }
