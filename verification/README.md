# star_mesh

A verified library for the Star-Mesh hybrid post-quantum session protocol:

- a PQ-X3DH handshake that combines four X25519 agreements with two ML-KEM-768
  encapsulations, binds them to a length-prefixed transcript, expands them with
  HKDF-SHA3-256 and confirms the key with HMAC-SHA3-256;
- a double-ratchet state with a BLAKE3 symmetric chain and an ML-KEM-768 post-quantum
  step that re-keys the root through an HKDF entropy pool.

`src/` is verified with Verus. The cryptographic primitives are called through trusted
wrappers in `src/primitives.rs`, whose contracts name what each primitive computes; every
derivation built on them, the transcript encoding and the ratchet transitions are proved.
The laws that relate initiator to responder and the two sides of a post-quantum ratchet
step are proved under the properties of the primitives they rest on: X25519's
Diffie-Hellman property (stated by the public-key wrapper) and ML-KEM correctness, that
decapsulation recovers the encapsulated key, which fails with negligible probability and
is therefore a premise of those laws.

Keys are held as plain byte arrays (X25519 secrets as their 32 bytes, ML-KEM decapsulation
keys as their 64-byte seeds). Unlike the x25519-dalek and ml-kem key types, such arrays are
not zeroized when they are dropped; the responder does remove its one-time ML-KEM key from
its secret bundle after use, and the ratchet removes its decapsulation key after use.

`app/` is the command-line walk-through and the latency benchmarks.
