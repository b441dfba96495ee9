use hkdf::Hkdf;
use sha3::Sha3_256;
use star_mesh::{blake3_kdf, hkdf_derive, CryptoError, RatchetState};

#[test]
fn test_symmetric_ratchet() {
    let okm = [0u8; 64];
    let mut alice_state = RatchetState::new(&okm, true);
    let mut bob_state = RatchetState::new(&okm, false);

    bob_state.recv_chain_key = alice_state.send_chain_key;

    let mk_alice = alice_state.ratchet_encrypt().expect("Ratchet failed");
    let mk_bob = bob_state.ratchet_decrypt().expect("Ratchet failed");

    assert_eq!(mk_alice, mk_bob);
    assert_eq!(alice_state.pq_step_counter, 1);
}

#[test]
fn test_pq_ratchet_convergence() {
    let mut alice_state = RatchetState::new(&[1u8; 64], true);
    let mut bob_state = RatchetState::new(&[1u8; 64], false);
    bob_state.recv_chain_key = alice_state.send_chain_key;

    let alice_pq_pk = alice_state.pq_ratchet_init();
    let ct_pq = bob_state.pq_ratchet_encapsulate(&alice_pq_pk).expect("Ratchet failed");
    alice_state.pq_ratchet_decapsulate(&ct_pq).expect("Ratchet failed");

    assert_eq!(alice_state.root_key, bob_state.root_key);
    assert!(alice_state.pq_sk_local.is_none());
}

#[test]
fn test_forward_secrecy_via_ratchet() {
    let okm = [0u8; 64];
    let mut alice_state = RatchetState::new(&okm, true);

    let mk1 = alice_state.ratchet_encrypt().expect("First ratchet failed");
    let ck1_after = alice_state.send_chain_key.clone();
    let mk2 = alice_state.ratchet_encrypt().expect("Second ratchet failed");

    assert_ne!(mk1, mk2, "FAILED: Forward secrecy — same MK produced twice");
    assert_ne!(ck1_after, alice_state.send_chain_key, "FAILED: CK not advanced");
}

#[test]
fn test_pcs_via_secret_erasure() {
    let mut alice_state = RatchetState::new(&[1u8; 64], true);
    let mut bob_state = RatchetState::new(&[1u8; 64], false);
    bob_state.recv_chain_key = alice_state.send_chain_key;

    assert!(alice_state.pq_sk_local.is_none(), "pq_sk_local should start as None");

    let alice_pq_pk = alice_state.pq_ratchet_init();
    assert!(alice_state.pq_sk_local.is_some(), "pq_sk_local should be set after init");

    let ct_pq = bob_state.pq_ratchet_encapsulate(&alice_pq_pk).expect("Encaps failed");
    alice_state.pq_ratchet_decapsulate(&ct_pq).expect("Decaps failed");

    assert!(alice_state.pq_sk_local.is_none(), "FAILED: pq_sk_local not erased after decapsulation");

    let result = alice_state.pq_ratchet_decapsulate(&ct_pq);
    assert!(result.is_err(), "FAILED: Decapsulation succeeded after key was dropped — PCS violated");
}

#[test]
fn test_kdf_determinism() {
    let seed = [0x42u8; 32];
    let salt = [0x24u8; 32];
    let info = b"test";

    let out1 = hkdf_derive(&seed, Some(&salt), info, 32).expect("First KDF failed");
    let out2 = hkdf_derive(&seed, Some(&salt), info, 32).expect("Second KDF failed");
    assert_eq!(out1, out2, "FAILED: HKDF not deterministic");

    let blake_out1 = blake3_kdf(&seed, 0x01, info);
    let blake_out2 = blake3_kdf(&seed, 0x01, info);
    assert_eq!(blake_out1, blake_out2, "FAILED: BLAKE3-KDF not deterministic");
}

#[test]
fn test_chain_key_advancement() {
    let mut state = RatchetState::new(&[1u8; 64], true);

    let ck_initial = state.send_chain_key.clone();
    let _mk1 = state.ratchet_encrypt().expect("First ratchet failed");
    let ck_after_first = state.send_chain_key.clone();

    assert_ne!(ck_initial, ck_after_first, "FAILED: CK not advanced after first ratchet");

    let _mk2 = state.ratchet_encrypt().expect("Second ratchet failed");
    let ck_after_second = state.send_chain_key.clone();

    assert_ne!(ck_after_first, ck_after_second, "FAILED: CK not advanced after second ratchet");
}

// ---------------------------------------------------------------------------------------
// Further cases.
// ---------------------------------------------------------------------------------------

fn okm_0_to_63() -> [u8; 64] {
    let mut okm = [0u8; 64];
    for (i, b) in okm.iter_mut().enumerate() {
        *b = i as u8;
    }
    okm
}

#[test]
fn new_splits_okm_into_root_and_chain_key() {
    let okm = okm_0_to_63();
    let alice = RatchetState::new(&okm, true);
    let bob = RatchetState::new(&okm, false);
    assert_eq!(&alice.root_key[..], &okm[0..32]);
    assert_eq!(alice.entropy_pool, alice.root_key);
    assert_eq!(&alice.send_chain_key.unwrap()[..], &okm[32..64]);
    assert_eq!(alice.recv_chain_key, None);
    assert_eq!(bob.send_chain_key, None);
    assert_eq!(alice.send_chain_key, bob.recv_chain_key);
    assert_eq!(bob.root_key, alice.root_key);
    assert!(alice.skipped_keys.is_empty());
    assert_eq!(alice.pq_step_counter, 0);
}

#[test]
fn message_key_is_blake3_of_chain_key_domain_and_label() {
    let okm = okm_0_to_63();
    let mut alice = RatchetState::new(&okm, true);
    let ck = alice.send_chain_key.unwrap();
    let mk = alice.ratchet_encrypt().unwrap();

    let mut hasher = blake3::Hasher::new();
    hasher.update(&ck);
    hasher.update(&[0x01]);
    hasher.update(b"StarMesh-MK");
    let mut expected = [0u8; 32];
    hasher.finalize_xof().fill(&mut expected);
    assert_eq!(mk, expected);
    assert_eq!(alice.send_chain_key, Some(blake3_kdf(&ck, 0x02, b"StarMesh-CK")));
    assert_ne!(mk, ck);
}

#[test]
fn receiving_does_not_count_pq_steps() {
    let okm = okm_0_to_63();
    let mut bob = RatchetState::new(&okm, false);
    bob.ratchet_decrypt().unwrap();
    bob.ratchet_decrypt().unwrap();
    assert_eq!(bob.pq_step_counter, 0);
}

#[test]
fn sender_and_receiver_stay_in_step() {
    let okm = okm_0_to_63();
    let mut alice = RatchetState::new(&okm, true);
    let mut bob = RatchetState::new(&okm, false);
    for _ in 0..5 {
        assert_eq!(alice.ratchet_encrypt().unwrap(), bob.ratchet_decrypt().unwrap());
    }
    assert_eq!(alice.send_chain_key, bob.recv_chain_key);
    assert_eq!(alice.pq_step_counter, 5);
}

#[test]
fn missing_chain_key_is_reported() {
    let okm = okm_0_to_63();
    let mut alice = RatchetState::new(&okm, true);
    let mut bob = RatchetState::new(&okm, false);
    assert_eq!(alice.ratchet_decrypt(), Err(CryptoError::NoChainKey));
    assert_eq!(bob.ratchet_encrypt(), Err(CryptoError::NoChainKey));
    assert_eq!(bob.pq_step_counter, 0);
}

#[test]
fn decapsulation_without_open_step_is_invalid_state() {
    let mut alice = RatchetState::new(&okm_0_to_63(), true);
    let root = alice.root_key;
    assert_eq!(alice.pq_ratchet_decapsulate(&[0u8; 1088]), Err(CryptoError::InvalidState));
    assert_eq!(alice.root_key, root);
}

#[test]
fn pq_init_resets_counter_and_keeps_key_pair() {
    let mut alice = RatchetState::new(&okm_0_to_63(), true);
    alice.ratchet_encrypt().unwrap();
    let ek = alice.pq_ratchet_init_from_seed([9u8; 64]);
    assert_eq!(alice.pq_step_counter, 0);
    assert_eq!(alice.pq_sk_local, Some([9u8; 64]));
    assert_eq!(alice.pq_pk_local.map(|k| k.to_vec()), Some(ek.to_vec()));
    assert_eq!(ek.to_vec(), star_mesh::mlkem768_keypair_from_seed([9u8; 64]).0.to_vec());
}

#[test]
fn pq_step_moves_root_pool_and_sending_chain() {

    let okm = okm_0_to_63();
    let mut alice = RatchetState::new(&okm, true);
    let mut bob = RatchetState::new(&okm, false);
    let ek = alice.pq_ratchet_init_from_seed([3u8; 64]);
    let ct = bob.pq_ratchet_encapsulate_with(&ek, &[4u8; 32]).unwrap();
    alice.pq_ratchet_decapsulate(&ct).unwrap();

    // Independent recomputation of Bob's update.
    let ek_key = ml_kem::EncapsulationKey::<ml_kem::MlKem768>::new(&ek.into()).unwrap();
    let (ct2, ss) = ek_key.encapsulate_deterministic(&[4u8; 32].into());
    assert_eq!(&ct[..], ct2.as_slice());
    let mut pool_info = b"StarMesh-EntropyPool".to_vec();
    pool_info.extend_from_slice(&ct);
    let mut pool = [0u8; 32];
    Hkdf::<Sha3_256>::new(Some(&okm[0..32]), ss.as_slice()).expand(&pool_info, &mut pool).unwrap();
    let mut out = [0u8; 64];
    Hkdf::<Sha3_256>::new(Some(&pool), ss.as_slice()).expand(b"StarMesh-PQ-RK", &mut out).unwrap();

    assert_eq!(bob.entropy_pool, pool);
    assert_eq!(&bob.root_key[..], &out[0..32]);
    assert_eq!(&bob.send_chain_key.unwrap()[..], &out[32..64]);
    assert_eq!(alice.root_key, bob.root_key);
    assert_eq!(alice.entropy_pool, bob.entropy_pool);
    assert_eq!(alice.send_chain_key, bob.send_chain_key);
    assert_eq!(alice.pq_sk_local, None);
}

#[test]
fn encapsulation_to_malformed_key_changes_nothing() {
    let mut bob = RatchetState::new(&okm_0_to_63(), false);
    let root = bob.root_key;
    assert_eq!(bob.pq_ratchet_encapsulate(&[0xffu8; 1184]), Err(CryptoError::InvalidPublicKey));
    assert_eq!(bob.root_key, root);
    assert_eq!(bob.send_chain_key, None);
}

#[test]
fn step_counter_wraps_instead_of_overflowing() {
    let mut alice = RatchetState::new(&okm_0_to_63(), true);
    alice.pq_step_counter = u32::MAX;
    assert!(alice.ratchet_encrypt().is_ok());
    assert_eq!(alice.pq_step_counter, 0);
}

#[test]
fn generated_pq_key_is_accepted_by_encapsulation() {
    let mut alice = RatchetState::new(&okm_0_to_63(), true);
    let mut bob = RatchetState::new(&okm_0_to_63(), false);
    let ek = alice.pq_ratchet_init_from_seed([7u8; 64]);
    assert!(bob.pq_ratchet_encapsulate(&ek).is_ok());
}
