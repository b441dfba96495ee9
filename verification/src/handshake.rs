//! The hybrid PQ-X3DH handshake: four X25519 agreements and two ML-KEM-768
//! encapsulations, bound to a length-prefixed transcript and expanded with HKDF-SHA3-256,
//! with a key-confirmation tag that the responder checks.
use vstd::prelude::*;
use crate::bytes::{lemma_len_prefixed_unique, len_prefixed, push_all, push_len_prefixed, take64};
use crate::error::CryptoError;
use crate::labels::{
    confirm_label, confirm_label_spec, protocol_label, protocol_label_spec, responder_label,
    responder_label_spec,
};
use crate::primitives::{
    hkdf_derive, hkdf_sha3_256, hmac_sha3_256, hmac_sha3_256_tag, hmac_sha3_256_verify,
    mlkem768_decaps, mlkem768_decapsulate, mlkem768_ek_from_seed, mlkem768_ek_well_formed,
    mlkem768_encaps, mlkem768_encapsulate, mlkem768_recovers, random_bytes,
    random_x25519_secret, x25519, x25519_base, x25519_diffie_hellman, x25519_key_pair,
    x25519_public_key, zeros32,
};

verus! {

broadcast use vstd::string::group_string_axioms;

/// The public half of Bob's pre-key bundle, as published.
pub struct BobPreKeyBundle {
    pub ik_dh_pk: [u8; 32],
    pub spk_pk: [u8; 32],
    pub otpk_pk: [u8; 32],
    pub pq_spk_pk: [u8; 1184],
    pub pq_otpk_pk: [u8; 1184],
}

/// The secret half of Bob's pre-key bundle; the ML-KEM keys are their 64-byte seeds. The
/// one-time ML-KEM key is erased (`None`) once the responder has decapsulated with it.
#[derive(Clone, Copy)]
pub struct BobSecretBundle {
    pub ik_dh_sk: [u8; 32],
    pub spk_sk: [u8; 32],
    pub otpk_sk: [u8; 32],
    pub pq_spk_sk: [u8; 64],
    pub pq_otpk_sk: Option<[u8; 64]>,
}

/// The first handshake message M0 that Alice sends to Bob.
pub struct HandshakeMessageM0 {
    pub alice_ik_dsa_pk: Vec<u8>,
    pub alice_ik_dh_pk: [u8; 32],
    pub alice_eph_pk: [u8; 32],
    pub ct_pq1: [u8; 1088],
    pub ct_pq2: [u8; 1088],
    pub prekey_id: String,
    pub confirmation_tag: [u8; 32],
}

/// The contents of M0 as byte and character sequences.
pub struct HandshakeMessageView {
    pub alice_ik_dsa_pk: Seq<u8>,
    pub alice_ik_dh_pk: Seq<u8>,
    pub alice_eph_pk: Seq<u8>,
    pub ct_pq1: Seq<u8>,
    pub ct_pq2: Seq<u8>,
    pub prekey_id: Seq<char>,
    pub confirmation_tag: Seq<u8>,
}

impl View for HandshakeMessageM0 {
    type V = HandshakeMessageView;

    open spec fn view(&self) -> HandshakeMessageView {
        HandshakeMessageView {
            alice_ik_dsa_pk: self.alice_ik_dsa_pk@,
            alice_ik_dh_pk: self.alice_ik_dh_pk@,
            alice_eph_pk: self.alice_eph_pk@,
            ct_pq1: self.ct_pq1@,
            ct_pq2: self.ct_pq2@,
            prekey_id: self.prekey_id@,
            confirmation_tag: self.confirmation_tag@,
        }
    }
}

// ---------------------------------------------------------------------------------------
// Specification of the derivations.
// ---------------------------------------------------------------------------------------

/// The associated data: the protocol label and both identity keys, each length-prefixed.
pub open spec fn associated_data(alice_ik_dsa_pk: Seq<u8>, bob_ik_dsa_pk: Seq<u8>) -> Seq<u8> {
    protocol_label_spec() + len_prefixed(alice_ik_dsa_pk) + len_prefixed(bob_ik_dsa_pk)
}

/// The transcript binder `info`: the associated data, then the ephemeral key and both
/// ciphertexts, each length-prefixed.
pub open spec fn transcript_info(
    alice_ik_dsa_pk: Seq<u8>,
    bob_ik_dsa_pk: Seq<u8>,
    eph_pk: Seq<u8>,
    ct1: Seq<u8>,
    ct2: Seq<u8>,
) -> Seq<u8> {
    associated_data(alice_ik_dsa_pk, bob_ik_dsa_pk) + len_prefixed(eph_pk) + len_prefixed(ct1)
        + len_prefixed(ct2)
}

/// The hybrid input keying material `0xFF ‖ DH1 ‖ DH2 ‖ DH3 ‖ DH4 ‖ SS_PQ1 ‖ SS_PQ2`.
pub open spec fn hybrid_secret(
    dh1: Seq<u8>,
    dh2: Seq<u8>,
    dh3: Seq<u8>,
    dh4: Seq<u8>,
    ss1: Seq<u8>,
    ss2: Seq<u8>,
) -> Seq<u8> {
    seq![0xffu8] + dh1 + dh2 + dh3 + dh4 + ss1 + ss2
}

/// The 64-byte output keying material `HKDF(SS_hybrid, 0^32, info, 64)`.
pub open spec fn session_okm(ss_hybrid: Seq<u8>, info: Seq<u8>) -> Seq<u8> {
    hkdf_sha3_256(ss_hybrid, Some(zeros32()), info, 64)
}

/// The confirmation key `HKDF(OKM, 0^32, "StarMesh-Confirm" ‖ info, 32)`.
pub open spec fn confirmation_key(okm: Seq<u8>, info: Seq<u8>) -> Seq<u8> {
    hkdf_sha3_256(okm, Some(zeros32()), confirm_label_spec() + info, 32)
}

/// The confirmation tag `HMAC(K_conf, info)` that Alice sends in M0.
pub open spec fn confirmation_tag(okm: Seq<u8>, info: Seq<u8>) -> Seq<u8> {
    hmac_sha3_256(confirmation_key(okm, info), info)
}

/// The confirmation tag `HMAC(K_conf, "Bob" ‖ info)` that Bob returns.
pub open spec fn responder_confirmation_tag(okm: Seq<u8>, info: Seq<u8>) -> Seq<u8> {
    hmac_sha3_256(confirmation_key(okm, info), responder_label_spec() + info)
}

/// The identifier of the one-time pre-key that M0 names.
pub open spec fn prekey_id_spec() -> Seq<char> {
    "otpk_1"@
}

/// What the initiator computes from its inputs, its ephemeral secret `eph_sk` and the
/// encapsulation messages `m1`, `m2`: the OKM and the message M0.
pub open spec fn initiator_output(
    alice_ik_dsa_pk: Seq<u8>,
    alice_ik_dh_sk: Seq<u8>,
    alice_ik_dh_pk: Seq<u8>,
    bob_ik_dsa_pk: Seq<u8>,
    bundle: BobPreKeyBundle,
    eph_sk: Seq<u8>,
    m1: Seq<u8>,
    m2: Seq<u8>,
) -> (Seq<u8>, HandshakeMessageView) {
    let eph_pk = x25519_base(eph_sk);
    let (ct1, ss1) = mlkem768_encaps(bundle.pq_spk_pk@, m1);
    let (ct2, ss2) = mlkem768_encaps(bundle.pq_otpk_pk@, m2);
    let ss = hybrid_secret(
        x25519(alice_ik_dh_sk, bundle.spk_pk@),
        x25519(eph_sk, bundle.ik_dh_pk@),
        x25519(eph_sk, bundle.spk_pk@),
        x25519(eph_sk, bundle.otpk_pk@),
        ss1,
        ss2,
    );
    let info = transcript_info(alice_ik_dsa_pk, bob_ik_dsa_pk, eph_pk, ct1, ct2);
    let okm = session_okm(ss, info);
    (
        okm,
        HandshakeMessageView {
            alice_ik_dsa_pk,
            alice_ik_dh_pk,
            alice_eph_pk: eph_pk,
            ct_pq1: ct1,
            ct_pq2: ct2,
            prekey_id: prekey_id_spec(),
            confirmation_tag: confirmation_tag(okm, info),
        },
    )
}

/// Whether both ML-KEM keys of the bundle pass the FIPS 203 encapsulation-key check.
pub open spec fn bundle_keys_well_formed(bundle: BobPreKeyBundle) -> bool {
    mlkem768_ek_well_formed(bundle.pq_spk_pk@) && mlkem768_ek_well_formed(bundle.pq_otpk_pk@)
}

/// The transcript `info` as either party rebuilds it from M0 and Bob's identity key.
pub open spec fn message_info(bob_ik_dsa_pk: Seq<u8>, m0: HandshakeMessageView) -> Seq<u8> {
    transcript_info(m0.alice_ik_dsa_pk, bob_ik_dsa_pk, m0.alice_eph_pk, m0.ct_pq1, m0.ct_pq2)
}

/// The hybrid secret as Bob recomputes it from his secrets, the seed `otpk_seed` of his
/// one-time ML-KEM key, and M0.
pub open spec fn responder_hybrid_secret(bob: BobSecretBundle, otpk_seed: Seq<u8>, m0: HandshakeMessageView) -> Seq<u8> {
    hybrid_secret(
        x25519(bob.spk_sk@, m0.alice_ik_dh_pk),
        x25519(bob.ik_dh_sk@, m0.alice_eph_pk),
        x25519(bob.spk_sk@, m0.alice_eph_pk),
        x25519(bob.otpk_sk@, m0.alice_eph_pk),
        mlkem768_decaps(bob.pq_spk_sk@, m0.ct_pq1),
        mlkem768_decaps(otpk_seed, m0.ct_pq2),
    )
}

/// What the responder returns: `InvalidState` when the one-time ML-KEM key is already
/// erased; otherwise the OKM and Bob's confirmation tag when M0's tag is the one Bob
/// recomputes, and `AuthenticationFailed` when it is not.
pub open spec fn responder_output(
    bob_ik_dsa_pk: Seq<u8>,
    bob: BobSecretBundle,
    m0: HandshakeMessageView,
) -> Result<(Seq<u8>, Seq<u8>), CryptoError> {
    match bob.pq_otpk_sk {
        None => Err(CryptoError::InvalidState),
        Some(otpk_seed) => {
            let info = message_info(bob_ik_dsa_pk, m0);
            let okm = session_okm(responder_hybrid_secret(bob, otpk_seed@, m0), info);
            if m0.confirmation_tag == confirmation_tag(okm, info) {
                Ok((okm, responder_confirmation_tag(okm, info)))
            } else {
                Err(CryptoError::AuthenticationFailed)
            }
        },
    }
}

/// Bob's secrets with the one-time ML-KEM key erased.
pub open spec fn without_one_time_key(bob: BobSecretBundle) -> BobSecretBundle {
    BobSecretBundle { pq_otpk_sk: None, ..bob }
}

/// The bytes of a responder result.
pub open spec fn responder_result_view(r: Result<([u8; 64], [u8; 32]), CryptoError>) -> Result<(Seq<u8>, Seq<u8>), CryptoError> {
    match r {
        Ok(p) => Ok((p.0@, p.1@)),
        Err(e) => Err(e),
    }
}

// ---------------------------------------------------------------------------------------
// Executable derivations.
// ---------------------------------------------------------------------------------------

fn zero_salt() -> (z: [u8; 32])
    ensures
        z@ == zeros32(),
{
    let z = [0u8; 32];
    assert(z@ =~= zeros32());
    z
}

fn build_transcript_info(
    alice_ik_dsa_pk: &[u8],
    bob_ik_dsa_pk: &[u8],
    eph_pk: &[u8; 32],
    ct1: &[u8; 1088],
    ct2: &[u8; 1088],
) -> (info: Vec<u8>)
    ensures
        info@ == transcript_info(alice_ik_dsa_pk@, bob_ik_dsa_pk@, eph_pk@, ct1@, ct2@),
{
    let label = protocol_label();
    let mut info: Vec<u8> = Vec::new();
    push_all(&mut info, label.as_slice());
    push_len_prefixed(&mut info, alice_ik_dsa_pk);
    push_len_prefixed(&mut info, bob_ik_dsa_pk);
    push_len_prefixed(&mut info, eph_pk.as_slice());
    push_len_prefixed(&mut info, ct1.as_slice());
    push_len_prefixed(&mut info, ct2.as_slice());
    assert(info@ =~= transcript_info(alice_ik_dsa_pk@, bob_ik_dsa_pk@, eph_pk@, ct1@, ct2@));
    info
}

fn build_hybrid_secret(
    dh1: &[u8; 32],
    dh2: &[u8; 32],
    dh3: &[u8; 32],
    dh4: &[u8; 32],
    ss1: &[u8; 32],
    ss2: &[u8; 32],
) -> (ss: Vec<u8>)
    ensures
        ss@ == hybrid_secret(dh1@, dh2@, dh3@, dh4@, ss1@, ss2@),
{
    let mut ss: Vec<u8> = Vec::new();
    ss.push(0xffu8);
    push_all(&mut ss, dh1.as_slice());
    push_all(&mut ss, dh2.as_slice());
    push_all(&mut ss, dh3.as_slice());
    push_all(&mut ss, dh4.as_slice());
    push_all(&mut ss, ss1.as_slice());
    push_all(&mut ss, ss2.as_slice());
    assert(ss@ =~= hybrid_secret(dh1@, dh2@, dh3@, dh4@, ss1@, ss2@));
    ss
}

/// `HKDF(okm, 0^32, "StarMesh-Confirm" ‖ info, 32)`.
fn derive_confirmation_key(okm: &[u8; 64], info: &[u8]) -> (r: Result<Vec<u8>, CryptoError>)
    ensures
        r matches Ok(k) && k@ == confirmation_key(okm@, info@),
{
    let zeros = zero_salt();
    let label = confirm_label();
    let mut confirm_info: Vec<u8> = Vec::new();
    push_all(&mut confirm_info, label.as_slice());
    push_all(&mut confirm_info, info);
    hkdf_derive(okm.as_slice(), Some(zeros.as_slice()), confirm_info.as_slice(), 32)
}

/// The message Bob's confirmation tag authenticates: `"Bob" ‖ info`.
fn responder_message(info: &[u8]) -> (m: Vec<u8>)
    ensures
        m@ == responder_label_spec() + info@,
{
    let label = responder_label();
    let mut m: Vec<u8> = Vec::new();
    push_all(&mut m, label.as_slice());
    push_all(&mut m, info);
    m
}

/// `HKDF(ss_hybrid, 0^32, info, 64)` and `HKDF(okm, 0^32, "StarMesh-Confirm" ‖ info, 32)`.
fn derive_okm_and_confirmation_key(ss_hybrid: &[u8], info: &[u8]) -> (r: Result<([u8; 64], Vec<u8>), CryptoError>)
    ensures
        r matches Ok(p) && p.0@ == session_okm(ss_hybrid@, info@)
            && p.1@ == confirmation_key(p.0@, info@),
{
    let zeros = zero_salt();
    let okm_bytes = match hkdf_derive(ss_hybrid, Some(zeros.as_slice()), info, 64) {
        Ok(v) => v,
        Err(e) => return Err(e),
    };
    let okm = take64(okm_bytes.as_slice());
    assert(okm@ =~= okm_bytes@);
    let confirmation_key = match derive_confirmation_key(&okm, info) {
        Ok(v) => v,
        Err(e) => return Err(e),
    };
    Ok((okm, confirmation_key))
}

/// Hybrid PQ-X3DH, initiator side, with its random choices given: the ephemeral X25519
/// secret `alice_eph_sk` and the ML-KEM encapsulation messages `m1` (to Bob's signed
/// pre-key) and `m2` (to his one-time pre-key).
///
/// Fails with `InvalidPublicKey` exactly when one of the bundle's ML-KEM keys fails the
/// FIPS 203 key check; otherwise returns the OKM and M0 that `initiator_output` describes.
pub fn pq_x3dh_initiator_with(
    alice_ik_dsa_pk: &[u8],
    alice_ik_dh_sk: &[u8; 32],
    alice_ik_dh_pk: &[u8; 32],
    bob_ik_dsa_pk: &[u8],
    bob_bundle: &BobPreKeyBundle,
    alice_eph_sk: &[u8; 32],
    m1: &[u8; 32],
    m2: &[u8; 32],
) -> (r: Result<([u8; 64], HandshakeMessageM0), CryptoError>)
    ensures
        r is Ok <==> bundle_keys_well_formed(*bob_bundle),
        r matches Err(e) ==> e == CryptoError::InvalidPublicKey,
        r matches Ok(p) ==> (p.0@, p.1@) == initiator_output(
            alice_ik_dsa_pk@,
            alice_ik_dh_sk@,
            alice_ik_dh_pk@,
            bob_ik_dsa_pk@,
            *bob_bundle,
            alice_eph_sk@,
            m1@,
            m2@,
        ),
        r matches Ok(p) ==> x25519_key_pair(alice_eph_sk@, p.1.alice_eph_pk@),
{
    // Classical component: four X25519 agreements.
    let alice_eph_pk = x25519_public_key(alice_eph_sk);
    let dh1 = x25519_diffie_hellman(alice_ik_dh_sk, &bob_bundle.spk_pk);
    let dh2 = x25519_diffie_hellman(alice_eph_sk, &bob_bundle.ik_dh_pk);
    let dh3 = x25519_diffie_hellman(alice_eph_sk, &bob_bundle.spk_pk);
    let dh4 = x25519_diffie_hellman(alice_eph_sk, &bob_bundle.otpk_pk);

    // Post-quantum component: encapsulations to both ML-KEM pre-keys.
    let (ct_pq1, ss_pq1) = match mlkem768_encapsulate(&bob_bundle.pq_spk_pk, m1) {
        Ok(p) => p,
        Err(_) => return Err(CryptoError::InvalidPublicKey),
    };
    let (ct_pq2, ss_pq2) = match mlkem768_encapsulate(&bob_bundle.pq_otpk_pk, m2) {
        Ok(p) => p,
        Err(_) => return Err(CryptoError::InvalidPublicKey),
    };

    // Binding and derivation.
    let ss_hybrid = build_hybrid_secret(&dh1, &dh2, &dh3, &dh4, &ss_pq1, &ss_pq2);
    let info = build_transcript_info(alice_ik_dsa_pk, bob_ik_dsa_pk, &alice_eph_pk, &ct_pq1, &ct_pq2);
    let (okm, confirmation_key) = match derive_okm_and_confirmation_key(ss_hybrid.as_slice(), info.as_slice()) {
        Ok(p) => p,
        Err(e) => return Err(e),
    };
    let confirmation_tag = match hmac_sha3_256_tag(confirmation_key.as_slice(), info.as_slice()) {
        Ok(t) => t,
        Err(_) => return Err(CryptoError::HkdfExpand),
    };

    let mut alice_ik_dsa_pk_copy: Vec<u8> = Vec::new();
    push_all(&mut alice_ik_dsa_pk_copy, alice_ik_dsa_pk);
    assert(alice_ik_dsa_pk_copy@ =~= alice_ik_dsa_pk@);
    let m0 = HandshakeMessageM0 {
        alice_ik_dsa_pk: alice_ik_dsa_pk_copy,
        alice_ik_dh_pk: *alice_ik_dh_pk,
        alice_eph_pk,
        ct_pq1,
        ct_pq2,
        prekey_id: "otpk_1".to_string(),
        confirmation_tag,
    };
    Ok((okm, m0))
}

/// Hybrid PQ-X3DH, initiator side: draws a fresh ephemeral X25519 secret and the two
/// ML-KEM encapsulation messages, then runs `pq_x3dh_initiator_with`.
pub fn pq_x3dh_initiator(
    alice_ik_dsa_pk: &[u8],
    alice_ik_dh_sk: &[u8; 32],
    alice_ik_dh_pk: &[u8; 32],
    bob_ik_dsa_pk: &[u8],
    bob_bundle: &BobPreKeyBundle,
) -> (r: Result<([u8; 64], HandshakeMessageM0), CryptoError>)
    ensures
        r is Ok <==> bundle_keys_well_formed(*bob_bundle),
        r matches Err(e) ==> e == CryptoError::InvalidPublicKey,
        r matches Ok(p) ==> exists|eph_sk: Seq<u8>, m1: Seq<u8>, m2: Seq<u8>|
            #![trigger initiator_output(alice_ik_dsa_pk@, alice_ik_dh_sk@, alice_ik_dh_pk@, bob_ik_dsa_pk@, *bob_bundle, eph_sk, m1, m2)]
            eph_sk.len() == 32 && m1.len() == 32 && m2.len() == 32
            && (p.0@, p.1@) == initiator_output(
                alice_ik_dsa_pk@,
                alice_ik_dh_sk@,
                alice_ik_dh_pk@,
                bob_ik_dsa_pk@,
                *bob_bundle,
                eph_sk,
                m1,
                m2,
            ),
{
    let alice_eph_sk = random_x25519_secret();
    let m1 = random_bytes::<32>();
    let m2 = random_bytes::<32>();
    let r = pq_x3dh_initiator_with(
        alice_ik_dsa_pk,
        alice_ik_dh_sk,
        alice_ik_dh_pk,
        bob_ik_dsa_pk,
        bob_bundle,
        &alice_eph_sk,
        &m1,
        &m2,
    );
    assert(r matches Ok(p) ==> (p.0@, p.1@) == initiator_output(
        alice_ik_dsa_pk@,
        alice_ik_dh_sk@,
        alice_ik_dh_pk@,
        bob_ik_dsa_pk@,
        *bob_bundle,
        alice_eph_sk@,
        m1@,
        m2@,
    ));
    r
}

/// Hybrid PQ-X3DH, responder side: Bob recomputes the four agreements from his secrets,
/// decapsulates both ciphertexts and erases his one-time ML-KEM key, rebuilds the
/// transcript from M0 and checks M0's confirmation tag. When the tag verifies he returns
/// the OKM and his own confirmation tag `HMAC(K_conf, "Bob" ‖ info)`; otherwise
/// `AuthenticationFailed`. Without a one-time ML-KEM key (a replayed or second M0) he
/// returns `InvalidState`.
pub fn pq_x3dh_responder(
    bob_ik_dsa_pk: &[u8],
    bob_secrets: &mut BobSecretBundle,
    m0: &HandshakeMessageM0,
) -> (r: Result<([u8; 64], [u8; 32]), CryptoError>)
    ensures
        responder_result_view(r) == responder_output(bob_ik_dsa_pk@, *old(bob_secrets), m0@),
        *final(bob_secrets) == without_one_time_key(*old(bob_secrets)),
        old(bob_secrets).pq_otpk_sk is None ==> r == Err::<([u8; 64], [u8; 32]), CryptoError>(
            CryptoError::InvalidState,
        ),
        old(bob_secrets).pq_otpk_sk is Some ==> ({
            let info = transcript_info(
                m0@.alice_ik_dsa_pk,
                bob_ik_dsa_pk@,
                m0@.alice_eph_pk,
                m0@.ct_pq1,
                m0@.ct_pq2,
            );
            let okm = hkdf_sha3_256(
                responder_hybrid_secret(*old(bob_secrets), old(bob_secrets).pq_otpk_sk->Some_0@, m0@),
                Some(zeros32()),
                info,
                64,
            );
            let k_conf = hkdf_sha3_256(okm, Some(zeros32()), confirm_label_spec() + info, 32);
            &&& (r is Ok <==> m0.confirmation_tag@ == hmac_sha3_256(k_conf, info))
            &&& (r is Err ==> r == Err::<([u8; 64], [u8; 32]), CryptoError>(CryptoError::AuthenticationFailed))
            &&& (r matches Ok(p) ==> p.0@ == okm && p.1@ == hmac_sha3_256(k_conf, responder_label_spec() + info))
        }),
{
    let otpk_seed = match bob_secrets.pq_otpk_sk {
        Some(seed) => seed,
        None => return Err(CryptoError::InvalidState),
    };
    let dh1 = x25519_diffie_hellman(&bob_secrets.spk_sk, &m0.alice_ik_dh_pk);
    let dh2 = x25519_diffie_hellman(&bob_secrets.ik_dh_sk, &m0.alice_eph_pk);
    let dh3 = x25519_diffie_hellman(&bob_secrets.spk_sk, &m0.alice_eph_pk);
    let dh4 = x25519_diffie_hellman(&bob_secrets.otpk_sk, &m0.alice_eph_pk);

    let ss_pq1 = mlkem768_decapsulate(&bob_secrets.pq_spk_sk, &m0.ct_pq1);
    let ss_pq2 = mlkem768_decapsulate(&otpk_seed, &m0.ct_pq2);
    bob_secrets.pq_otpk_sk = None;

    let ss_hybrid = build_hybrid_secret(&dh1, &dh2, &dh3, &dh4, &ss_pq1, &ss_pq2);
    let info = build_transcript_info(
        m0.alice_ik_dsa_pk.as_slice(),
        bob_ik_dsa_pk,
        &m0.alice_eph_pk,
        &m0.ct_pq1,
        &m0.ct_pq2,
    );
    let (okm, confirmation_key) = match derive_okm_and_confirmation_key(ss_hybrid.as_slice(), info.as_slice()) {
        Ok(p) => p,
        Err(e) => return Err(e),
    };
    let verified = match hmac_sha3_256_verify(confirmation_key.as_slice(), info.as_slice(), &m0.confirmation_tag) {
        Ok(b) => b,
        Err(_) => return Err(CryptoError::HkdfExpand),
    };
    if !verified {
        return Err(CryptoError::AuthenticationFailed);
    }
    let reply_info = responder_message(info.as_slice());
    let tag_b = match hmac_sha3_256_tag(confirmation_key.as_slice(), reply_info.as_slice()) {
        Ok(t) => t,
        Err(_) => return Err(CryptoError::HkdfExpand),
    };
    Ok((okm, tag_b))
}

/// Alice's check of Bob's confirmation tag: `Ok` exactly when `tag_b` is
/// `HMAC(K_conf, "Bob" ‖ info)` for the OKM she holds and the transcript of her M0, and
/// `AuthenticationFailed` otherwise.
pub fn pq_x3dh_verify_responder_tag(
    okm: &[u8; 64],
    bob_ik_dsa_pk: &[u8],
    m0: &HandshakeMessageM0,
    tag_b: &[u8; 32],
) -> (r: Result<(), CryptoError>)
    ensures
        r == if tag_b@ == responder_confirmation_tag(okm@, message_info(bob_ik_dsa_pk@, m0@)) {
            Ok::<(), CryptoError>(())
        } else {
            Err(CryptoError::AuthenticationFailed)
        },
{
    let info = build_transcript_info(
        m0.alice_ik_dsa_pk.as_slice(),
        bob_ik_dsa_pk,
        &m0.alice_eph_pk,
        &m0.ct_pq1,
        &m0.ct_pq2,
    );
    let confirmation_key = match derive_confirmation_key(okm, info.as_slice()) {
        Ok(k) => k,
        Err(e) => return Err(e),
    };
    let reply_info = responder_message(info.as_slice());
    let verified = match hmac_sha3_256_verify(confirmation_key.as_slice(), reply_info.as_slice(), tag_b) {
        Ok(b) => b,
        Err(_) => return Err(CryptoError::HkdfExpand),
    };
    if verified {
        Ok(())
    } else {
        Err(CryptoError::AuthenticationFailed)
    }
}

// ---------------------------------------------------------------------------------------
// Laws.
// ---------------------------------------------------------------------------------------

/// Handshake agreement: when Alice's identity key and ephemeral key are X25519 key pairs
/// (as `x25519_public_key` makes them), Bob's bundle holds the public keys of his secrets,
/// and Bob's decapsulations recover the keys Alice encapsulated (ML-KEM correctness, which
/// fails with negligible probability), the responder, still holding his one-time ML-KEM
/// key, accepts the initiator's M0, returns the initiator's OKM, and his confirmation tag
/// is the one Alice expects.
pub proof fn lemma_handshake_agreement(
    alice_ik_dsa_pk: Seq<u8>,
    alice_ik_dh_sk: Seq<u8>,
    alice_ik_dh_pk: Seq<u8>,
    bob_ik_dsa_pk: Seq<u8>,
    bundle: BobPreKeyBundle,
    bob: BobSecretBundle,
    eph_sk: Seq<u8>,
    m1: Seq<u8>,
    m2: Seq<u8>,
)
    requires
        x25519_key_pair(alice_ik_dh_sk, alice_ik_dh_pk),
        x25519_key_pair(eph_sk, x25519_base(eph_sk)),
        bundle.ik_dh_pk@ == x25519_base(bob.ik_dh_sk@),
        bundle.spk_pk@ == x25519_base(bob.spk_sk@),
        bundle.otpk_pk@ == x25519_base(bob.otpk_sk@),
        bob.pq_otpk_sk is Some,
        mlkem768_recovers(bundle.pq_spk_pk@, bob.pq_spk_sk@, m1),
        mlkem768_recovers(bundle.pq_otpk_pk@, bob.pq_otpk_sk->Some_0@, m2),
    ensures
        ({
            let (okm, m0) = initiator_output(
                alice_ik_dsa_pk,
                alice_ik_dh_sk,
                alice_ik_dh_pk,
                bob_ik_dsa_pk,
                bundle,
                eph_sk,
                m1,
                m2,
            );
            responder_output(bob_ik_dsa_pk, bob, m0) == Ok::<(Seq<u8>, Seq<u8>), CryptoError>(
                (okm, responder_confirmation_tag(okm, message_info(bob_ik_dsa_pk, m0))),
            )
        }),
{
    let (okm, m0) = initiator_output(
        alice_ik_dsa_pk,
        alice_ik_dh_sk,
        alice_ik_dh_pk,
        bob_ik_dsa_pk,
        bundle,
        eph_sk,
        m1,
        m2,
    );
    let eph_pk = x25519_base(eph_sk);
    assert(x25519(bob.spk_sk@, alice_ik_dh_pk) == x25519(alice_ik_dh_sk, x25519_base(bob.spk_sk@)));
    assert(x25519(bob.ik_dh_sk@, eph_pk) == x25519(eph_sk, x25519_base(bob.ik_dh_sk@)));
    assert(x25519(bob.spk_sk@, eph_pk) == x25519(eph_sk, x25519_base(bob.spk_sk@)));
    assert(x25519(bob.otpk_sk@, eph_pk) == x25519(eph_sk, x25519_base(bob.otpk_sk@)));
    let (ct1, ss1) = mlkem768_encaps(bundle.pq_spk_pk@, m1);
    let (ct2, ss2) = mlkem768_encaps(bundle.pq_otpk_pk@, m2);
    let ss = hybrid_secret(
        x25519(alice_ik_dh_sk, bundle.spk_pk@),
        x25519(eph_sk, bundle.ik_dh_pk@),
        x25519(eph_sk, bundle.spk_pk@),
        x25519(eph_sk, bundle.otpk_pk@),
        ss1,
        ss2,
    );
    assert(responder_hybrid_secret(bob, bob.pq_otpk_sk->Some_0@, m0) == ss);
}

/// Tag check: the responder accepts M0 exactly when Bob still holds his one-time ML-KEM key
/// and M0's confirmation tag equals, in all its bytes, `HMAC(K_conf, info)` with
/// `K_conf = HKDF(OKM, 0^32, "StarMesh-Confirm" ‖ info, 32)` for the OKM and transcript Bob
/// recomputes; any other tag is refused with `AuthenticationFailed`.
pub proof fn lemma_responder_accepts_exactly_the_confirmation_tag(
    bob_ik_dsa_pk: Seq<u8>,
    bob: BobSecretBundle,
    m0: HandshakeMessageView,
)
    requires
        bob.pq_otpk_sk is Some,
    ensures
        ({
            let info = transcript_info(m0.alice_ik_dsa_pk, bob_ik_dsa_pk, m0.alice_eph_pk, m0.ct_pq1, m0.ct_pq2);
            let okm = hkdf_sha3_256(
                responder_hybrid_secret(bob, bob.pq_otpk_sk->Some_0@, m0),
                Some(zeros32()),
                info,
                64,
            );
            let expected = hmac_sha3_256(hkdf_sha3_256(okm, Some(zeros32()), confirm_label_spec() + info, 32), info);
            &&& (responder_output(bob_ik_dsa_pk, bob, m0) is Ok <==> m0.confirmation_tag == expected)
            &&& (m0.confirmation_tag != expected ==> responder_output(bob_ik_dsa_pk, bob, m0)
                == Err::<(Seq<u8>, Seq<u8>), CryptoError>(CryptoError::AuthenticationFailed))
        }),
{
}

/// Replay protection: after the responder has run, whatever its outcome, Bob's one-time
/// ML-KEM key is erased, so any further M0, a replay of the same one included, is refused
/// with `InvalidState`.
pub proof fn lemma_responder_single_use(bob_ik_dsa_pk: Seq<u8>, bob: BobSecretBundle, m0: HandshakeMessageView)
    ensures
        without_one_time_key(bob).pq_otpk_sk is None,
        responder_output(bob_ik_dsa_pk, without_one_time_key(bob), m0)
            == Err::<(Seq<u8>, Seq<u8>), CryptoError>(CryptoError::InvalidState),
{
}

/// Transcript binding: the transcript `info` determines every part it binds (both
/// identity keys, the ephemeral key and both ciphertexts), for parts shorter than 2^32
/// bytes; so changing any of them changes the HKDF input.
pub proof fn lemma_transcript_binding(
    a1: Seq<u8>,
    b1: Seq<u8>,
    e1: Seq<u8>,
    c1: Seq<u8>,
    d1: Seq<u8>,
    a2: Seq<u8>,
    b2: Seq<u8>,
    e2: Seq<u8>,
    c2: Seq<u8>,
    d2: Seq<u8>,
)
    requires
        a1.len() < 0x1_0000_0000,
        b1.len() < 0x1_0000_0000,
        e1.len() < 0x1_0000_0000,
        c1.len() < 0x1_0000_0000,
        d1.len() < 0x1_0000_0000,
        a2.len() < 0x1_0000_0000,
        b2.len() < 0x1_0000_0000,
        e2.len() < 0x1_0000_0000,
        c2.len() < 0x1_0000_0000,
        d2.len() < 0x1_0000_0000,
        transcript_info(a1, b1, e1, c1, d1) == transcript_info(a2, b2, e2, c2, d2),
    ensures
        a1 == a2,
        b1 == b2,
        e1 == e2,
        c1 == c2,
        d1 == d2,
{
    let l = protocol_label_spec();
    let (pa1, pb1, pe1, pc1, pd1) = (len_prefixed(a1), len_prefixed(b1), len_prefixed(e1), len_prefixed(c1), len_prefixed(d1));
    let (pa2, pb2, pe2, pc2, pd2) = (len_prefixed(a2), len_prefixed(b2), len_prefixed(e2), len_prefixed(c2), len_prefixed(d2));
    lemma_concat_reassociate(l, pa1, pb1, pe1, pc1, pd1);
    lemma_concat_reassociate(l, pa2, pb2, pe2, pc2, pd2);
    let t1 = pb1 + (pe1 + (pc1 + pd1));
    let t2 = pb2 + (pe2 + (pc2 + pd2));
    lemma_strip_common_prefix(l, pa1 + t1, pa2 + t2);
    lemma_len_prefixed_unique(a1, t1, a2, t2);
    lemma_len_prefixed_unique(b1, pe1 + (pc1 + pd1), b2, pe2 + (pc2 + pd2));
    lemma_len_prefixed_unique(e1, pc1 + pd1, e2, pc2 + pd2);
    lemma_len_prefixed_unique(c1, pd1, c2, pd2);
    lemma_append_empty(pd1);
    lemma_append_empty(pd2);
    lemma_len_prefixed_unique(d1, Seq::<u8>::empty(), d2, Seq::<u8>::empty());
}

proof fn lemma_concat_reassociate(l: Seq<u8>, p: Seq<u8>, q: Seq<u8>, r: Seq<u8>, s: Seq<u8>, t: Seq<u8>)
    ensures
        l + p + q + r + s + t == l + (p + (q + (r + (s + t)))),
{
    assert(l + p + q + r + s + t =~= l + (p + (q + (r + (s + t)))));
}

proof fn lemma_strip_common_prefix(l: Seq<u8>, x: Seq<u8>, y: Seq<u8>)
    requires
        l + x == l + y,
    ensures
        x == y,
{
    assert(x =~= (l + x).subrange(l.len() as int, (l + x).len() as int));
    assert(y =~= (l + y).subrange(l.len() as int, (l + y).len() as int));
}

proof fn lemma_append_empty(x: Seq<u8>)
    ensures
        x + Seq::<u8>::empty() == x,
{
    assert(x + Seq::<u8>::empty() =~= x);
}

} // verus!
