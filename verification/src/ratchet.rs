//! The double-ratchet state: a BLAKE3 symmetric chain ratchet for message keys and an
//! ML-KEM-768 post-quantum ratchet that re-keys the root through an HKDF entropy pool.
use vstd::prelude::*;
use std::collections::HashMap;
use crate::bytes::{push_all, take32};
use crate::error::CryptoError;
use crate::labels::{
    chain_key_label, chain_key_label_spec, entropy_pool_label, entropy_pool_label_spec,
    message_key_label, message_key_label_spec, pq_root_label, pq_root_label_spec,
};
use crate::primitives::{
    blake3_kdf, blake3_kdf_spec, hkdf_derive, hkdf_sha3_256, mlkem768_decaps,
    mlkem768_decapsulate, mlkem768_ek_from_seed, mlkem768_ek_well_formed, mlkem768_encaps,
    mlkem768_encapsulate, mlkem768_keypair_from_seed, mlkem768_recovers, random_bytes,
};

verus! {

/// The ratchet state of one party of a session.
pub struct RatchetState {
    pub root_key: [u8; 32],
    pub entropy_pool: [u8; 32],
    pub send_chain_key: Option<[u8; 32]>,
    pub recv_chain_key: Option<[u8; 32]>,
    /// The seed of the local ML-KEM-768 decapsulation key, while a PQ step is open.
    pub pq_sk_local: Option<[u8; 64]>,
    /// The encoded local ML-KEM-768 encapsulation key of the last PQ step.
    pub pq_pk_local: Option<[u8; 1184]>,
    pub pq_step_counter: u32,
    pub skipped_keys: HashMap<([u8; 32], u32), [u8; 32]>,
}

/// The ratchet state with its keys as byte sequences.
pub struct RatchetModel {
    pub root_key: Seq<u8>,
    pub entropy_pool: Seq<u8>,
    pub send_chain_key: Option<Seq<u8>>,
    pub recv_chain_key: Option<Seq<u8>>,
    pub pq_sk_local: Option<Seq<u8>>,
    pub pq_pk_local: Option<Seq<u8>>,
    pub pq_step_counter: u32,
    pub skipped_keys: Map<([u8; 32], u32), [u8; 32]>,
}

/// The bytes of an optional fixed-size key.
pub open spec fn opt_bytes<const N: usize>(k: Option<[u8; N]>) -> Option<Seq<u8>> {
    match k {
        Some(a) => Some(a@),
        None => None,
    }
}

impl View for RatchetState {
    type V = RatchetModel;

    open spec fn view(&self) -> RatchetModel {
        RatchetModel {
            root_key: self.root_key@,
            entropy_pool: self.entropy_pool@,
            send_chain_key: opt_bytes(self.send_chain_key),
            recv_chain_key: opt_bytes(self.recv_chain_key),
            pq_sk_local: opt_bytes(self.pq_sk_local),
            pq_pk_local: opt_bytes(self.pq_pk_local),
            pq_step_counter: self.pq_step_counter,
            skipped_keys: self.skipped_keys@,
        }
    }
}

// ---------------------------------------------------------------------------------------
// Specification of the transitions.
// ---------------------------------------------------------------------------------------

/// The state right after the handshake: `RK = OKM[0..32]`, the chain key `OKM[32..64]` is
/// the initiator's sending chain and the responder's receiving chain, and the entropy
/// pool starts at the root key.
pub open spec fn initial_model(okm: Seq<u8>, is_initiator: bool) -> RatchetModel {
    let rk = okm.subrange(0, 32);
    let ck = okm.subrange(32, 64);
    RatchetModel {
        root_key: rk,
        entropy_pool: rk,
        send_chain_key: if is_initiator { Some(ck) } else { None },
        recv_chain_key: if is_initiator { None } else { Some(ck) },
        pq_sk_local: None,
        pq_pk_local: None,
        pq_step_counter: 0,
        skipped_keys: Map::empty(),
    }
}

/// The message key of a chain key: `BLAKE3-KDF(CK, 0x01, "StarMesh-MK")`.
pub open spec fn message_key(ck: Seq<u8>) -> Seq<u8> {
    blake3_kdf_spec(ck, 0x01, message_key_label_spec())
}

/// The next chain key: `BLAKE3-KDF(CK, 0x02, "StarMesh-CK")`.
pub open spec fn next_chain_key(ck: Seq<u8>) -> Seq<u8> {
    blake3_kdf_spec(ck, 0x02, chain_key_label_spec())
}

/// The step counter after one more send: one more, wrapping to 0 after `u32::MAX`.
pub open spec fn counter_after_send(c: u32) -> u32 {
    if c == u32::MAX {
        0
    } else {
        (c + 1) as u32
    }
}

/// A sending step: the message key of the sending chain, which advances by one key, and
/// the step counter, which grows by one (wrapping); `NoChainKey` and no change without a
/// sending chain.
pub open spec fn encrypt_step(s: RatchetModel) -> (RatchetModel, Result<Seq<u8>, CryptoError>) {
    match s.send_chain_key {
        Some(ck) => (
            RatchetModel {
                send_chain_key: Some(next_chain_key(ck)),
                pq_step_counter: counter_after_send(s.pq_step_counter),
                ..s
            },
            Ok(message_key(ck)),
        ),
        None => (s, Err(CryptoError::NoChainKey)),
    }
}

/// A receiving step: the message key of the receiving chain, which advances by one key;
/// `NoChainKey` and no change without a receiving chain.
pub open spec fn decrypt_step(s: RatchetModel) -> (RatchetModel, Result<Seq<u8>, CryptoError>) {
    match s.recv_chain_key {
        Some(ck) => (
            RatchetModel { recv_chain_key: Some(next_chain_key(ck)), ..s },
            Ok(message_key(ck)),
        ),
        None => (s, Err(CryptoError::NoChainKey)),
    }
}

/// The next entropy pool: `HKDF(SS_PQ, salt = EP, "StarMesh-EntropyPool" ‖ ct, 32)`.
pub open spec fn next_entropy_pool(pool: Seq<u8>, ss_pq: Seq<u8>, ct: Seq<u8>) -> Seq<u8> {
    hkdf_sha3_256(ss_pq, Some(pool), entropy_pool_label_spec() + ct, 32)
}

/// The root and chain key material: `HKDF(SS_PQ, salt = EP', "StarMesh-PQ-RK", 64)`.
pub open spec fn pq_root_material(next_pool: Seq<u8>, ss_pq: Seq<u8>) -> Seq<u8> {
    hkdf_sha3_256(ss_pq, Some(next_pool), pq_root_label_spec(), 64)
}

/// Mixing a post-quantum shared secret into the state: the entropy pool moves on, the root
/// key becomes the first half of the new key material and the sending chain its second half.
pub open spec fn mix_pq(s: RatchetModel, ss_pq: Seq<u8>, ct: Seq<u8>) -> RatchetModel {
    let pool = next_entropy_pool(s.entropy_pool, ss_pq, ct);
    let out = pq_root_material(pool, ss_pq);
    RatchetModel {
        entropy_pool: pool,
        root_key: out.subrange(0, 32),
        send_chain_key: Some(out.subrange(32, 64)),
        ..s
    }
}

/// Opening a post-quantum step with the key pair of `seed`: the seed is kept as the local
/// decapsulation key, its encapsulation key is recorded, and the step counter restarts.
pub open spec fn pq_init_step(s: RatchetModel, seed: Seq<u8>) -> RatchetModel {
    RatchetModel {
        pq_sk_local: Some(seed),
        pq_pk_local: Some(mlkem768_ek_from_seed(seed)),
        pq_step_counter: 0,
        ..s
    }
}

/// Answering a post-quantum step: encapsulation to the remote key with message `m`, whose
/// shared secret is mixed in and whose ciphertext is returned; `InvalidPublicKey` and no
/// change when the remote key fails the FIPS 203 key check.
pub open spec fn pq_encapsulate_step(s: RatchetModel, remote_pq_pk: Seq<u8>, m: Seq<u8>) -> (RatchetModel, Result<Seq<u8>, CryptoError>) {
    if mlkem768_ek_well_formed(remote_pq_pk) {
        let (ct, ss) = mlkem768_encaps(remote_pq_pk, m);
        (mix_pq(s, ss, ct), Ok(ct))
    } else {
        (s, Err(CryptoError::InvalidPublicKey))
    }
}

/// Closing a post-quantum step: the local decapsulation key is consumed (removed from the
/// state) and the decapsulated secret is mixed in; `InvalidState` and no change when no
/// decapsulation key is held.
pub open spec fn pq_decapsulate_step(s: RatchetModel, ct: Seq<u8>) -> (RatchetModel, Result<(), CryptoError>) {
    match s.pq_sk_local {
        Some(seed) => (mix_pq(RatchetModel { pq_sk_local: None, ..s }, mlkem768_decaps(seed, ct), ct), Ok(())),
        None => (s, Err(CryptoError::InvalidState)),
    }
}

/// The bytes of a message-key result.
pub open spec fn key32_result_view(r: Result<[u8; 32], CryptoError>) -> Result<Seq<u8>, CryptoError> {
    match r {
        Ok(k) => Ok(k@),
        Err(e) => Err(e),
    }
}

/// The bytes of a ciphertext result.
pub open spec fn ct_result_view(r: Result<[u8; 1088], CryptoError>) -> Result<Seq<u8>, CryptoError> {
    match r {
        Ok(c) => Ok(c@),
        Err(e) => Err(e),
    }
}

// ---------------------------------------------------------------------------------------
// The state machine.
// ---------------------------------------------------------------------------------------

impl RatchetState {
    /// The state of the initiator (`is_initiator`) or the responder after a handshake
    /// that produced `okm`.
    pub fn new(okm: &[u8; 64], is_initiator: bool) -> (s: Self)
        ensures
            s@ == initial_model(okm@, is_initiator),
    {
        let root_key = take32(okm.as_slice(), 0);
        let ck = take32(okm.as_slice(), 32);
        let send_chain_key;
        let recv_chain_key;
        if is_initiator {
            send_chain_key = Some(ck);
            recv_chain_key = None;
        } else {
            recv_chain_key = Some(ck);
            send_chain_key = None;
        }
        let s = RatchetState {
            root_key,
            entropy_pool: root_key,
            send_chain_key,
            recv_chain_key,
            pq_sk_local: None,
            pq_pk_local: None,
            pq_step_counter: 0,
            skipped_keys: HashMap::new(),
        };
        assert(s@.skipped_keys =~= Map::<([u8; 32], u32), [u8; 32]>::empty());
        s
    }

    /// Symmetric ratchet, sending step: returns the next message key and advances the
    /// sending chain.
    pub fn ratchet_encrypt(&mut self) -> (r: Result<[u8; 32], CryptoError>)
        ensures
            (final(self)@, key32_result_view(r)) == encrypt_step(old(self)@),
    {
        match self.send_chain_key {
            None => Err(CryptoError::NoChainKey),
            Some(ck) => {
                let mk = blake3_kdf(&ck, 0x01, message_key_label().as_slice());
                let next_ck = blake3_kdf(&ck, 0x02, chain_key_label().as_slice());
                self.send_chain_key = Some(next_ck);
                self.pq_step_counter = if self.pq_step_counter == u32::MAX {
                    0
                } else {
                    self.pq_step_counter + 1
                };
                Ok(mk)
            },
        }
    }

    /// Symmetric ratchet, receiving step: returns the next message key and advances the
    /// receiving chain.
    pub fn ratchet_decrypt(&mut self) -> (r: Result<[u8; 32], CryptoError>)
        ensures
            (final(self)@, key32_result_view(r)) == decrypt_step(old(self)@),
    {
        match self.recv_chain_key {
            None => Err(CryptoError::NoChainKey),
            Some(ck) => {
                let mk = blake3_kdf(&ck, 0x01, message_key_label().as_slice());
                let next_ck = blake3_kdf(&ck, 0x02, chain_key_label().as_slice());
                self.recv_chain_key = Some(next_ck);
                Ok(mk)
            },
        }
    }

    /// Post-quantum ratchet, opening step, with the key pair made from `seed`: returns the
    /// encapsulation key to send.
    pub fn pq_ratchet_init_from_seed(&mut self, seed: [u8; 64]) -> (ek: [u8; 1184])
        ensures
            final(self)@ == pq_init_step(old(self)@, seed@),
            ek@ == mlkem768_ek_from_seed(seed@),
            mlkem768_ek_well_formed(ek@),
    {
        let (ek, dk) = mlkem768_keypair_from_seed(seed);
        self.pq_sk_local = Some(dk);
        self.pq_pk_local = Some(ek);
        self.pq_step_counter = 0;
        ek
    }

    /// Post-quantum ratchet, opening step (Alice): generates a fresh ML-KEM-768 key pair,
    /// keeps its decapsulation key and returns its encapsulation key.
    pub fn pq_ratchet_init(&mut self) -> (ek: [u8; 1184])
        ensures
            final(self).pq_sk_local is Some,
            final(self)@ == pq_init_step(old(self)@, final(self).pq_sk_local->Some_0@),
            ek@ == mlkem768_ek_from_seed(final(self).pq_sk_local->Some_0@),
            mlkem768_ek_well_formed(ek@),
    {
        let seed = random_bytes::<64>();
        self.pq_ratchet_init_from_seed(seed)
    }

    /// Post-quantum ratchet, answering step, with encapsulation message `m`.
    pub fn pq_ratchet_encapsulate_with(&mut self, remote_pq_pk: &[u8; 1184], m: &[u8; 32]) -> (r: Result<[u8; 1088], CryptoError>)
        ensures
            (final(self)@, ct_result_view(r)) == pq_encapsulate_step(old(self)@, remote_pq_pk@, m@),
    {
        let (ct, ss_pq) = match mlkem768_encapsulate(remote_pq_pk, m) {
            Ok(p) => p,
            Err(_) => return Err(CryptoError::InvalidPublicKey),
        };
        match self.mix_pq_secret(ss_pq.as_slice(), ct.as_slice()) {
            Ok(()) => Ok(ct),
            Err(e) => Err(e),
        }
    }

    /// Post-quantum ratchet, answering step (Bob): encapsulates a fresh shared secret to
    /// the remote encapsulation key, mixes it into the state and returns the ciphertext.
    pub fn pq_ratchet_encapsulate(&mut self, remote_pq_pk: &[u8; 1184]) -> (r: Result<[u8; 1088], CryptoError>)
        ensures
            exists|m: Seq<u8>|
                #![trigger pq_encapsulate_step(old(self)@, remote_pq_pk@, m)]
                m.len() == 32 && (final(self)@, ct_result_view(r)) == pq_encapsulate_step(old(self)@, remote_pq_pk@, m),
    {
        let m = random_bytes::<32>();
        let r = self.pq_ratchet_encapsulate_with(remote_pq_pk, &m);
        assert((self@, ct_result_view(r)) == pq_encapsulate_step(old(self)@, remote_pq_pk@, m@));
        r
    }

    /// Post-quantum ratchet, closing step (Alice): consumes the local decapsulation key,
    /// decapsulates `ct` and mixes the shared secret into the state.
    pub fn pq_ratchet_decapsulate(&mut self, ct: &[u8; 1088]) -> (r: Result<(), CryptoError>)
        ensures
            (final(self)@, r) == pq_decapsulate_step(old(self)@, ct@),
    {
        let sk = match self.pq_sk_local {
            Some(sk) => sk,
            None => return Err(CryptoError::InvalidState),
        };
        self.pq_sk_local = None;
        assert(self@ == RatchetModel { pq_sk_local: None, ..old(self)@ });
        let ss_pq = mlkem768_decapsulate(&sk, ct);
        self.mix_pq_secret(ss_pq.as_slice(), ct.as_slice())
    }

    fn mix_pq_secret(&mut self, ss_pq: &[u8], ciphertext: &[u8]) -> (r: Result<(), CryptoError>)
        ensures
            r == Ok::<(), CryptoError>(()),
            final(self)@ == mix_pq(old(self)@, ss_pq@, ciphertext@),
    {
        let label = entropy_pool_label();
        let mut pool_info: Vec<u8> = Vec::new();
        push_all(&mut pool_info, label.as_slice());
        push_all(&mut pool_info, ciphertext);
        let next_pool = match hkdf_derive(ss_pq, Some(self.entropy_pool.as_slice()), pool_info.as_slice(), 32) {
            Ok(v) => v,
            Err(e) => return Err(e),
        };
        let pool = take32(next_pool.as_slice(), 0);
        assert(pool@ =~= next_pool@);
        self.entropy_pool = pool;

        let out = match hkdf_derive(ss_pq, Some(next_pool.as_slice()), pq_root_label().as_slice(), 64) {
            Ok(v) => v,
            Err(e) => return Err(e),
        };
        self.root_key = take32(out.as_slice(), 0);
        self.send_chain_key = Some(take32(out.as_slice(), 32));
        Ok(())
    }
}

// ---------------------------------------------------------------------------------------
// Laws.
// ---------------------------------------------------------------------------------------

/// The initiator's and the responder's states made from the same OKM share the root key
/// and the entropy pool, and the initiator's sending chain is the responder's receiving
/// chain.
pub proof fn lemma_initial_states_agree(okm: Seq<u8>)
    ensures
        initial_model(okm, true).root_key == initial_model(okm, false).root_key,
        initial_model(okm, true).entropy_pool == initial_model(okm, false).entropy_pool,
        initial_model(okm, true).send_chain_key == initial_model(okm, false).recv_chain_key,
        initial_model(okm, true).send_chain_key is Some,
{
}

/// Symmetric ratchet agreement: when the sender's sending chain is the receiver's
/// receiving chain, a sending step and a receiving step give the same message key, and
/// afterwards the two chains are again equal.
pub proof fn lemma_symmetric_ratchet_agreement(sender: RatchetModel, receiver: RatchetModel)
    requires
        sender.send_chain_key is Some,
        sender.send_chain_key == receiver.recv_chain_key,
    ensures
        encrypt_step(sender).1 is Ok,
        encrypt_step(sender).1 == decrypt_step(receiver).1,
        encrypt_step(sender).0.send_chain_key == decrypt_step(receiver).0.recv_chain_key,
{
}

/// `n` sending steps in a row, with the message-key results in order.
pub open spec fn encrypt_steps(s: RatchetModel, n: nat) -> (RatchetModel, Seq<Result<Seq<u8>, CryptoError>>)
    decreases n,
{
    if n == 0 {
        (s, Seq::empty())
    } else {
        let (s1, keys) = encrypt_steps(s, (n - 1) as nat);
        let (s2, k) = encrypt_step(s1);
        (s2, keys.push(k))
    }
}

/// `n` receiving steps in a row, with the message-key results in order.
pub open spec fn decrypt_steps(s: RatchetModel, n: nat) -> (RatchetModel, Seq<Result<Seq<u8>, CryptoError>>)
    decreases n,
{
    if n == 0 {
        (s, Seq::empty())
    } else {
        let (s1, keys) = decrypt_steps(s, (n - 1) as nat);
        let (s2, k) = decrypt_step(s1);
        (s2, keys.push(k))
    }
}

/// Chain agreement over any number of messages: when the sender's sending chain is the
/// receiver's receiving chain, `n` sending steps and `n` receiving steps give the same
/// message keys, all successful, and leave the two chains equal.
pub proof fn lemma_symmetric_ratchet_agreement_steps(sender: RatchetModel, receiver: RatchetModel, n: nat)
    requires
        sender.send_chain_key is Some,
        sender.send_chain_key == receiver.recv_chain_key,
    ensures
        encrypt_steps(sender, n).1 == decrypt_steps(receiver, n).1,
        encrypt_steps(sender, n).0.send_chain_key == decrypt_steps(receiver, n).0.recv_chain_key,
        encrypt_steps(sender, n).0.send_chain_key is Some,
        encrypt_steps(sender, n).1.len() == n,
        forall|i: int| 0 <= i < n ==> #[trigger] encrypt_steps(sender, n).1[i] is Ok,
    decreases n,
{
    if n > 0 {
        lemma_symmetric_ratchet_agreement_steps(sender, receiver, (n - 1) as nat);
        let (s1, keys) = encrypt_steps(sender, (n - 1) as nat);
        let (r1, _) = decrypt_steps(receiver, (n - 1) as nat);
        lemma_symmetric_ratchet_agreement(s1, r1);
        let all = encrypt_steps(sender, n).1;
        assert(all == keys.push(encrypt_step(s1).1));
        assert forall|i: int| 0 <= i < n implies #[trigger] all[i] is Ok by {
            if i < n - 1 {
                assert(all[i] == keys[i]);
            }
        }
    }
}

/// Domain separation of the symmetric ratchet: the message key and the next chain key of
/// a chain key are BLAKE3 hashes of different inputs (they differ in the domain byte).
pub proof fn lemma_chain_step_domain_separation(ck: Seq<u8>)
    ensures
        ck + seq![0x01u8] + message_key_label_spec() != ck + seq![0x02u8] + chain_key_label_spec(),
{
    let a = ck + seq![0x01u8] + message_key_label_spec();
    let b = ck + seq![0x02u8] + chain_key_label_spec();
    assert(a[ck.len() as int] == 0x01u8);
    assert(b[ck.len() as int] == 0x02u8);
}

/// Post-quantum ratchet convergence: Alice opens a step with the key pair of `seed`, Bob
/// answers it with message `m` from a state with the same entropy pool, and Alice closes
/// it with Bob's ciphertext. The opening key passes the encapsulation-key check (as every
/// key `pq_ratchet_init` returns does). When decapsulation recovers the key Bob
/// encapsulated (ML-KEM correctness, which fails with negligible probability), both end
/// with the same root key, entropy pool and sending chain, and Alice no longer holds the
/// decapsulation key.
pub proof fn lemma_pq_ratchet_convergence(alice: RatchetModel, bob: RatchetModel, seed: Seq<u8>, m: Seq<u8>)
    requires
        alice.entropy_pool == bob.entropy_pool,
        mlkem768_ek_well_formed(mlkem768_ek_from_seed(seed)),
        mlkem768_recovers(mlkem768_ek_from_seed(seed), seed, m),
    ensures
        ({
            let alice1 = pq_init_step(alice, seed);
            let (bob1, ct) = pq_encapsulate_step(bob, alice1.pq_pk_local->Some_0, m);
            let (alice2, done) = pq_decapsulate_step(alice1, ct->Ok_0);
            &&& ct is Ok
            &&& done is Ok
            &&& alice2.root_key == bob1.root_key
            &&& alice2.entropy_pool == bob1.entropy_pool
            &&& alice2.send_chain_key == bob1.send_chain_key
            &&& alice2.pq_sk_local is None
        }),
{
}

/// A decapsulation key serves one post-quantum step: after a closing step, whatever its
/// outcome, no decapsulation key is held, and a second closing step fails with
/// `InvalidState` and changes nothing.
pub proof fn lemma_decapsulation_single_use(s: RatchetModel, ct1: Seq<u8>, ct2: Seq<u8>)
    ensures
        pq_decapsulate_step(s, ct1).0.pq_sk_local is None,
        pq_decapsulate_step(pq_decapsulate_step(s, ct1).0, ct2)
            == (pq_decapsulate_step(s, ct1).0, Err::<(), CryptoError>(CryptoError::InvalidState)),
{
}

/// Entropy-pool recovery: what a post-quantum step leaves behind (entropy pool, root key,
/// sending chain) depends only on the entropy pool before it, the shared secret and the
/// ciphertext, not on the old root key or chains.
pub proof fn lemma_mix_depends_only_on_pool(s1: RatchetModel, s2: RatchetModel, ss_pq: Seq<u8>, ct: Seq<u8>)
    requires
        s1.entropy_pool == s2.entropy_pool,
    ensures
        mix_pq(s1, ss_pq, ct).entropy_pool == mix_pq(s2, ss_pq, ct).entropy_pool,
        mix_pq(s1, ss_pq, ct).root_key == mix_pq(s2, ss_pq, ct).root_key,
        mix_pq(s1, ss_pq, ct).send_chain_key == mix_pq(s2, ss_pq, ct).send_chain_key,
{
}

/// One call on a ratchet state, with its arguments as byte sequences.
pub enum RatchetCall {
    Send,
    Receive,
    PqInit { seed: Seq<u8> },
    PqEncapsulate { remote_pq_pk: Seq<u8>, m: Seq<u8> },
    PqDecapsulate { ct: Seq<u8> },
}

/// The state after one call.
pub open spec fn apply_call(s: RatchetModel, call: RatchetCall) -> RatchetModel {
    match call {
        RatchetCall::Send => encrypt_step(s).0,
        RatchetCall::Receive => decrypt_step(s).0,
        RatchetCall::PqInit { seed } => pq_init_step(s, seed),
        RatchetCall::PqEncapsulate { remote_pq_pk, m } => pq_encapsulate_step(s, remote_pq_pk, m).0,
        RatchetCall::PqDecapsulate { ct } => pq_decapsulate_step(s, ct).0,
    }
}

/// The state after a sequence of calls, made in order.
pub open spec fn apply_calls(s: RatchetModel, calls: Seq<RatchetCall>) -> RatchetModel
    decreases calls.len(),
{
    if calls.len() == 0 {
        s
    } else {
        apply_call(apply_calls(s, calls.drop_last()), calls.last())
    }
}

/// The number of successful sends (those made while a sending chain is held) since the
/// latest post-quantum opening step, or since the start if there was none.
pub open spec fn sends_since_reset(s: RatchetModel, calls: Seq<RatchetCall>) -> nat
    decreases calls.len(),
{
    if calls.len() == 0 {
        0
    } else {
        let before = apply_calls(s, calls.drop_last());
        match calls.last() {
            RatchetCall::PqInit { .. } => 0,
            RatchetCall::Send => if before.send_chain_key is Some {
                sends_since_reset(s, calls.drop_last()) + 1
            } else {
                sends_since_reset(s, calls.drop_last())
            },
            _ => sends_since_reset(s, calls.drop_last()),
        }
    }
}

/// Whether a post-quantum opening step is among the calls.
pub open spec fn has_pq_init(calls: Seq<RatchetCall>) -> bool {
    exists|i: int| 0 <= i < calls.len() && #[trigger] calls[i] is PqInit
}

/// Step counter law: after any sequence of calls, the step counter is the number of
/// successful sends since the latest post-quantum opening step (added to the starting
/// value when there was none), modulo 2^32. Receiving, answering and closing post-quantum
/// steps, and failed sends, leave it unchanged.
pub proof fn lemma_step_counter_counts_sends(s: RatchetModel, calls: Seq<RatchetCall>)
    ensures
        apply_calls(s, calls).pq_step_counter == ((if has_pq_init(calls) { 0 } else { s.pq_step_counter as nat })
            + sends_since_reset(s, calls)) % 0x1_0000_0000,
    decreases calls.len(),
{
    if calls.len() > 0 {
        let prefix = calls.drop_last();
        lemma_step_counter_counts_sends(s, prefix);
        let before = apply_calls(s, prefix);
        let last = calls.last();
        assert(has_pq_init(calls) <==> (has_pq_init(prefix) || last is PqInit)) by {
            if has_pq_init(prefix) {
                let i = choose|i: int| 0 <= i < prefix.len() && #[trigger] prefix[i] is PqInit;
                assert(calls[i] == prefix[i]);
            }
            if last is PqInit {
                assert(calls[calls.len() - 1] is PqInit);
            }
            if has_pq_init(calls) {
                let i = choose|i: int| 0 <= i < calls.len() && #[trigger] calls[i] is PqInit;
                if i < calls.len() - 1 {
                    assert(prefix[i] == calls[i]);
                }
            }
        }
        match last {
            RatchetCall::PqDecapsulate { ct } => {
                assert(mix_pq(RatchetModel { pq_sk_local: None, ..before }, mlkem768_decaps(before.pq_sk_local->Some_0, ct), ct).pq_step_counter
                    == before.pq_step_counter);
            },
            _ => {},
        }
    }
}

} // verus!
