//! The ASCII labels that separate the protocol's key derivations.
use vstd::prelude::*;

verus! {

/// The protocol label that opens the handshake transcript. ASCII "StarMesh".
pub open spec fn protocol_label_spec() -> Seq<u8> {
    seq![0x53, 0x74, 0x61, 0x72, 0x4d, 0x65, 0x73, 0x68]
}

/// The bytes of `protocol_label_spec`.
pub fn protocol_label() -> (r: [u8; 8])
    ensures
        r@ == protocol_label_spec(),
{
    let r: [u8; 8] = [0x53, 0x74, 0x61, 0x72, 0x4d, 0x65, 0x73, 0x68];
    assert(r@ =~= protocol_label_spec());
    r
}

/// Label of the key-confirmation key derivation. ASCII "StarMesh-Confirm".
pub open spec fn confirm_label_spec() -> Seq<u8> {
    seq![0x53, 0x74, 0x61, 0x72, 0x4d, 0x65, 0x73, 0x68, 0x2d, 0x43, 0x6f, 0x6e, 0x66, 0x69, 0x72, 0x6d]
}

/// The bytes of `confirm_label_spec`.
pub fn confirm_label() -> (r: [u8; 16])
    ensures
        r@ == confirm_label_spec(),
{
    let r: [u8; 16] = [0x53, 0x74, 0x61, 0x72, 0x4d, 0x65, 0x73, 0x68, 0x2d, 0x43, 0x6f, 0x6e, 0x66, 0x69, 0x72, 0x6d];
    assert(r@ =~= confirm_label_spec());
    r
}

/// Label of message-key derivation in the symmetric ratchet. ASCII "StarMesh-MK".
pub open spec fn message_key_label_spec() -> Seq<u8> {
    seq![0x53, 0x74, 0x61, 0x72, 0x4d, 0x65, 0x73, 0x68, 0x2d, 0x4d, 0x4b]
}

/// The bytes of `message_key_label_spec`.
pub fn message_key_label() -> (r: [u8; 11])
    ensures
        r@ == message_key_label_spec(),
{
    let r: [u8; 11] = [0x53, 0x74, 0x61, 0x72, 0x4d, 0x65, 0x73, 0x68, 0x2d, 0x4d, 0x4b];
    assert(r@ =~= message_key_label_spec());
    r
}

/// Label of chain-key derivation in the symmetric ratchet. ASCII "StarMesh-CK".
pub open spec fn chain_key_label_spec() -> Seq<u8> {
    seq![0x53, 0x74, 0x61, 0x72, 0x4d, 0x65, 0x73, 0x68, 0x2d, 0x43, 0x4b]
}

/// The bytes of `chain_key_label_spec`.
pub fn chain_key_label() -> (r: [u8; 11])
    ensures
        r@ == chain_key_label_spec(),
{
    let r: [u8; 11] = [0x53, 0x74, 0x61, 0x72, 0x4d, 0x65, 0x73, 0x68, 0x2d, 0x43, 0x4b];
    assert(r@ =~= chain_key_label_spec());
    r
}

/// Label of the entropy-pool update in the post-quantum ratchet. ASCII "StarMesh-EntropyPool".
pub open spec fn entropy_pool_label_spec() -> Seq<u8> {
    seq![0x53, 0x74, 0x61, 0x72, 0x4d, 0x65, 0x73, 0x68, 0x2d, 0x45, 0x6e, 0x74, 0x72, 0x6f, 0x70, 0x79, 0x50, 0x6f, 0x6f, 0x6c]
}

/// The bytes of `entropy_pool_label_spec`.
pub fn entropy_pool_label() -> (r: [u8; 20])
    ensures
        r@ == entropy_pool_label_spec(),
{
    let r: [u8; 20] = [0x53, 0x74, 0x61, 0x72, 0x4d, 0x65, 0x73, 0x68, 0x2d, 0x45, 0x6e, 0x74, 0x72, 0x6f, 0x70, 0x79, 0x50, 0x6f, 0x6f, 0x6c];
    assert(r@ =~= entropy_pool_label_spec());
    r
}

/// Label of the root- and chain-key derivation in the post-quantum ratchet. ASCII "StarMesh-PQ-RK".
pub open spec fn pq_root_label_spec() -> Seq<u8> {
    seq![0x53, 0x74, 0x61, 0x72, 0x4d, 0x65, 0x73, 0x68, 0x2d, 0x50, 0x51, 0x2d, 0x52, 0x4b]
}

/// The bytes of `pq_root_label_spec`.
pub fn pq_root_label() -> (r: [u8; 14])
    ensures
        r@ == pq_root_label_spec(),
{
    let r: [u8; 14] = [0x53, 0x74, 0x61, 0x72, 0x4d, 0x65, 0x73, 0x68, 0x2d, 0x50, 0x51, 0x2d, 0x52, 0x4b];
    assert(r@ =~= pq_root_label_spec());
    r
}

/// Label of Bob's confirmation tag. ASCII "Bob".
pub open spec fn responder_label_spec() -> Seq<u8> {
    seq![0x42, 0x6f, 0x62]
}

/// The bytes of `responder_label_spec`.
pub fn responder_label() -> (r: [u8; 3])
    ensures
        r@ == responder_label_spec(),
{
    let r: [u8; 3] = [0x42, 0x6f, 0x62];
    assert(r@ =~= responder_label_spec());
    r
}

} // verus!
