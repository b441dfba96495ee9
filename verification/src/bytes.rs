//! Byte-string helpers: appending, length prefixes and fixed-size copies.
use vstd::prelude::*;

verus! {

/// Big-endian encoding of a 32-bit length, as `u32::to_be_bytes` writes it.
pub open spec fn be32_spec(n: nat) -> Seq<u8> {
    seq![
        ((n / 0x100_0000) % 256) as u8,
        ((n / 0x1_0000) % 256) as u8,
        ((n / 0x100) % 256) as u8,
        (n % 256) as u8,
    ]
}

/// A byte string preceded by its length, truncated to 32 bits and written big-endian.
pub open spec fn len_prefixed(x: Seq<u8>) -> Seq<u8> {
    be32_spec((x.len() as u32) as nat) + x
}

/// The big-endian bytes of `n`.
pub fn be32(n: u32) -> (r: [u8; 4])
    ensures
        r@ == be32_spec(n as nat),
{
    let r = [
        ((n / 0x100_0000) % 256) as u8,
        ((n / 0x1_0000) % 256) as u8,
        ((n / 0x100) % 256) as u8,
        (n % 256) as u8,
    ];
    assert(r@ =~= be32_spec(n as nat));
    r
}

/// Appends every byte of `s` to `v`.
pub fn push_all(v: &mut Vec<u8>, s: &[u8])
    ensures
        final(v)@ == old(v)@ + s@,
{
    let mut i: usize = 0;
    while i < s.len()
        invariant
            i <= s@.len(),
            v@ == old(v)@ + s@.subrange(0, i as int),
        decreases s@.len() - i,
    {
        v.push(s[i]);
        i = i + 1;
        assert(v@ =~= old(v)@ + s@.subrange(0, i as int));
    }
    assert(s@.subrange(0, i as int) =~= s@);
}

/// Appends the 32-bit big-endian length of `s`, then `s` itself.
pub fn push_len_prefixed(v: &mut Vec<u8>, s: &[u8])
    ensures
        final(v)@ == old(v)@ + len_prefixed(s@),
{
    let len = be32(s.len() as u32);
    push_all(v, len.as_slice());
    push_all(v, s);
    assert(v@ =~= old(v)@ + len_prefixed(s@));
}

/// The 32 bytes of `s` that start at `start`.
pub fn take32(s: &[u8], start: usize) -> (r: [u8; 32])
    requires
        start + 32 <= s@.len(),
    ensures
        r@ == s@.subrange(start as int, start + 32),
{
    let mut r = [0u8; 32];
    let mut i: usize = 0;
    while i < 32
        invariant
            i <= 32,
            start + 32 <= s.len(),
            forall|j: int| 0 <= j < i ==> r@[j] == s@[start + j],
        decreases 32 - i,
    {
        r[i] = s[start + i];
        i = i + 1;
    }
    assert(r@ =~= s@.subrange(start as int, start + 32));
    r
}

/// The first 64 bytes of `s`.
pub fn take64(s: &[u8]) -> (r: [u8; 64])
    requires
        64 <= s@.len(),
    ensures
        r@ == s@.subrange(0, 64),
{
    let mut r = [0u8; 64];
    let mut i: usize = 0;
    while i < 64
        invariant
            i <= 64,
            64 <= s@.len(),
            forall|j: int| 0 <= j < i ==> r@[j] == s@[j],
        decreases 64 - i,
    {
        r[i] = s[i];
        i = i + 1;
    }
    assert(r@ =~= s@.subrange(0, 64));
    r
}

/// Two lengths below 2^32 with the same big-endian encoding are equal.
pub proof fn lemma_be32_injective(n: u32, m: u32)
    requires
        be32_spec(n as nat) == be32_spec(m as nat),
    ensures
        n == m,
{
    let a = be32_spec(n as nat);
    let b = be32_spec(m as nat);
    assert(a[0] == b[0] && a[1] == b[1] && a[2] == b[2] && a[3] == b[3]);
    let n0 = (n / 0x100_0000) % 256;
    let n1 = (n / 0x1_0000) % 256;
    let n2 = (n / 0x100) % 256;
    let n3 = n % 256;
    let m0 = (m / 0x100_0000) % 256;
    let m1 = (m / 0x1_0000) % 256;
    let m2 = (m / 0x100) % 256;
    let m3 = m % 256;
    assert(n0 == m0 && n1 == m1 && n2 == m2 && n3 == m3);
    assert(n == m) by (bit_vector)
        requires
            (n / 0x100_0000) % 256 == (m / 0x100_0000) % 256,
            (n / 0x1_0000) % 256 == (m / 0x1_0000) % 256,
            (n / 0x100) % 256 == (m / 0x100) % 256,
            n % 256 == m % 256,
    ;
}

/// A length-prefixed string is recovered from the front of any byte string it starts:
/// when two such strings, of lengths below 2^32, start equal byte strings, they are equal
/// and so are the rests.
pub proof fn lemma_len_prefixed_unique(x: Seq<u8>, r1: Seq<u8>, y: Seq<u8>, r2: Seq<u8>)
    requires
        x.len() < 0x1_0000_0000,
        y.len() < 0x1_0000_0000,
        len_prefixed(x) + r1 == len_prefixed(y) + r2,
    ensures
        x == y,
        r1 == r2,
{
    let s = len_prefixed(x) + r1;
    let t = len_prefixed(y) + r2;
    let nx = x.len() as u32;
    let ny = y.len() as u32;
    assert(s.subrange(0, 4) =~= be32_spec(nx as nat));
    assert(t.subrange(0, 4) =~= be32_spec(ny as nat));
    lemma_be32_injective(nx, ny);
    assert(x.len() == y.len());
    assert(s.subrange(4, 4 + x.len() as int) =~= x);
    assert(t.subrange(4, 4 + y.len() as int) =~= y);
    assert(s.subrange(4 + x.len() as int, s.len() as int) =~= r1);
    assert(t.subrange(4 + y.len() as int, t.len() as int) =~= r2);
}

} // verus!
