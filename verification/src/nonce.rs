//! Nonce discipline: each counter-bound key seals or opens exactly once,
//! with its 32-bit counter spread big-endian over the last four bytes of a
//! 12-byte nonce. Distinct counters give distinct nonces, so no (key, nonce)
//! pair is ever reused within a session.
use vstd::prelude::*;

verus! {

/// Length in bytes of an AES-256-GCM nonce.
pub const NONCE_LEN: usize = 12;

/// The nonce for counter value `c`: eight zero bytes, then the four
/// big-endian bytes of `c`.
pub open spec fn nonce_spec(c: u32) -> Seq<u8> {
    seq![
        0u8, 0u8, 0u8, 0u8, 0u8, 0u8, 0u8, 0u8,
        ((c >> 24) & 0xff) as u8,
        ((c >> 16) & 0xff) as u8,
        ((c >> 8) & 0xff) as u8,
        (c & 0xff) as u8,
    ]
}

/// Builds the nonce for one use of a counter-bound key.
pub fn nonce_for(c: u32) -> (r: Vec<u8>)
    ensures
        r@ == nonce_spec(c),
        r@.len() == NONCE_LEN,
{
    assert((c >> 24) & 0xff < 256 && (c >> 16) & 0xff < 256 && (c >> 8) & 0xff < 256 && c
        & 0xff < 256) by (bit_vector);
    let mut v: Vec<u8> = Vec::new();
    let mut i: usize = 0;
    while i < 8
        invariant
            i <= 8,
            v@.len() == i,
            forall|j: int| 0 <= j < i ==> v@[j] == 0u8,
        decreases 8 - i,
    {
        v.push(0u8);
        i += 1;
    }
    v.push(((c >> 24) & 0xff) as u8);
    v.push(((c >> 16) & 0xff) as u8);
    v.push(((c >> 8) & 0xff) as u8);
    v.push((c & 0xff) as u8);
    assert(v@ =~= nonce_spec(c));
    v
}

/// No two sealing operations of a session share a nonce: distinct counter
/// values give distinct nonces, because the counter's four big-endian bytes
/// determine it.
pub proof fn lemma_nonce_injective(i: u32, j: u32)
    requires
        i != j,
    ensures
        nonce_spec(i) != nonce_spec(j),
{
    if nonce_spec(i) == nonce_spec(j) {
        assert(nonce_spec(i)[8] == nonce_spec(j)[8]);
        assert(nonce_spec(i)[9] == nonce_spec(j)[9]);
        assert(nonce_spec(i)[10] == nonce_spec(j)[10]);
        assert(nonce_spec(i)[11] == nonce_spec(j)[11]);
        assert(((i >> 24) & 0xff) as u8 == ((j >> 24) & 0xff) as u8 && ((i >> 16) & 0xff) as u8
            == ((j >> 16) & 0xff) as u8 && ((i >> 8) & 0xff) as u8 == ((j >> 8) & 0xff) as u8 && (i
            & 0xff) as u8 == (j & 0xff) as u8 ==> i == j) by (bit_vector);
    }
}

} // verus!
