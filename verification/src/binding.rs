//! The proof that binds an encrypted random value to a block: a SHA-256
//! digest over the height (big-endian), the encrypted value, the block hash
//! and the enclave's proof secret.

use vstd::prelude::*;
use crate::crypto::{sha256_of, sha_256};

verus! {

/// The eight bytes of `v`, most significant first (`u64::to_be_bytes`).
pub open spec fn u64_be_bytes(v: u64) -> Seq<u8> {
    seq![
        (v >> 56u64) as u8,
        (v >> 48u64) as u8,
        (v >> 40u64) as u8,
        (v >> 32u64) as u8,
        (v >> 24u64) as u8,
        (v >> 16u64) as u8,
        (v >> 8u64) as u8,
        v as u8,
    ]
}

/// The bytes that the proof digest is taken over.
pub open spec fn proof_input(height: u64, random: Seq<u8>, block_hash: Seq<u8>, secret: Seq<u8>) -> Seq<u8> {
    u64_be_bytes(height) + random + block_hash + secret
}

/// The proof of `random` for the block at `height` with hash `block_hash`.
pub open spec fn proof_of(height: u64, random: Seq<u8>, block_hash: Seq<u8>, secret: Seq<u8>) -> Seq<u8> {
    sha256_of(proof_input(height, random, block_hash, secret))
}

/// Appends the bytes of `bytes` to `out`.
fn append_bytes(out: &mut Vec<u8>, bytes: &[u8])
    ensures
        final(out)@ == old(out)@ + bytes@,
{
    let ghost start = out@;
    let mut i: usize = 0;
    while i < bytes.len()
        invariant
            i <= bytes@.len(),
            out@ == start + bytes@.subrange(0, i as int),
        decreases bytes@.len() - i,
    {
        out.push(bytes[i]);
        i = i + 1;
        assert(bytes@.subrange(0, i as int) == bytes@.subrange(0, i - 1) + seq![bytes@[i - 1]]);
    }
    assert(bytes@.subrange(0, bytes@.len() as int) == bytes@);
}

/// The big-endian bytes of `v`.
pub fn u64_to_be_bytes(v: u64) -> (bytes: [u8; 8])
    ensures
        bytes@ == u64_be_bytes(v),
{
    let bytes: [u8; 8] = [
        (v >> 56u64) as u8,
        (v >> 48u64) as u8,
        (v >> 40u64) as u8,
        (v >> 32u64) as u8,
        (v >> 24u64) as u8,
        (v >> 16u64) as u8,
        (v >> 8u64) as u8,
        v as u8,
    ];
    assert(bytes@ =~= u64_be_bytes(v));
    bytes
}

/// Computes the proof of `random` for the block at `height` whose hash is
/// `block_hash`, keyed by the enclave's proof secret.
pub fn create_proof(height: u64, random: &[u8], block_hash: &[u8], secret: &[u8; 32]) -> (proof: [u8; 32])
    ensures
        proof@ == proof_of(height, random@, block_hash@, secret@),
        proof@ == sha256_of(u64_be_bytes(height) + random@ + block_hash@ + secret@),
{
    let mut data: Vec<u8> = Vec::new();
    let height_bytes = u64_to_be_bytes(height);
    append_bytes(&mut data, height_bytes.as_slice());
    append_bytes(&mut data, random);
    append_bytes(&mut data, block_hash);
    append_bytes(&mut data, secret.as_slice());
    assert(data@ =~= proof_input(height, random@, block_hash@, secret@));
    assert(data@ =~= u64_be_bytes(height) + random@ + block_hash@ + secret@);
    sha_256(data.as_slice())
}

/// Distinct heights have distinct big-endian encodings.
pub proof fn lemma_u64_be_bytes_injective(a: u64, b: u64)
    ensures
        u64_be_bytes(a) == u64_be_bytes(b) ==> a == b,
{
    if u64_be_bytes(a) == u64_be_bytes(b) {
        assert(u64_be_bytes(a)[0] == u64_be_bytes(b)[0]);
        assert(u64_be_bytes(a)[1] == u64_be_bytes(b)[1]);
        assert(u64_be_bytes(a)[2] == u64_be_bytes(b)[2]);
        assert(u64_be_bytes(a)[3] == u64_be_bytes(b)[3]);
        assert(u64_be_bytes(a)[4] == u64_be_bytes(b)[4]);
        assert(u64_be_bytes(a)[5] == u64_be_bytes(b)[5]);
        assert(u64_be_bytes(a)[6] == u64_be_bytes(b)[6]);
        assert(u64_be_bytes(a)[7] == u64_be_bytes(b)[7]);
        assert(a == b) by (bit_vector)
            requires
                (a >> 56u64) as u8 == (b >> 56u64) as u8,
                (a >> 48u64) as u8 == (b >> 48u64) as u8,
                (a >> 40u64) as u8 == (b >> 40u64) as u8,
                (a >> 32u64) as u8 == (b >> 32u64) as u8,
                (a >> 24u64) as u8 == (b >> 24u64) as u8,
                (a >> 16u64) as u8 == (b >> 16u64) as u8,
                (a >> 8u64) as u8 == (b >> 8u64) as u8,
                a as u8 == b as u8,
        ;
    }
}

/// Byte `i` of the big-endian encoding of `v` is digit `7 - i` of `v` in
/// base 256.
pub proof fn lemma_u64_be_bytes_digits(v: u64)
    ensures
        u64_be_bytes(v).len() == 8,
        u64_be_bytes(v)[0] == (v / 0x100000000000000u64) % 256,
        u64_be_bytes(v)[1] == (v / 0x1000000000000u64) % 256,
        u64_be_bytes(v)[2] == (v / 0x10000000000u64) % 256,
        u64_be_bytes(v)[3] == (v / 0x100000000u64) % 256,
        u64_be_bytes(v)[4] == (v / 0x1000000u64) % 256,
        u64_be_bytes(v)[5] == (v / 0x10000u64) % 256,
        u64_be_bytes(v)[6] == (v / 0x100u64) % 256,
        u64_be_bytes(v)[7] == v % 256,
{
    assert(
        (v >> 56u64) as u8 == (v / 0x100000000000000u64) % 256
        && (v >> 48u64) as u8 == (v / 0x1000000000000u64) % 256
        && (v >> 40u64) as u8 == (v / 0x10000000000u64) % 256
        && (v >> 32u64) as u8 == (v / 0x100000000u64) % 256
        && (v >> 24u64) as u8 == (v / 0x1000000u64) % 256
        && (v >> 16u64) as u8 == (v / 0x10000u64) % 256
        && (v >> 8u64) as u8 == (v / 0x100u64) % 256
        && v as u8 == v % 256
    ) by (bit_vector);
}

/// The proof input is laid out as the eight height bytes, then the whole
/// encrypted value, then the whole block hash, then the whole secret.
pub proof fn lemma_proof_input_layout(height: u64, random: Seq<u8>, block_hash: Seq<u8>, secret: Seq<u8>)
    ensures
        ({
            let p = proof_input(height, random, block_hash, secret);
            let n = random.len() as int;
            let m = block_hash.len() as int;
            &&& p.len() == 8 + n + m + secret.len()
            &&& p.subrange(0, 8) == u64_be_bytes(height)
            &&& p.subrange(8, 8 + n) == random
            &&& p.subrange(8 + n, 8 + n + m) == block_hash
            &&& p.subrange(8 + n + m, p.len() as int) == secret
        }),
{
    let p = proof_input(height, random, block_hash, secret);
    let n = random.len() as int;
    let m = block_hash.len() as int;
    assert(u64_be_bytes(height).len() == 8);
    assert(p.subrange(0, 8) =~= u64_be_bytes(height));
    assert(p.subrange(8, 8 + n) =~= random);
    assert(p.subrange(8 + n, 8 + n + m) =~= block_hash);
    assert(p.subrange(8 + n + m, p.len() as int) =~= secret);
}

/// The proof input determines the height, the encrypted value, the block
/// hash and the secret it was built from, once the lengths of the encrypted
/// value and of the secret are fixed: a proof cannot be moved to another
/// height, another block or another secret by re-reading the same bytes.
pub proof fn lemma_proof_input_binds(
    h1: u64, r1: Seq<u8>, b1: Seq<u8>, s1: Seq<u8>,
    h2: u64, r2: Seq<u8>, b2: Seq<u8>, s2: Seq<u8>,
)
    requires
        r1.len() == r2.len(),
        s1.len() == s2.len(),
        proof_input(h1, r1, b1, s1) == proof_input(h2, r2, b2, s2),
    ensures
        h1 == h2,
        r1 == r2,
        b1 == b2,
        s1 == s2,
{
    lemma_proof_input_layout(h1, r1, b1, s1);
    lemma_proof_input_layout(h2, r2, b2, s2);
    lemma_u64_be_bytes_injective(h1, h2);
}

} // verus!
