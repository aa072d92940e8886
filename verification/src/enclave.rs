//! The enclave's entry points: generating an encrypted random value with its
//! proof, validating such a pair, and accepting the next validator set.
//!
//! Pointer validation stays with the caller, which hands each buffer over as
//! `None` when its pointer does not pass; the lengths are those that the
//! caller was given, and a present buffer is exactly that long.

use vstd::prelude::*;
use crate::binding::{create_proof, proof_of, u64_be_bytes};
use crate::crypto::{aes128_siv_seal, encrypt_siv, sha256_of};
use crate::random::EncryptedRandom;
use crate::status::SgxStatus;
use crate::storage::StorageError;
use crate::validator_set::{get_validator_set_hash, validator_set_hash_of, validator_set_hash_result, TmHash, ValidatorSetForHeight};

verus! {

/// The largest variable-length input that an entry point accepts.
pub const MAX_VARIABLE_LENGTH: u32 = 100000u32;

/// The length of a block hash.
pub const BLOCK_HASH_LEN: u32 = 32u32;

/// The enclave's two keys, unsealed at start-up.
#[derive(Debug, Clone, Copy, PartialEq, Eq)]
pub struct EnclaveKeys {
    /// The key that random values are encrypted under.
    pub rek: [u8; 32],
    /// The secret that proofs are keyed with.
    pub irs: [u8; 32],
}

/// The view of an optional byte buffer.
pub open spec fn buf_view(buf: Option<&[u8]>) -> Option<Seq<u8>> {
    match buf {
        Some(b) => Some(b@),
        None => None,
    }
}

/// A present buffer is as long as the length it was given with.
pub open spec fn buf_len_matches(buf: Option<&[u8]>, len: u32) -> bool {
    buf matches Some(b) ==> b@.len() == len
}

/// What generation answers: `InvalidParameter` for a block hash that did not
/// pass pointer validation, `Unexpected` for a block hash that is not 32
/// bytes, when no random bytes could be read, or when no validator set hash
/// is at hand; else the random bytes encrypted under the random key with the
/// validator set hash as associated data, and the proof of that ciphertext
/// for this height and block.
pub open spec fn generate_result(
    keys: EnclaveKeys,
    block_hash: Option<Seq<u8>>,
    block_hash_len: u32,
    height: u64,
    rand: Option<Seq<u8>>,
    validator_set_hash: Result<Seq<u8>, SgxStatus>,
) -> Result<(Seq<u8>, Seq<u8>), SgxStatus> {
    if block_hash is None {
        Err(SgxStatus::InvalidParameter)
    } else if block_hash_len != BLOCK_HASH_LEN {
        Err(SgxStatus::Unexpected)
    } else if rand is None {
        Err(SgxStatus::Unexpected)
    } else {
        match validator_set_hash {
            Err(_) => Err(SgxStatus::Unexpected),
            Ok(h) => {
                let random = aes128_siv_seal(keys.rek@, h, rand->0);
                Ok((random, proof_of(height, random, block_hash->0, keys.irs@)))
            },
        }
    }
}

/// What validation answers: `InvalidParameter` for a random value or proof
/// longer than `MAX_VARIABLE_LENGTH`, `Unexpected` for a block hash that is
/// not 32 bytes, `InvalidParameter` for a buffer that did not pass pointer
/// validation, `InvalidSignature` when the proof differs from the one
/// computed for the random value, height and block hash; else `Success`.
pub open spec fn validate_result(
    secret: Seq<u8>,
    random: Option<Seq<u8>>,
    random_len: u32,
    proof: Option<Seq<u8>>,
    proof_len: u32,
    block_hash: Option<Seq<u8>>,
    block_hash_len: u32,
    height: u64,
) -> SgxStatus {
    if random_len > MAX_VARIABLE_LENGTH || proof_len > MAX_VARIABLE_LENGTH {
        SgxStatus::InvalidParameter
    } else if block_hash_len != BLOCK_HASH_LEN {
        SgxStatus::Unexpected
    } else if random is None || proof is None || block_hash is None {
        SgxStatus::InvalidParameter
    } else if proof_of(height, random->0, block_hash->0, secret) != proof->0 {
        SgxStatus::InvalidSignature
    } else {
        SgxStatus::Success
    }
}

/// Whether `a` and `b` hold the same bytes.
fn bytes_equal(a: &[u8], b: &[u8]) -> (equal: bool)
    ensures
        equal == (a@ == b@),
{
    if a.len() != b.len() {
        return false;
    }
    let mut i: usize = 0;
    while i < a.len()
        invariant
            a@.len() == b@.len(),
            i <= a@.len(),
            forall|j: int| 0 <= j < i ==> a@[j] == b@[j],
        decreases a@.len() - i,
    {
        if a[i] != b[i] {
            return false;
        }
        i = i + 1;
    }
    assert(a@ =~= b@);
    true
}

/// Copies `bytes` into a new vector.
fn to_vec(bytes: &[u8]) -> (v: Vec<u8>)
    ensures
        v@ == bytes@,
{
    let mut v: Vec<u8> = Vec::new();
    let mut i: usize = 0;
    while i < bytes.len()
        invariant
            i <= bytes@.len(),
            v@ == bytes@.subrange(0, i as int),
        decreases bytes@.len() - i,
    {
        v.push(bytes[i]);
        i = i + 1;
        assert(bytes@.subrange(0, i as int) =~= bytes@.subrange(0, i - 1) + seq![bytes@[i - 1]]);
    }
    assert(bytes@.subrange(0, bytes@.len() as int) =~= bytes@);
    v
}

/// Generates an encrypted random value for the block at `height` with hash
/// `block_hash`, and its proof. `rand` is what the random source gave (`None`
/// when it failed); `sealed_validator_set` is the outcome of unsealing the
/// current validator set. On success the random value is 48 bytes (the
/// 32 random bytes and a 16-byte tag) and the proof 32.
pub fn ecall_generate_random(
    keys: &EnclaveKeys,
    block_hash: Option<&[u8]>,
    block_hash_len: u32,
    height: u64,
    rand: Option<[u8; 32]>,
    sealed_validator_set: Result<ValidatorSetForHeight, SgxStatus>,
) -> (generated: Result<EncryptedRandom, SgxStatus>)
    requires
        buf_len_matches(block_hash, block_hash_len),
    ensures
        match generate_result(
            *keys,
            buf_view(block_hash),
            block_hash_len,
            height,
            match rand { Some(r) => Some(r@), None => None },
            validator_set_hash_result(sealed_validator_set),
        ) {
            Err(e) => generated matches Err(g) && g == e,
            Ok((random, proof)) => generated matches Ok(er) && er.random@ == random && er.proof@ == proof,
        },
        generated matches Ok(er) ==> er.random@.len() == 48 && er.proof@.len() == 32,
        generated is Ok <==> (block_hash is Some && block_hash_len == 32 && rand is Some
            && (sealed_validator_set matches Ok(v) && validator_set_hash_of(v.validator_set@) is Some)),
        generated matches Ok(er) ==> (rand matches Some(r) && (sealed_validator_set matches Ok(v)
            && er.random@ == aes128_siv_seal(keys.rek@, validator_set_hash_of(v.validator_set@)->0, r@))),
        generated matches Ok(er) ==> (block_hash matches Some(b)
            && er.proof@ == sha256_of(u64_be_bytes(height) + er.random@ + b@ + keys.irs@)),
{
    let block_hash = match block_hash {
        Some(b) => b,
        None => return Err(SgxStatus::InvalidParameter),
    };
    if block_hash_len != BLOCK_HASH_LEN {
        return Err(SgxStatus::Unexpected);
    }
    let rand_buf = match rand {
        Some(r) => r,
        None => return Err(SgxStatus::Unexpected),
    };
    let validator_set_hash = match get_validator_set_hash(sealed_validator_set) {
        Ok(h) => h,
        Err(_) => TmHash::NoHash,
    };
    let hash = match validator_set_hash {
        TmHash::Sha256(h) => h,
        TmHash::NoHash => return Err(SgxStatus::Unexpected),
    };
    let encrypted = match encrypt_siv(&keys.rek, hash.as_slice(), rand_buf.as_slice()) {
        Some(c) => c,
        None => return Err(SgxStatus::Unexpected),
    };
    let digest = create_proof(height, encrypted.as_slice(), block_hash, &keys.irs);
    let proof_vec = to_vec(digest.as_slice());
    Ok(EncryptedRandom { random: encrypted, proof: proof_vec })
}

/// Validates that `proof_buf` holds the proof of `random` for the block at `height`
/// with hash `block_hash`.
pub fn ecall_validate_random(
    keys: &EnclaveKeys,
    random: Option<&[u8]>,
    random_len: u32,
    proof_buf: Option<&[u8]>,
    proof_len: u32,
    block_hash: Option<&[u8]>,
    block_hash_len: u32,
    height: u64,
) -> (status: SgxStatus)
    requires
        buf_len_matches(random, random_len),
        buf_len_matches(proof_buf, proof_len),
        buf_len_matches(block_hash, block_hash_len),
    ensures
        status == validate_result(
            keys.irs@,
            buf_view(random),
            random_len,
            buf_view(proof_buf),
            proof_len,
            buf_view(block_hash),
            block_hash_len,
            height,
        ),
        status == SgxStatus::Success <==> (random_len <= 100000 && proof_len <= 100000 && block_hash_len == 32
            && random is Some && proof_buf is Some && block_hash is Some
            && proof_buf->0@ == sha256_of(u64_be_bytes(height) + random->0@ + block_hash->0@ + keys.irs@)),
{
    if random_len > MAX_VARIABLE_LENGTH {
        return SgxStatus::InvalidParameter;
    }
    if proof_len > MAX_VARIABLE_LENGTH {
        return SgxStatus::InvalidParameter;
    }
    if block_hash_len != BLOCK_HASH_LEN {
        return SgxStatus::Unexpected;
    }
    let random = match random {
        Some(r) => r,
        None => return SgxStatus::InvalidParameter,
    };
    let proof_slice = match proof_buf {
        Some(p) => p,
        None => return SgxStatus::InvalidParameter,
    };
    let block_hash = match block_hash {
        Some(b) => b,
        None => return SgxStatus::InvalidParameter,
    };
    let calculated_proof = create_proof(height, random, block_hash, &keys.irs);
    if !bytes_equal(calculated_proof.as_slice(), proof_slice) {
        return SgxStatus::InvalidSignature;
    }
    SgxStatus::Success
}

/// Accepts the validator set for `height`: the record to seal, or
/// `InvalidParameter` for a set longer than `MAX_VARIABLE_LENGTH` or one that
/// did not pass pointer validation.
pub fn ecall_submit_validator_set(
    val_set: Option<&[u8]>,
    val_set_len: u32,
    height: u64,
) -> (record: Result<ValidatorSetForHeight, SgxStatus>)
    requires
        buf_len_matches(val_set, val_set_len),
    ensures
        val_set_len > MAX_VARIABLE_LENGTH ==> record == Err::<ValidatorSetForHeight, SgxStatus>(SgxStatus::InvalidParameter),
        val_set_len <= MAX_VARIABLE_LENGTH && val_set is None
            ==> record == Err::<ValidatorSetForHeight, SgxStatus>(SgxStatus::InvalidParameter),
        val_set_len <= MAX_VARIABLE_LENGTH && val_set is Some ==> (record matches Ok(r)
            && r.height == height && r.validator_set@ == val_set->0@),
{
    if val_set_len > MAX_VARIABLE_LENGTH {
        return Err(SgxStatus::InvalidParameter);
    }
    let val_set = match val_set {
        Some(v) => v,
        None => return Err(SgxStatus::InvalidParameter),
    };
    Ok(ValidatorSetForHeight { height, validator_set: to_vec(val_set) })
}

/// The status that submitting a validator set ends with, given how sealing
/// the record went: `EnclaveFileAccess` when sealing failed.
pub fn submit_status(sealed: Result<(), StorageError>) -> (status: SgxStatus)
    ensures
        sealed is Ok ==> status == SgxStatus::Success,
        sealed is Err ==> status == SgxStatus::EnclaveFileAccess,
{
    match sealed {
        Ok(()) => SgxStatus::Success,
        Err(_) => SgxStatus::EnclaveFileAccess,
    }
}

/// Generation succeeds on a 32-byte block hash, random bytes from the source
/// and a validator set hash at hand, and then answers the encryption of
/// exactly those random bytes under the whole random key, with the validator
/// set hash as associated data, together with the SHA-256 digest of the
/// height, that ciphertext, the block hash and the proof secret.
pub proof fn lemma_generation_encrypts_the_random_bytes(
    keys: EnclaveKeys,
    block_hash: Seq<u8>,
    height: u64,
    rand: Seq<u8>,
    validator_set_hash: Seq<u8>,
)
    ensures
        ({
            let random = aes128_siv_seal(keys.rek@, validator_set_hash, rand);
            generate_result(keys, Some(block_hash), 32, height, Some(rand), Ok(validator_set_hash))
                == Ok::<(Seq<u8>, Seq<u8>), SgxStatus>((random,
                    sha256_of(u64_be_bytes(height) + random + block_hash + keys.irs@)))
        }),
{
    let random = aes128_siv_seal(keys.rek@, validator_set_hash, rand);
    assert(crate::binding::proof_input(height, random, block_hash, keys.irs@)
        =~= u64_be_bytes(height) + random + block_hash + keys.irs@);
}

/// Generation fails with `InvalidParameter` without a block hash, and with
/// `Unexpected` for a block hash that is not 32 bytes, without random bytes,
/// or without a validator set hash.
pub proof fn lemma_generation_failures(
    keys: EnclaveKeys,
    block_hash: Option<Seq<u8>>,
    block_hash_len: u32,
    height: u64,
    rand: Option<Seq<u8>>,
    validator_set_hash: Result<Seq<u8>, SgxStatus>,
)
    ensures
        block_hash is None ==> generate_result(keys, block_hash, block_hash_len, height, rand, validator_set_hash)
            == Err::<(Seq<u8>, Seq<u8>), SgxStatus>(SgxStatus::InvalidParameter),
        block_hash is Some && (block_hash_len != 32 || rand is None || validator_set_hash is Err)
            ==> generate_result(keys, block_hash, block_hash_len, height, rand, validator_set_hash)
            == Err::<(Seq<u8>, Seq<u8>), SgxStatus>(SgxStatus::Unexpected),
{
}

/// Validation accepts a random value exactly when the lengths are within
/// bounds, the block hash is 32 bytes, every buffer is present, and the
/// proof is byte for byte the SHA-256 digest of the height, the random
/// value, the block hash and the proof secret.
pub proof fn lemma_validation_sound_and_complete(
    secret: Seq<u8>,
    random: Option<Seq<u8>>,
    random_len: u32,
    proof_bytes: Option<Seq<u8>>,
    proof_len: u32,
    block_hash: Option<Seq<u8>>,
    block_hash_len: u32,
    height: u64,
)
    ensures
        validate_result(secret, random, random_len, proof_bytes, proof_len, block_hash, block_hash_len, height)
            == SgxStatus::Success
        <==> (random_len <= 100000 && proof_len <= 100000 && block_hash_len == 32
            && random is Some && proof_bytes is Some && block_hash is Some
            && proof_bytes->0 == sha256_of(u64_be_bytes(height) + random->0 + block_hash->0 + secret)),
{
    if random is Some && block_hash is Some {
        assert(crate::binding::proof_input(height, random->0, block_hash->0, secret)
            =~= u64_be_bytes(height) + random->0 + block_hash->0 + secret);
    }
}

/// A random value and proof produced by generation pass validation for the
/// same keys, height and block hash.
pub proof fn lemma_generated_random_validates(
    keys: EnclaveKeys,
    block_hash: Seq<u8>,
    height: u64,
    rand: Seq<u8>,
    validator_set_hash: Result<Seq<u8>, SgxStatus>,
    generated: EncryptedRandom,
)
    requires
        block_hash.len() == BLOCK_HASH_LEN,
        generate_result(keys, Some(block_hash), BLOCK_HASH_LEN, height, Some(rand), validator_set_hash)
            == Ok::<(Seq<u8>, Seq<u8>), SgxStatus>((generated.random@, generated.proof@)),
        generated.random@.len() == 48,
        generated.proof@.len() == 32,
    ensures
        validate_result(
            keys.irs@,
            Some(generated.random@),
            48,
            Some(generated.proof@),
            32,
            Some(block_hash),
            BLOCK_HASH_LEN,
            height,
        ) == SgxStatus::Success,
{
}

} // verus!
