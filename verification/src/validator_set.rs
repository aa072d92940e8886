//! The validator set that the enclave keeps sealed for the current height,
//! and the hash of it that the random values are bound to.

use vstd::prelude::*;
use crate::binding::{u64_be_bytes, u64_to_be_bytes};
use crate::status::SgxStatus;
use tendermint_proto::Protobuf;

verus! {

/// A validator set (its protobuf encoding) submitted for a block height.
#[derive(Debug, Clone, PartialEq, Eq)]
pub struct ValidatorSetForHeight {
    pub height: u64,
    pub validator_set: Vec<u8>,
}

/// A Tendermint hash: a SHA-256 digest or no hash at all.
#[derive(Debug, Clone, Copy, PartialEq, Eq)]
pub enum TmHash {
    Sha256([u8; 32]),
    NoHash,
}

/// The hash of the validator set whose protobuf encoding is `raw`, or `None`
/// when `raw` does not decode to a valid validator set.
pub uninterp spec fn validator_set_hash_of(raw: Seq<u8>) -> Option<Seq<u8>>;

/// Decodes `raw` with `<tendermint::validator::Set as
/// Protobuf<tendermint_proto::v0_38::types::ValidatorSet>>::decode` and hashes
/// the set with `Set::hash`. Trusted: the outcome is a function of `raw`
/// alone, and `Set::hash` always yields a SHA-256 hash (its source builds
/// `Hash::Sha256` from the Merkle root of the validators).
#[verifier::external_body]
fn decode_validator_set_hash(raw: &[u8]) -> (hash: Option<TmHash>)
    ensures
        hash is Some <==> validator_set_hash_of(raw@) is Some,
        hash matches Some(h) ==> (h matches TmHash::Sha256(d) && d@ == validator_set_hash_of(raw@)->0),
{
    let decoded = <tendermint::validator::Set as Protobuf<tendermint_proto::v0_38::types::ValidatorSet>>::decode(raw);
    match decoded {
        Ok(set) => match set.hash() {
            tendermint::Hash::Sha256(d) => Some(TmHash::Sha256(d)),
            tendermint::Hash::None => Some(TmHash::NoHash),
        },
        Err(_) => None,
    }
}

/// What the hash lookup answers for the outcome of unsealing: the unsealing
/// error as it came, `Unexpected` for a set that does not decode, else the
/// digest of the set.
pub open spec fn validator_set_hash_result(
    sealed: Result<ValidatorSetForHeight, SgxStatus>,
) -> Result<Seq<u8>, SgxStatus> {
    match sealed {
        Err(e) => Err(e),
        Ok(v) => match validator_set_hash_of(v.validator_set@) {
            None => Err(SgxStatus::Unexpected),
            Some(h) => Ok(h),
        },
    }
}

/// The hash of the sealed validator set. `sealed` is the outcome of
/// unsealing it from the enclave's storage.
pub fn get_validator_set_hash(sealed: Result<ValidatorSetForHeight, SgxStatus>) -> (hash: Result<TmHash, SgxStatus>)
    ensures
        match validator_set_hash_result(sealed) {
            Err(e) => hash == Err::<TmHash, SgxStatus>(e),
            Ok(h) => hash matches Ok(TmHash::Sha256(d)) && d@ == h,
        },
        sealed matches Err(e) ==> hash == Err::<TmHash, SgxStatus>(e),
        sealed matches Ok(v) ==> (validator_set_hash_of(v.validator_set@) is None
            <==> hash == Err::<TmHash, SgxStatus>(SgxStatus::Unexpected)),
        sealed matches Ok(v) ==> (validator_set_hash_of(v.validator_set@) matches Some(h)
            ==> (hash matches Ok(TmHash::Sha256(d)) && d@ == h)),
{
    let res = sealed?;
    match decode_validator_set_hash(res.validator_set.as_slice()) {
        Some(hash) => Ok(hash),
        None => Err(SgxStatus::Unexpected),
    }
}

impl ValidatorSetForHeight {
    /// The bytes the record is sealed as: the height, big-endian, then the
    /// encoded validator set.
    pub open spec fn encoding(self) -> Seq<u8> {
        u64_be_bytes(self.height) + self.validator_set@
    }

    /// The bytes to seal for this record.
    pub fn to_sealed_bytes(&self) -> (bytes: Vec<u8>)
        ensures
            bytes@ == self.encoding(),
    {
        let mut bytes: Vec<u8> = Vec::new();
        let height_bytes = u64_to_be_bytes(self.height);
        let mut i: usize = 0;
        while i < 8
            invariant
                i <= 8,
                height_bytes@ == u64_be_bytes(self.height),
                bytes@ == height_bytes@.subrange(0, i as int),
            decreases 8 - i,
        {
            bytes.push(height_bytes[i]);
            i = i + 1;
            assert(height_bytes@.subrange(0, i as int) =~= height_bytes@.subrange(0, i - 1) + seq![height_bytes@[i - 1]]);
        }
        let mut j: usize = 0;
        while j < self.validator_set.len()
            invariant
                j <= self.validator_set@.len(),
                bytes@ == u64_be_bytes(self.height) + self.validator_set@.subrange(0, j as int),
            decreases self.validator_set@.len() - j,
        {
            bytes.push(self.validator_set[j]);
            j = j + 1;
            assert(self.validator_set@.subrange(0, j as int) =~= self.validator_set@.subrange(0, j - 1) + seq![self.validator_set@[j - 1]]);
        }
        assert(self.validator_set@.subrange(0, self.validator_set@.len() as int) =~= self.validator_set@);
        bytes
    }

    /// Reads a record back from its sealed bytes: `None` when there are fewer
    /// than the eight bytes of the height.
    pub fn from_sealed_bytes(bytes: &[u8]) -> (record: Option<ValidatorSetForHeight>)
        ensures
            record is None <==> bytes@.len() < 8,
            record matches Some(r) ==> r.encoding() == bytes@,
    {
        if bytes.len() < 8 {
            return None;
        }
        let b0 = bytes[0];
        let b1 = bytes[1];
        let b2 = bytes[2];
        let b3 = bytes[3];
        let b4 = bytes[4];
        let b5 = bytes[5];
        let b6 = bytes[6];
        let b7 = bytes[7];
        let height: u64 = ((b0 as u64) << 56u64) | ((b1 as u64) << 48u64) | ((b2 as u64) << 40u64)
            | ((b3 as u64) << 32u64) | ((b4 as u64) << 24u64) | ((b5 as u64) << 16u64)
            | ((b6 as u64) << 8u64) | (b7 as u64);
        assert(
            (height >> 56u64) as u8 == b0 && (height >> 48u64) as u8 == b1
            && (height >> 40u64) as u8 == b2 && (height >> 32u64) as u8 == b3
            && (height >> 24u64) as u8 == b4 && (height >> 16u64) as u8 == b5
            && (height >> 8u64) as u8 == b6 && height as u8 == b7
        ) by (bit_vector)
            requires
                height == ((b0 as u64) << 56u64) | ((b1 as u64) << 48u64) | ((b2 as u64) << 40u64)
                    | ((b3 as u64) << 32u64) | ((b4 as u64) << 24u64) | ((b5 as u64) << 16u64)
                    | ((b6 as u64) << 8u64) | (b7 as u64),
        ;
        let mut rest: Vec<u8> = Vec::new();
        let mut i: usize = 8;
        while i < bytes.len()
            invariant
                8 <= i <= bytes@.len(),
                rest@ == bytes@.subrange(8, i as int),
            decreases bytes@.len() - i,
        {
            rest.push(bytes[i]);
            i = i + 1;
            assert(bytes@.subrange(8, i as int) =~= bytes@.subrange(8, i - 1) + seq![bytes@[i - 1]]);
        }
        let record = ValidatorSetForHeight { height, validator_set: rest };
        assert(u64_be_bytes(height) =~= bytes@.subrange(0, 8));
        assert(record.encoding() =~= bytes@);
        Some(record)
    }
}

/// The hash lookup passes an unsealing error on as it came, refuses exactly
/// the sets that do not decode, and otherwise answers the hash of the
/// decoded set, whatever its size.
pub proof fn lemma_validator_set_hash_lookup(sealed: Result<ValidatorSetForHeight, SgxStatus>)
    ensures
        sealed matches Err(e) ==> validator_set_hash_result(sealed) == Err::<Seq<u8>, SgxStatus>(e),
        sealed matches Ok(v) ==> (validator_set_hash_of(v.validator_set@) is None
            <==> validator_set_hash_result(sealed) == Err::<Seq<u8>, SgxStatus>(SgxStatus::Unexpected)),
        sealed matches Ok(v) ==> (validator_set_hash_of(v.validator_set@) matches Some(h)
            ==> validator_set_hash_result(sealed) == Ok::<Seq<u8>, SgxStatus>(h)),
{
}

/// The sealed bytes of a record are its eight height bytes, most significant
/// first, followed by the whole encoded validator set.
pub proof fn lemma_sealed_bytes_layout(record: ValidatorSetForHeight)
    ensures
        record.encoding().len() == 8 + record.validator_set@.len(),
        record.encoding().subrange(0, 8) == u64_be_bytes(record.height),
        record.encoding().subrange(8, record.encoding().len() as int) == record.validator_set@,
{
    let e = record.encoding();
    assert(e.subrange(0, 8) =~= u64_be_bytes(record.height));
    assert(e.subrange(8, e.len() as int) =~= record.validator_set@);
}

/// Reading back the sealed bytes of a record gives the record again.
pub proof fn lemma_sealed_bytes_roundtrip(record: ValidatorSetForHeight, bytes: Seq<u8>, back: ValidatorSetForHeight)
    requires
        bytes == record.encoding(),
        back.encoding() == bytes,
    ensures
        back.height == record.height,
        back.validator_set@ == record.validator_set@,
{
    let e1 = record.encoding();
    let e2 = back.encoding();
    assert(e1.subrange(0, 8) =~= u64_be_bytes(record.height));
    assert(e2.subrange(0, 8) =~= u64_be_bytes(back.height));
    crate::binding::lemma_u64_be_bytes_injective(record.height, back.height);
    assert(e1.subrange(8, e1.len() as int) =~= record.validator_set@);
    assert(e2.subrange(8, e2.len() as int) =~= back.validator_set@);
}

} // verus!
