use aes_siv::KeyInit;
use secret_random::binding::{create_proof, u64_to_be_bytes};
use secret_random::enclave::{
    ecall_generate_random, ecall_submit_validator_set, ecall_validate_random, submit_status, EnclaveKeys,
    MAX_VARIABLE_LENGTH,
};
use secret_random::random::EncryptedRandom;
use secret_random::status::ecall_health_check;
use secret_random::storage::StorageError;
use secret_random::validator_set::{get_validator_set_hash, TmHash, ValidatorSetForHeight};
use secret_random::SgxStatus;
use sha2::Digest;
use tendermint_proto::Protobuf;

fn keys() -> EnclaveKeys {
    EnclaveKeys { rek: [0x11; 32], irs: [0x22; 32] }
}

fn encoded_validator_set() -> Vec<u8> {
    let pk = tendermint::PublicKey::from_raw_ed25519(&[7u8; 32]).unwrap();
    let info = tendermint::validator::Info::new(pk, tendermint::vote::Power::from(10u32));
    let set = tendermint::validator::Set::without_proposer(vec![info]);
    Protobuf::<tendermint_proto::v0_38::types::ValidatorSet>::encode_vec(set)
}

fn expected_set_hash() -> [u8; 32] {
    let raw = encoded_validator_set();
    let set = <tendermint::validator::Set as Protobuf<tendermint_proto::v0_38::types::ValidatorSet>>::decode(
        raw.as_slice(),
    )
    .unwrap();
    match set.hash() {
        tendermint::Hash::Sha256(h) => h,
        tendermint::Hash::None => panic!("no hash"),
    }
}

fn sealed_set(height: u64) -> Result<ValidatorSetForHeight, SgxStatus> {
    Ok(ValidatorSetForHeight { height, validator_set: encoded_validator_set() })
}

fn generate(block_hash: &[u8; 32], height: u64) -> EncryptedRandom {
    ecall_generate_random(&keys(), Some(block_hash.as_slice()), 32, height, Some([0x33; 32]), sealed_set(height))
        .unwrap()
}

#[test]
fn health_check_succeeds() {
    assert_eq!(ecall_health_check(), SgxStatus::Success);
}

#[test]
fn be_bytes_are_most_significant_first() {
    assert_eq!(u64_to_be_bytes(0x0102030405060708), [1, 2, 3, 4, 5, 6, 7, 8]);
    assert_eq!(u64_to_be_bytes(0), [0; 8]);
}

#[test]
fn proof_is_sha256_of_height_random_block_and_secret() {
    let secret = [0x22u8; 32];
    let proof = create_proof(0x0102, &[9, 9, 9], &[5, 5], &secret);
    let mut data = vec![0, 0, 0, 0, 0, 0, 1, 2, 9, 9, 9, 5, 5];
    data.extend_from_slice(&secret);
    let expected: [u8; 32] = sha2::Sha256::digest(&data).into();
    assert_eq!(proof, expected);
    assert_ne!(proof.to_vec(), data[..32].to_vec());
}

#[test]
fn generated_random_is_siv_encryption_bound_to_validator_set() {
    let block_hash = [0x44u8; 32];
    let generated = generate(&block_hash, 12);
    assert_eq!(generated.random.len(), 48);
    assert_eq!(generated.proof.len(), 32);
    let set_hash = expected_set_hash();
    let mut cipher = aes_siv::siv::Aes128Siv::new(&[0x11u8; 32].into());
    let expected = cipher.encrypt([set_hash.as_slice()], &[0x33u8; 32]).unwrap();
    assert_eq!(generated.random, expected);
    assert_ne!(&generated.random[16..], &[0x33u8; 32][..]);
    let proof = create_proof(12, &generated.random, &block_hash, &[0x22; 32]);
    assert_eq!(generated.proof, proof.to_vec());
}

#[test]
fn generated_random_validates() {
    let block_hash = [0x44u8; 32];
    let generated = generate(&block_hash, 12);
    let status = ecall_validate_random(
        &keys(),
        Some(&generated.random),
        48,
        Some(&generated.proof),
        32,
        Some(&block_hash),
        32,
        12,
    );
    assert_eq!(status, SgxStatus::Success);
}

#[test]
fn validation_rejects_other_height_block_or_tampered_proof() {
    let block_hash = [0x44u8; 32];
    let generated = generate(&block_hash, 12);
    let k = keys();
    let r = Some(generated.random.as_slice());
    let p = Some(generated.proof.as_slice());
    assert_eq!(ecall_validate_random(&k, r, 48, p, 32, Some(&block_hash), 32, 13), SgxStatus::InvalidSignature);
    let other_block = [0x45u8; 32];
    assert_eq!(ecall_validate_random(&k, r, 48, p, 32, Some(&other_block), 32, 12), SgxStatus::InvalidSignature);
    let mut tampered = generated.proof.clone();
    tampered[0] ^= 1;
    assert_eq!(
        ecall_validate_random(&k, r, 48, Some(&tampered), 32, Some(&block_hash), 32, 12),
        SgxStatus::InvalidSignature
    );
    let short = &generated.proof[..31];
    assert_eq!(ecall_validate_random(&k, r, 48, Some(short), 31, Some(&block_hash), 32, 12), SgxStatus::InvalidSignature);
    let other_keys = EnclaveKeys { rek: [0x11; 32], irs: [0x23; 32] };
    assert_eq!(
        ecall_validate_random(&other_keys, r, 48, p, 32, Some(&block_hash), 32, 12),
        SgxStatus::InvalidSignature
    );
}

#[test]
fn validation_checks_lengths_then_pointers() {
    let k = keys();
    let r = [0u8; 48];
    let p = [0u8; 32];
    let b = [0u8; 32];
    let too_long = MAX_VARIABLE_LENGTH + 1;
    assert_eq!(ecall_validate_random(&k, None, too_long, Some(&p), 32, Some(&b), 32, 1), SgxStatus::InvalidParameter);
    assert_eq!(ecall_validate_random(&k, Some(&r), 48, None, too_long, None, 31, 1), SgxStatus::InvalidParameter);
    assert_eq!(ecall_validate_random(&k, None, 48, Some(&p), 32, None, 31, 1), SgxStatus::Unexpected);
    assert_eq!(ecall_validate_random(&k, None, 48, Some(&p), 32, Some(&b), 32, 1), SgxStatus::InvalidParameter);
    assert_eq!(ecall_validate_random(&k, Some(&r), 48, None, 32, Some(&b), 32, 1), SgxStatus::InvalidParameter);
    assert_eq!(ecall_validate_random(&k, Some(&r), 48, Some(&p), 32, None, 32, 1), SgxStatus::InvalidParameter);
}

#[test]
fn generation_errors() {
    let k = keys();
    let b = [0u8; 32];
    let short = [0u8; 31];
    let rand = Some([1u8; 32]);
    assert_eq!(ecall_generate_random(&k, None, 32, 1, rand, sealed_set(1)), Err(SgxStatus::InvalidParameter));
    assert_eq!(ecall_generate_random(&k, Some(&short), 31, 1, rand, sealed_set(1)), Err(SgxStatus::Unexpected));
    assert_eq!(ecall_generate_random(&k, Some(&b), 32, 1, None, sealed_set(1)), Err(SgxStatus::Unexpected));
    assert_eq!(
        ecall_generate_random(&k, Some(&b), 32, 1, rand, Err(SgxStatus::EnclaveFileAccess)),
        Err(SgxStatus::Unexpected)
    );
    let garbage = Ok(ValidatorSetForHeight { height: 1, validator_set: vec![0xff, 0xff, 0xff] });
    assert_eq!(ecall_generate_random(&k, Some(&b), 32, 1, rand, garbage), Err(SgxStatus::Unexpected));
}

#[test]
fn validator_set_hash_lookup() {
    assert_eq!(get_validator_set_hash(Err(SgxStatus::EnclaveFileAccess)), Err(SgxStatus::EnclaveFileAccess));
    let garbage = ValidatorSetForHeight { height: 3, validator_set: vec![0xff, 0xff, 0xff] };
    assert_eq!(get_validator_set_hash(Ok(garbage)), Err(SgxStatus::Unexpected));
    assert_eq!(get_validator_set_hash(sealed_set(3)), Ok(TmHash::Sha256(expected_set_hash())));
}

#[test]
fn sealed_bytes_roundtrip() {
    let record = ValidatorSetForHeight { height: 0x0a0b0c0d0e0f1011, validator_set: vec![1, 2, 3] };
    let bytes = record.to_sealed_bytes();
    assert_eq!(bytes, vec![0x0a, 0x0b, 0x0c, 0x0d, 0x0e, 0x0f, 0x10, 0x11, 1, 2, 3]);
    assert_eq!(ValidatorSetForHeight::from_sealed_bytes(&bytes), Some(record));
    assert_eq!(ValidatorSetForHeight::from_sealed_bytes(&bytes[..7]), None);
    let empty = ValidatorSetForHeight::from_sealed_bytes(&bytes[..8]).unwrap();
    assert_eq!(empty.height, 0x0a0b0c0d0e0f1011);
    assert!(empty.validator_set.is_empty());
}

#[test]
fn submit_validator_set() {
    let set = [4u8, 5, 6];
    assert_eq!(ecall_submit_validator_set(None, MAX_VARIABLE_LENGTH + 1, 9), Err(SgxStatus::InvalidParameter));
    assert_eq!(ecall_submit_validator_set(None, 3, 9), Err(SgxStatus::InvalidParameter));
    assert_eq!(
        ecall_submit_validator_set(Some(&set), 3, 9),
        Ok(ValidatorSetForHeight { height: 9, validator_set: vec![4, 5, 6] })
    );
    assert_eq!(submit_status(Ok(())), SgxStatus::Success);
    assert_eq!(submit_status(Err(StorageError::GenericError)), SgxStatus::EnclaveFileAccess);
}
