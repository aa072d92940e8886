use secret_random::host::{
    enclave_err, enclave_validate_random, get_scheduled_txs, next_validator_set, random_number, require_arg,
    set_scheduled_txs, validation_accepted, HostError, ScheduledTxs,
};
use secret_random::storage::{seal, SealAction, SealEvent, StorageError};
use secret_random::SgxStatus;

#[test]
fn scheduled_txs_read_back_what_was_stored() {
    let mut store = ScheduledTxs::new();
    assert_eq!(get_scheduled_txs(&store), Vec::<u8>::new());
    assert_eq!(set_scheduled_txs(&mut store, Some(&[1, 2, 3])), Ok(()));
    assert_eq!(get_scheduled_txs(&store), vec![1, 2, 3]);
    assert_eq!(get_scheduled_txs(&store), vec![1, 2, 3]);
    assert_eq!(set_scheduled_txs(&mut store, Some(&[9])), Ok(()));
    assert_eq!(get_scheduled_txs(&store), vec![9]);
}

#[test]
fn refused_store_keeps_scheduled_txs() {
    let mut store = ScheduledTxs::new();
    set_scheduled_txs(&mut store, Some(&[7, 7])).unwrap();
    let refused = set_scheduled_txs(&mut store, None);
    assert_eq!(refused, Err(HostError::EmptyArg { name: "scheduled_transactions".to_string() }));
    assert_eq!(get_scheduled_txs(&store), vec![7, 7]);
}

#[test]
fn missing_argument_is_named() {
    let buf = [1u8, 2];
    assert_eq!(require_arg(Some(&buf), "block_hash"), Ok(&buf[..]));
    let err = require_arg(None, "block_hash").unwrap_err();
    assert_eq!(err, HostError::EmptyArg { name: "block_hash".to_string() });
    assert_eq!(err.message(), "Null/Empty argument: block_hash");
}

#[test]
fn random_number_outcomes() {
    assert_eq!(random_number(Some(Ok(vec![1, 2]))), Ok(vec![1, 2]));
    let failed = HostError::RandomGeneration { msg: "status unexpected".to_string() };
    assert_eq!(random_number(Some(Err(SgxStatus::Unexpected))), Err(failed.clone()));
    assert_eq!(random_number(None), Err(failed.clone()));
    assert_eq!(failed.message(), "status unexpected");
}

#[test]
fn enclave_call_outcomes() {
    assert_eq!(next_validator_set(None), Err(SgxStatus::Unexpected));
    assert_eq!(next_validator_set(Some(Ok(()))), Ok(()));
    assert_eq!(next_validator_set(Some(Err(SgxStatus::Other(7)))), Err(SgxStatus::Other(7)));
    assert_eq!(enclave_validate_random(None), Err(SgxStatus::Unexpected));
    assert_eq!(enclave_validate_random(Some(Err(SgxStatus::InvalidSignature))), Err(SgxStatus::InvalidSignature));
    assert!(validation_accepted(Ok(())));
    assert!(!validation_accepted(Err(SgxStatus::InvalidSignature)));
}

#[test]
fn enclave_failures_are_reported_with_their_text() {
    assert_eq!(enclave_err::<u8>(Ok(3)), Ok(3));
    let e = enclave_err::<u8>(Err("boom".to_string())).unwrap_err();
    assert_eq!(e, HostError::EnclaveErr { msg: "boom".to_string() });
    assert_eq!(e.message(), "boom");
}

#[test]
fn seal_creates_then_writes() {
    let data = [1u8, 2, 3];
    assert_eq!(seal(&data, "a/b", SealEvent::Start), SealAction::CreateFile("a/b"));
    assert_eq!(seal(&data, "a/b", SealEvent::Created(true)), SealAction::WriteAll(&data[..]));
    assert_eq!(seal(&data, "a/b", SealEvent::Created(false)), SealAction::Finish(Err(StorageError::GenericError)));
    assert_eq!(seal(&data, "a/b", SealEvent::Written(true)), SealAction::Finish(Ok(())));
    assert_eq!(seal(&data, "a/b", SealEvent::Written(false)), SealAction::Finish(Err(StorageError::GenericError)));
}
