//! The host side: the checks made on the buffers that come in through the
//! C interface, the errors reported back, the outcome of calls into the
//! enclave, and the store of scheduled transactions.

use vstd::prelude::*;
use vstd::string::StringExecFns;
use crate::status::SgxStatus;

verus! {

/// An error reported to the host's caller.
#[derive(Debug, Clone, PartialEq, Eq)]
pub enum HostError {
    /// A required buffer argument was null or empty.
    EmptyArg { name: String },
    /// The enclave reported a failure.
    EnclaveErr { msg: String },
    /// No random number could be obtained from the enclave.
    RandomGeneration { msg: String },
}

/// The text that `HostError::message` gives.
pub open spec fn host_error_message(e: HostError) -> Seq<char> {
    match e {
        HostError::EmptyArg { name } => "Null/Empty argument: "@ + name@,
        HostError::EnclaveErr { msg } => msg@,
        HostError::RandomGeneration { msg } => msg@,
    }
}

impl HostError {
    /// The error's text, as it is handed back to the caller.
    pub fn message(&self) -> (text: String)
        ensures
            text@ == host_error_message(*self),
    {
        match self {
            HostError::EmptyArg { name } => {
                let mut text = String::from_str("Null/Empty argument: ");
                text.append(name.as_str());
                text
            },
            HostError::EnclaveErr { msg } => msg.clone(),
            HostError::RandomGeneration { msg } => msg.clone(),
        }
    }
}

/// The buffer argument `name`, or `EmptyArg` naming it when the buffer was
/// null or empty (`None`).
pub fn require_arg<'a>(arg: Option<&'a [u8]>, name: &str) -> (checked: Result<&'a [u8], HostError>)
    ensures
        arg matches Some(a) ==> checked == Ok::<&'a [u8], HostError>(a),
        arg is None ==> (checked matches Err(HostError::EmptyArg { name: n }) && n@ == name@),
{
    match arg {
        Some(a) => Ok(a),
        None => Err(HostError::EmptyArg { name: name.to_owned() }),
    }
}

/// The outcome of asking the enclave for a random number. `reply` is `None`
/// when the enclave's entry point could not be found; any failure becomes
/// `RandomGeneration` with the text "status unexpected".
pub fn random_number(reply: Option<Result<Vec<u8>, SgxStatus>>) -> (number: Result<Vec<u8>, HostError>)
    ensures
        reply matches Some(Ok(v)) ==> (number matches Ok(w) && w@ == v@),
        !(reply matches Some(Ok(_))) ==> (number matches Err(HostError::RandomGeneration { msg })
            && msg@ == "status unexpected"@),
{
    match reply {
        Some(Ok(v)) => Ok(v),
        _ => Err(HostError::RandomGeneration { msg: "status unexpected".to_owned() }),
    }
}

/// The outcome of handing the next validator set to the enclave. `reply` is
/// `None` when the enclave's entry point could not be found, which is
/// `Unexpected`.
pub fn next_validator_set(reply: Option<Result<(), SgxStatus>>) -> (outcome: Result<(), SgxStatus>)
    ensures
        reply matches Some(r) ==> outcome == r,
        reply is None ==> outcome == Err::<(), SgxStatus>(SgxStatus::Unexpected),
{
    match reply {
        Some(r) => r,
        None => Err(SgxStatus::Unexpected),
    }
}

/// The outcome of asking the enclave to validate a random value. `reply` is
/// `None` when the enclave's entry point could not be found, which is
/// `Unexpected`.
pub fn enclave_validate_random(reply: Option<Result<(), SgxStatus>>) -> (outcome: Result<(), SgxStatus>)
    ensures
        reply matches Some(r) ==> outcome == r,
        reply is None ==> outcome == Err::<(), SgxStatus>(SgxStatus::Unexpected),
{
    match reply {
        Some(r) => r,
        None => Err(SgxStatus::Unexpected),
    }
}

/// The host's answer to a validation request: whether the enclave accepted.
pub fn validation_accepted(outcome: Result<(), SgxStatus>) -> (accepted: bool)
    ensures
        accepted == outcome is Ok,
{
    outcome.is_ok()
}

/// An enclave failure, described by `description`, as the host reports it.
pub fn enclave_err<T>(outcome: Result<T, String>) -> (reported: Result<T, HostError>)
    ensures
        outcome matches Ok(v) ==> (reported matches Ok(w) && w == v),
        outcome matches Err(d) ==> (reported matches Err(HostError::EnclaveErr { msg }) && msg@ == d@),
{
    match outcome {
        Ok(v) => Ok(v),
        Err(d) => Err(HostError::EnclaveErr { msg: d }),
    }
}

/// The transactions scheduled for implicit execution, as the host keeps
/// them (serialized Tendermint data).
pub struct ScheduledTxs {
    data: Vec<u8>,
}

impl View for ScheduledTxs {
    type V = Seq<u8>;

    closed spec fn view(&self) -> Seq<u8> {
        self.data@
    }
}

impl ScheduledTxs {
    /// An empty store.
    pub fn new() -> (store: ScheduledTxs)
        ensures
            store@ == Seq::<u8>::empty(),
    {
        ScheduledTxs { data: Vec::new() }
    }
}

/// What the store holds after a request to store `txs_data`: the new data,
/// or what it held before when the request is refused.
pub open spec fn scheduled_after_set(before: Seq<u8>, txs_data: Option<Seq<u8>>) -> Seq<u8> {
    match txs_data {
        Some(d) => d,
        None => before,
    }
}

/// Stores `txs_data` in place of what was scheduled before; a null or empty
/// buffer (`None`) is refused with `EmptyArg("scheduled_transactions")` and
/// leaves the store as it was.
pub fn set_scheduled_txs(store: &mut ScheduledTxs, txs_data: Option<&[u8]>) -> (outcome: Result<(), HostError>)
    ensures
        final(store)@ == scheduled_after_set(old(store)@, crate::enclave::buf_view(txs_data)),
        txs_data matches Some(d) ==> final(store)@ == d@,
        txs_data is None ==> final(store)@ == old(store)@,
        txs_data is Some ==> outcome is Ok,
        txs_data is None ==> (outcome matches Err(HostError::EmptyArg { name })
            && name@ == "scheduled_transactions"@),
{
    let data_bytes = match txs_data {
        Some(d) => d,
        None => return Err(HostError::EmptyArg { name: "scheduled_transactions".to_owned() }),
    };
    let mut copy: Vec<u8> = Vec::new();
    let mut i: usize = 0;
    while i < data_bytes.len()
        invariant
            i <= data_bytes@.len(),
            copy@ == data_bytes@.subrange(0, i as int),
        decreases data_bytes@.len() - i,
    {
        copy.push(data_bytes[i]);
        i = i + 1;
        assert(data_bytes@.subrange(0, i as int) =~= data_bytes@.subrange(0, i - 1) + seq![data_bytes@[i - 1]]);
    }
    assert(data_bytes@.subrange(0, data_bytes@.len() as int) =~= data_bytes@);
    store.data = copy;
    Ok(())
}

/// A copy of the scheduled transactions.
pub fn get_scheduled_txs(store: &ScheduledTxs) -> (txs: Vec<u8>)
    ensures
        txs@ == store@,
{
    let mut copy: Vec<u8> = Vec::new();
    let mut i: usize = 0;
    while i < store.data.len()
        invariant
            i <= store.data@.len(),
            copy@ == store.data@.subrange(0, i as int),
        decreases store.data@.len() - i,
    {
        copy.push(store.data[i]);
        i = i + 1;
        assert(store.data@.subrange(0, i as int) =~= store.data@.subrange(0, i - 1) + seq![store.data@[i - 1]]);
    }
    assert(store.data@.subrange(0, store.data@.len() as int) =~= store.data@);
    copy
}

/// Reading the scheduled transactions after storing some gives back exactly
/// what was stored, whatever was there before.
pub proof fn lemma_read_after_store(before: Seq<u8>, data: Seq<u8>)
    ensures
        scheduled_after_set(before, Some(data)) == data,
{
}

/// A refused request leaves the stored transactions as they were.
pub proof fn lemma_refused_store_keeps(before: Seq<u8>)
    ensures
        scheduled_after_set(before, None) == before,
{
}

/// Of two stores, the later one wins.
pub proof fn lemma_last_store_wins(before: Seq<u8>, first: Seq<u8>, second: Seq<u8>)
    ensures
        scheduled_after_set(scheduled_after_set(before, Some(first)), Some(second)) == second,
{
}

} // verus!
