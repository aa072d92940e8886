//! Sealing data to a file, driven step by step: the file layer performs each
//! action and reports back how it went.

use vstd::prelude::*;

verus! {

/// Why sealing failed.
#[derive(Debug, Clone, Copy, PartialEq, Eq, Structural)]
pub enum StorageError {
    GenericError,
}

/// What the file layer reports to the sealing routine.
#[derive(Debug, Clone, Copy, PartialEq, Eq, Structural)]
pub enum SealEvent {
    /// Sealing is asked for.
    Start,
    /// Creating the sealed file succeeded (`true`) or failed.
    Created(bool),
    /// Writing all the data succeeded (`true`) or failed.
    Written(bool),
}

/// What the sealing routine asks of the file layer next.
#[derive(Debug, Clone, Copy, PartialEq, Eq)]
pub enum SealAction<'a> {
    /// Create (or truncate) the sealed file at this path.
    CreateFile(&'a str),
    /// Write all these bytes to the file just created.
    WriteAll(&'a [u8]),
    /// Sealing is over, with this outcome.
    Finish(Result<(), StorageError>),
}

/// The step that follows `event` when sealing `data` to `filepath`.
pub open spec fn seal_step<'a>(data: &'a [u8], filepath: &'a str, event: SealEvent) -> SealAction<'a> {
    match event {
        SealEvent::Start => SealAction::CreateFile(filepath),
        SealEvent::Created(true) => SealAction::WriteAll(data),
        SealEvent::Created(false) => SealAction::Finish(Err(StorageError::GenericError)),
        SealEvent::Written(true) => SealAction::Finish(Ok(())),
        SealEvent::Written(false) => SealAction::Finish(Err(StorageError::GenericError)),
    }
}

/// The next step of sealing `data` to `filepath` after `event`: create the
/// file, then write all of `data` to it; a failure of either step ends
/// sealing with `GenericError`.
pub fn seal<'a>(data: &'a [u8], filepath: &'a str, event: SealEvent) -> (action: SealAction<'a>)
    ensures
        action == seal_step(data, filepath, event),
{
    match event {
        SealEvent::Start => SealAction::CreateFile(filepath),
        SealEvent::Created(true) => SealAction::WriteAll(data),
        SealEvent::Created(false) => SealAction::Finish(Err(StorageError::GenericError)),
        SealEvent::Written(true) => SealAction::Finish(Ok(())),
        SealEvent::Written(false) => SealAction::Finish(Err(StorageError::GenericError)),
    }
}

/// Sealing first asks to create the file at the given path; when creating
/// fails it ends with `GenericError` and writes nothing; when creating
/// succeeds it asks to write exactly the data, and ends with success when
/// and only when the write succeeds.
pub proof fn lemma_seal_protocol(data: &[u8], filepath: &str, created: bool, written: bool)
    ensures
        seal_step(data, filepath, SealEvent::Start) == SealAction::CreateFile(filepath),
        !created ==> seal_step(data, filepath, SealEvent::Created(created))
            == SealAction::<'_>::Finish(Err(StorageError::GenericError)),
        created ==> seal_step(data, filepath, SealEvent::Created(created)) == SealAction::WriteAll(data),
        (seal_step(data, filepath, SealEvent::Written(written)) == SealAction::<'_>::Finish(Ok(()))) == written,
        !written ==> seal_step(data, filepath, SealEvent::Written(written))
            == SealAction::<'_>::Finish(Err(StorageError::GenericError)),
{
}

} // verus!
