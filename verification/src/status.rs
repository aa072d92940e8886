use vstd::prelude::*;

verus! {

/// The status codes that the enclave's entry points return.
#[derive(Debug, Clone, Copy, PartialEq, Eq, Structural)]
pub enum SgxStatus {
    Success,
    Unexpected,
    InvalidParameter,
    InvalidSignature,
    EnclaveFileAccess,
    /// Any other status, by its numeric code.
    Other(u32),
}

/// Liveness probe of the enclave: it always answers with success.
pub fn ecall_health_check() -> (status: SgxStatus)
    ensures
        status == SgxStatus::Success,
{
    SgxStatus::Success
}

} // verus!
