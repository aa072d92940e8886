//! Verified core of an SGX randomness service: the enclave produces an
//! encrypted random value together with a proof that binds it to a block
//! height and block hash, and validates such pairs later; the host side keeps
//! the scheduled transactions and maps enclave replies to its own errors.

pub mod binding;
pub mod crypto;
pub mod enclave;
pub mod host;
pub mod random;
pub mod status;
pub mod storage;
pub mod validator_set;

pub use status::SgxStatus;
