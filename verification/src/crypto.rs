//! Trusted bindings to the hash function and the deterministic cipher that
//! the enclave uses. Everything else in the crate is proved against the names
//! declared here.

use vstd::prelude::*;
use sha2::Digest;
use aes_siv::KeyInit;

verus! {

/// The SHA-256 digest of a byte string.
pub uninterp spec fn sha256_of(data: Seq<u8>) -> Seq<u8>;

/// The output of AES-CMAC-SIV with a 256-bit combined key (`Aes128Siv`) on
/// one header of associated data: the 16-byte synthetic IV followed by the
/// ciphertext.
pub uninterp spec fn aes128_siv_seal(key: Seq<u8>, ad: Seq<u8>, plaintext: Seq<u8>) -> Seq<u8>;

/// Calls `sha2::Sha256::digest`. Trusted: the 32-byte result is the SHA-256
/// digest of `data`, a function of `data` alone.
#[verifier::external_body]
pub(crate) fn sha_256(data: &[u8]) -> (digest: [u8; 32])
    ensures
        digest@ == sha256_of(data@),
{
    sha2::Sha256::digest(data).into()
}

/// Calls `aes_siv::siv::Aes128Siv::new(key).encrypt([ad], plaintext)`.
/// Trusted: `encrypt` fails only when more than `MAX_HEADERS` (126) headers
/// are given, and one is given here, so the result is present; it is
/// deterministic in the key, the header and the plaintext, and it is the
/// 16-byte tag followed by a ciphertext as long as the plaintext.
#[verifier::external_body]
pub(crate) fn encrypt_siv(key: &[u8; 32], ad: &[u8], plaintext: &[u8]) -> (sealed: Option<Vec<u8>>)
    ensures
        sealed is Some,
        sealed matches Some(c) ==> c@ == aes128_siv_seal(key@, ad@, plaintext@),
        sealed matches Some(c) ==> c@.len() == plaintext@.len() + 16,
{
    let mut cipher = aes_siv::siv::Aes128Siv::new(&(*key).into());
    cipher.encrypt([ad], plaintext).ok()
}

} // verus!
