//! The message that carries an encrypted random value and its proof.

use vstd::prelude::*;

verus! {

/// An encrypted random value with the proof that binds it to a block.
#[derive(Debug, Clone, PartialEq, Eq)]
pub struct EncryptedRandom {
    pub random: Vec<u8>,
    pub proof: Vec<u8>,
}

} // verus!
