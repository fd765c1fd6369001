//! Randomness from the operating system.

use aes_gcm::aead::rand_core::RngCore;
use aes_gcm::aead::OsRng;
use vstd::prelude::*;

verus! {

/// `OsRng::try_fill_bytes` of `rand_core`, on a fresh buffer of `len` bytes.
/// The bytes are random, so only their number is stated; `None` means that
/// the operating system gave no randomness.
#[verifier::external_body]
pub(crate) fn os_random_bytes(len: usize) -> (r: Option<Vec<u8>>)
    ensures
        r matches Some(bytes) ==> bytes@.len() == len,
{
    let mut bytes = vec![0u8; len];
    OsRng.try_fill_bytes(&mut bytes).ok().map(|_| bytes)
}

} // verus!
