//! The two draws of randomness that this crate makes.

use vstd::prelude::*;
use rand::Rng;
use rand::RngCore;

verus! {

/// Length in bytes of the secret from which a key pair is derived.
pub const SEED_LENGTH: usize = 32;

/// A number below `bound`, from `rand::Rng::gen_range` on `rand::thread_rng()`
/// with the range `0..bound`. `gen_range` panics on an empty range, which
/// `bound > 0` rules out; its result lies in the range.
#[verifier::external_body]
pub(crate) fn random_below(bound: u32) -> (r: u32)
    requires
        bound > 0,
    ensures
        r < bound,
{
    rand::thread_rng().gen_range(0..bound)
}

/// Fresh secret bytes, from `rand::RngCore::try_fill_bytes` on
/// `rand::rngs::OsRng` over a buffer of `SEED_LENGTH` bytes. `None` where the
/// system's source fails; otherwise the buffer, whose length is all that is
/// known of it.
#[verifier::external_body]
pub(crate) fn random_seed() -> (r: Option<Vec<u8>>)
    ensures
        r matches Some(seed) ==> seed@.len() == SEED_LENGTH,
{
    let mut seed = vec![0u8; SEED_LENGTH];
    match rand::rngs::OsRng.try_fill_bytes(&mut seed) {
        Ok(()) => Some(seed),
        Err(_) => None,
    }
}

} // verus!
