//! The keyed pseudorandom sub-generator: a ChaCha stream-cipher generator,
//! initialized from a fixed-size seed taken from the input stream.
//!
//! The generator state itself is opaque to this library; all that the
//! contracts rely on is that initialization is a pure function of the seed,
//! which is what makes generation reproducible from a recorded byte buffer.

use vstd::prelude::*;
use rand_chacha::rand_core::SeedableRng;

verus! {

#[verifier::external_type_specification]
#[verifier::external_body]
pub struct ExChaCha20Rng(rand_chacha::ChaCha20Rng);

/// The generator state that the ChaCha stream cipher derives from a 32-byte
/// seed.  Left uninterpreted: the cipher's key schedule is not restated
/// here; the contracts use only that equal seeds give equal states.
pub uninterp spec fn chacha_of_seed(seed: Seq<u8>) -> rand_chacha::ChaCha20Rng;

/// Relies on `ChaCha20Rng::from_seed` (`SeedableRng`): the generator state
/// is computed from the 32-byte seed alone, with no other source of
/// randomness, so the result is the same on every invocation.
#[verifier::external_body]
pub(crate) fn chacha_from_seed(seed: &[u8]) -> (r: rand_chacha::ChaCha20Rng)
    requires
        seed@.len() == 32,
    ensures
        r == chacha_of_seed(seed@),
{
    let mut block = [0u8; 32];
    block.copy_from_slice(seed);
    rand_chacha::ChaCha20Rng::from_seed(block)
}

} // verus!
