//! The fixed-size seed block: the sole source of randomness for one
//! derived sub-generator.

use vstd::prelude::*;
use crate::chacha::chacha_of_seed;
use crate::chacha::chacha_from_seed;
use crate::stream::ByteStream;
use crate::stream::GenerationError;

verus! {

/// How many bytes a sub-generator seed consumes from the stream.
pub const SEED_BYTES: usize = 32;

/// A fixed-length block of bytes consumed from the input stream; it fully
/// determines the sub-generator derived from it, and with it everything
/// that sub-generator is used to construct.
#[derive(Clone, Debug, PartialEq, Eq, Hash)]
pub struct Seed {
    bytes: Vec<u8>,
}

impl View for Seed {
    type V = Seq<u8>;

    closed spec fn view(&self) -> Seq<u8> {
        self.bytes@
    }
}

impl Seed {
    /// A seed always holds exactly `SEED_BYTES` bytes.
    pub open spec fn wf(self) -> bool {
        self@.len() == SEED_BYTES
    }

    /// Consume exactly `SEED_BYTES` bytes from the stream; if fewer remain,
    /// report exhaustion and leave the stream untouched.
    pub fn from_stream(stream: &mut ByteStream) -> (r: Result<Seed, GenerationError>)
        requires
            old(stream).wf(),
        ensures
            final(stream).wf(),
            old(stream).rest().len() >= SEED_BYTES ==> (r matches Ok(s)
                && s.wf()
                && s@ == old(stream).rest().take(SEED_BYTES as int)
                && final(stream).rest() == old(stream).rest().skip(SEED_BYTES as int)),
            old(stream).rest().len() < SEED_BYTES ==> (r matches Err(e)
                && e == GenerationError::Exhausted
                && *final(stream) == *old(stream)),
    {
        let bytes = stream.read_bytes(SEED_BYTES)?;
        Ok(Seed { bytes })
    }

    /// Build a seed from a block of exactly `SEED_BYTES` bytes that was
    /// obtained elsewhere, for wrapping externally produced values.
    pub fn from_bytes(bytes: Vec<u8>) -> (s: Seed)
        requires
            bytes@.len() == SEED_BYTES,
        ensures
            s.wf(),
            s@ == bytes@,
    {
        Seed { bytes }
    }

    /// The seed's bytes, in the order they were consumed.
    pub fn as_bytes(&self) -> (r: &[u8])
        ensures
            r@ == self@,
    {
        self.bytes.as_slice()
    }

    /// Derive the deterministic sub-generator keyed by this seed.  Equal
    /// seeds give equal generators, so every value drawn downstream is a
    /// pure function of the stream bytes.
    pub fn sub_generator(&self) -> (r: rand_chacha::ChaCha20Rng)
        requires
            self.wf(),
        ensures
            r == chacha_of_seed(self@),
    {
        chacha_from_seed(self.bytes.as_slice())
    }
}

} // verus!
