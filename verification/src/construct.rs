//! The capability of being built from a byte stream.
//!
//! Every wrapper type implements this interface once; composite wrappers
//! invoke it recursively on their constituents instead of duplicating the
//! seed-derivation logic.  The contract is the same for every implementor:
//! a construction either consumes exactly `Self::min_bytes()` bytes and
//! returns the plan those bytes determine, or — when the stream holds
//! strictly fewer — consumes nothing and reports exhaustion.

use vstd::prelude::*;
use crate::stream::ByteStream;
use crate::stream::GenerationError;

verus! {

/// A value that can be constructed from a prefix of a byte stream, with
/// every observable component a pure function of the consumed bytes, so
/// that replaying an identical stream reproduces an identical value.
pub trait FromByteStream: Sized {
    /// How many bytes one construction consumes; a stream holding fewer
    /// is rejected as exhausted.
    spec fn min_bytes() -> nat;

    /// Whether `self` is the plan that the consumed prefix `bytes`
    /// determines.  Each implementor pins every observable component of
    /// the plan to the prefix, so the predicate leaves no freedom: it is
    /// what makes generation deterministic and reproducible.
    spec fn is_plan_of(self, bytes: Seq<u8>) -> bool;

    /// Construct one plan from the stream.  On success exactly
    /// `Self::min_bytes()` bytes are consumed, left to right, and the
    /// result is the plan they determine; on exhaustion the stream is
    /// left untouched, so a failed attempt has no observable effect.
    fn construct_from_stream(stream: &mut ByteStream) -> (r: Result<Self, GenerationError>)
        requires
            old(stream).wf(),
        ensures
            final(stream).wf(),
            old(stream).rest().len() >= Self::min_bytes() ==> (r matches Ok(w)
                && w.is_plan_of(old(stream).rest().take(Self::min_bytes() as int))
                && final(stream).rest() == old(stream).rest().skip(Self::min_bytes() as int)),
            old(stream).rest().len() < Self::min_bytes() ==> (r matches Err(e)
                && e == GenerationError::Exhausted
                && *final(stream) == *old(stream)),
    ;
}

} // verus!
