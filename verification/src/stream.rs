//! The finite byte stream that a harness supplies, and the error a
//! generation attempt can report.

use vstd::prelude::*;

verus! {

/// Why a generation attempt failed.
#[derive(Clone, Copy, Debug, PartialEq, Eq, Structural)]
pub enum GenerationError {
    /// The stream holds strictly fewer bytes than the requested material
    /// needs.  Recoverable: the stream was simply too short.
    Exhausted,
    /// An underlying domain-object constructor reported a failure unrelated
    /// to the stream.  Reserved for the layer that turns a finished plan
    /// into domain values; deriving a plan itself never reports it.
    Construction,
}

/// A finite, ordered sequence of bytes with a cursor that advances
/// monotonically: bytes are consumed left to right and never rewound.
///
/// One generation call owns the cursor exclusively and consumes a prefix of
/// the stream; on failure the cursor is left exactly where it was, so a
/// caller observes either a fully consumed prefix or no consumption at all.
pub struct ByteStream {
    data: Vec<u8>,
    pos: usize,
}

impl ByteStream {
    /// The cursor never passes the end of the data.
    pub closed spec fn wf(self) -> bool {
        self.pos <= self.data@.len()
    }

    /// The bytes not yet consumed, in order.
    pub closed spec fn rest(self) -> Seq<u8> {
        self.data@.skip(self.pos as int)
    }

    /// A fresh stream over `data`, with nothing consumed yet.
    pub fn new(data: Vec<u8>) -> (s: ByteStream)
        ensures
            s.wf(),
            s.rest() == data@,
    {
        let s = ByteStream { data, pos: 0 };
        proof {
            assert(s.rest() =~= s.data@);
        }
        s
    }

    /// How many bytes are still available.
    pub fn remaining(&self) -> (n: usize)
        requires
            self.wf(),
        ensures
            n == self.rest().len(),
    {
        self.data.len() - self.pos
    }

    /// Consume the next `n` bytes and hand them out in order; if fewer than
    /// `n` remain, report exhaustion and leave the stream untouched.
    pub fn read_bytes(&mut self, n: usize) -> (r: Result<Vec<u8>, GenerationError>)
        requires
            old(self).wf(),
        ensures
            final(self).wf(),
            old(self).rest().len() >= n ==> (r matches Ok(taken)
                && taken@ == old(self).rest().take(n as int)
                && final(self).rest() == old(self).rest().skip(n as int)),
            old(self).rest().len() < n ==> (r matches Err(e)
                && e == GenerationError::Exhausted
                && *final(self) == *old(self)),
    {
        if n > self.data.len() - self.pos {
            return Err(GenerationError::Exhausted);
        }
        let mut taken: Vec<u8> = Vec::new();
        let mut i: usize = 0;
        while i < n
            invariant
                i <= n,
                self.data == old(self).data,
                self.pos == old(self).pos,
                self.pos + n <= self.data@.len(),
                self.pos + n <= usize::MAX,
                taken@ =~= self.data@.subrange(self.pos as int, self.pos + i as int),
            decreases n - i,
        {
            let b = self.data[self.pos + i];
            taken.push(b);
            i += 1;
        }
        self.pos = self.pos + n;
        proof {
            assert(taken@ =~= old(self).rest().take(n as int));
            assert(self.rest() =~= old(self).rest().skip(n as int));
        }
        Ok(taken)
    }

    /// Consume the next byte; if none remains, report exhaustion and leave
    /// the stream untouched.
    pub fn read_byte(&mut self) -> (r: Result<u8, GenerationError>)
        requires
            old(self).wf(),
        ensures
            final(self).wf(),
            old(self).rest().len() >= 1 ==> (r matches Ok(b)
                && b == old(self).rest()[0]
                && final(self).rest() == old(self).rest().skip(1)),
            old(self).rest().len() == 0 ==> (r matches Err(e)
                && e == GenerationError::Exhausted
                && *final(self) == *old(self)),
    {
        if self.pos >= self.data.len() {
            return Err(GenerationError::Exhausted);
        }
        let b = self.data[self.pos];
        self.pos = self.pos + 1;
        proof {
            assert(self.rest() =~= old(self).rest().skip(1));
        }
        Ok(b)
    }
}

} // verus!
