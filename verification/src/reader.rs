//! A cursor over a borrowed byte slice: the input side of every decoder.

use vstd::prelude::*;
use vstd::slice::slice_subrange;
use crate::error::CodecError;

verus! {

/// A read position in a byte slice. The bytes from the position to the end
/// of the slice are what remains to be read.
pub struct ByteReader<'a> {
    data: &'a [u8],
    pos: usize,
}

impl<'a> ByteReader<'a> {
    #[verifier::type_invariant]
    spec fn in_bounds(self) -> bool {
        self.pos <= self.data@.len()
    }

    /// The bytes not yet read.
    pub closed spec fn remaining(self) -> Seq<u8> {
        self.data@.skip(self.pos as int)
    }

    /// How many bytes have been read.
    pub closed spec fn consumed(self) -> nat {
        self.pos as nat
    }

    /// A reader at the start of `data`.
    pub fn new(data: &'a [u8]) -> (r: Self)
        ensures
            r.remaining() == data@,
            r.consumed() == 0,
    {
        let r = ByteReader { data, pos: 0 };
        assert(data@.skip(0) =~= data@);
        r
    }

    /// A second reader at the position of this one, over the same bytes.
    pub fn fork(&self) -> (r: Self)
        ensures
            r == *self,
    {
        proof {
            use_type_invariant(self);
        }
        ByteReader { data: self.data, pos: self.pos }
    }

    /// Number of bytes not yet read.
    pub fn remaining_len(&self) -> (n: usize)
        ensures
            n == self.remaining().len(),
    {
        proof {
            use_type_invariant(self);
        }
        self.data.len() - self.pos
    }

    /// Number of bytes read so far.
    pub fn position(&self) -> (n: usize)
        ensures
            n == self.consumed(),
    {
        self.pos
    }

    /// The byte `offset` places ahead of the position, if the input reaches
    /// that far. Reads nothing.
    pub fn peek(&self, offset: usize) -> (b: Option<u8>)
        ensures
            b == if offset < self.remaining().len() {
                Some(self.remaining()[offset as int])
            } else {
                None
            },
    {
        proof {
            use_type_invariant(self);
        }
        if offset < self.data.len() - self.pos {
            Some(self.data[self.pos + offset])
        } else {
            None
        }
    }

    /// Moves the position `n` bytes ahead, or fails as truncated and stays
    /// in place if fewer than `n` bytes remain.
    pub fn skip(&mut self, n: usize) -> (r: Result<(), CodecError>)
        ensures
            final(self).consumed() + final(self).remaining().len()
                == old(self).consumed() + old(self).remaining().len(),
            n <= old(self).remaining().len()
                ==> r is Ok
                    && final(self).remaining() == old(self).remaining().skip(n as int)
                    && final(self).consumed() == old(self).consumed() + n,
            n > old(self).remaining().len() ==> r == Err::<(), CodecError>(CodecError::Truncated)
                && *final(self) == *old(self),
    {
        proof {
            use_type_invariant(&*self);
        }
        if n <= self.data.len() - self.pos {
            assert(self.data@.skip(self.pos as int).skip(n as int) =~= self.data@.skip(
                self.pos + n,
            ));
            self.pos = self.pos + n;
            Ok(())
        } else {
            Err(CodecError::Truncated)
        }
    }

    /// Reads the next `n` bytes, or fails as truncated and stays in place if
    /// fewer remain.
    pub fn take(&mut self, n: usize) -> (r: Result<&'a [u8], CodecError>)
        ensures
            final(self).consumed() + final(self).remaining().len()
                == old(self).consumed() + old(self).remaining().len(),
            n <= old(self).remaining().len()
                ==> r is Ok
                    && r.unwrap()@ == old(self).remaining().take(n as int)
                    && final(self).remaining() == old(self).remaining().skip(n as int)
                    && final(self).consumed() == old(self).consumed() + n,
            n > old(self).remaining().len() ==> r == Err::<&[u8], CodecError>(
                CodecError::Truncated,
            ) && *final(self) == *old(self),
    {
        proof {
            use_type_invariant(&*self);
        }
        if n <= self.data.len() - self.pos {
            let out = slice_subrange(self.data, self.pos, self.pos + n);
            assert(self.data@.skip(self.pos as int).skip(n as int) =~= self.data@.skip(
                self.pos + n,
            ));
            assert(out@ =~= self.data@.skip(self.pos as int).take(n as int));
            self.pos = self.pos + n;
            Ok(out)
        } else {
            Err(CodecError::Truncated)
        }
    }
}

} // verus!
