//! A cursor over the bytes of a stream held in memory.

use vstd::prelude::*;
use crate::error::Error;

verus! {

/// A read position in a byte stream. The position never passes the end.
pub struct Reader<'a> {
    data: &'a [u8],
    pos: usize,
}

impl<'a> Reader<'a> {
    #[verifier::type_invariant]
    spec fn inv(self) -> bool {
        self.pos <= self.data@.len()
    }

    /// The whole stream, from its first byte.
    pub closed spec fn bytes(self) -> Seq<u8> {
        self.data@
    }

    /// The offset of the next byte to be read.
    pub closed spec fn position(self) -> int {
        self.pos as int
    }

    /// The bytes not yet read.
    pub open spec fn rest(self) -> Seq<u8> {
        self.bytes().skip(self.position())
    }

    /// A cursor at the start of `data`.
    pub fn new(data: &'a [u8]) -> (r: Self)
        ensures
            r.bytes() == data@,
            r.position() == 0,
    {
        Reader { data, pos: 0 }
    }

    /// The offset of the next byte to be read.
    pub fn stream_position(&self) -> (p: usize)
        ensures
            p == self.position(),
            p <= self.bytes().len(),
    {
        proof {
            use_type_invariant(self);
        }
        self.pos
    }

    /// The number of bytes not yet read.
    pub fn remaining(&self) -> (n: usize)
        ensures
            n == self.bytes().len() - self.position(),
            n == self.rest().len(),
    {
        proof {
            use_type_invariant(self);
        }
        self.data.len() - self.pos
    }

    /// Takes the next `n` bytes and moves past them. With fewer than `n`
    /// bytes left nothing is consumed and the failure names the position.
    pub fn read_exact(&mut self, n: usize) -> (r: Result<&'a [u8], Error>)
        ensures
            final(self).bytes() == old(self).bytes(),
            match r {
                Ok(taken) => {
                    &&& n <= old(self).rest().len()
                    &&& taken@ == old(self).rest().take(n as int)
                    &&& final(self).position() == old(self).position() + n
                    &&& final(self).rest() == old(self).rest().skip(n as int)
                },
                Err(e) => {
                    &&& n > old(self).rest().len()
                    &&& e == (Error::Truncated { offset: e.offset() })
                    &&& e.offset() as int == old(self).position()
                    &&& final(self).position() == old(self).position()
                },
            },
    {
        proof {
            use_type_invariant(&*self);
        }
        if n > self.data.len() - self.pos {
            return Err(Error::Truncated { offset: self.pos });
        }
        let start: usize = self.pos;
        let end: usize = start + n;
        let data: &'a [u8] = self.data;
        let taken: &'a [u8] = &data[start..end];
        self.pos = end;
        Ok(taken)
    }
}

} // verus!
