//! A read position over a borrowed byte slice, with the reading operations
//! that frame decoding needs.

use vstd::prelude::*;

use crate::buf::{be_u32_value, copy_prefix, read_u32_be};

verus! {

/// A byte slice and a position in it. The position may lie past the end,
/// in which case nothing remains to be read.
pub struct ByteCursor<'a> {
    data: &'a [u8],
    pos: usize,
}

impl<'a> ByteCursor<'a> {
    /// The bytes the cursor reads from.
    pub closed spec fn data(&self) -> Seq<u8> {
        self.data@
    }

    /// The current position.
    pub closed spec fn pos(&self) -> nat {
        self.pos as nat
    }

    /// How many bytes lie between the position and the end.
    pub open spec fn remaining_spec(&self) -> nat {
        if self.pos() <= self.data().len() {
            (self.data().len() - self.pos()) as nat
        } else {
            0
        }
    }

    /// A cursor at the start of `data`.
    pub fn new(data: &'a [u8]) -> (c: Self)
        ensures
            c.data() == data@,
            c.pos() == 0,
    {
        ByteCursor { data, pos: 0 }
    }

    /// The slice the cursor reads from.
    pub fn get_ref(&self) -> (r: &'a [u8])
        ensures
            r@ == self.data(),
    {
        self.data
    }

    /// The current position.
    pub fn position(&self) -> (p: usize)
        ensures
            p == self.pos(),
    {
        self.pos
    }

    /// Moves the position to `pos`, wherever that is.
    pub fn set_position(&mut self, pos: usize)
        ensures
            final(self).data() == old(self).data(),
            final(self).pos() == pos,
    {
        self.pos = pos;
    }

    /// The number of bytes left to read.
    pub fn remaining(&self) -> (r: usize)
        ensures
            r == self.remaining_spec(),
    {
        if self.pos <= self.data.len() {
            self.data.len() - self.pos
        } else {
            0
        }
    }

    /// Skips `cnt` bytes.
    pub fn advance(&mut self, cnt: usize)
        requires
            cnt <= old(self).remaining_spec(),
        ensures
            final(self).data() == old(self).data(),
            final(self).pos() == old(self).pos() + cnt,
    {
        let n = self.data.len();
        if cnt > 0 {
            assert(self.pos + cnt <= n);
            self.pos = self.pos + cnt;
        }
    }

    /// Reads a big-endian `u32` and moves past it.
    pub fn get_u32(&mut self) -> (r: u32)
        requires
            old(self).remaining_spec() >= 4,
        ensures
            final(self).data() == old(self).data(),
            final(self).pos() == old(self).pos() + 4,
            r as int == be_u32_value(old(self).data().subrange(old(self).pos() as int, old(self).pos() + 4int)),
    {
        let rest = &self.data[self.pos..self.data.len()];
        let r = read_u32_be(rest);
        assert(rest@.subrange(0, 4) =~= self.data@.subrange(self.pos as int, self.pos + 4));
        self.pos = self.pos + 4;
        r
    }

    /// Reads the next `len` bytes into a new vector and moves past them.
    pub fn copy_to_vec(&mut self, len: usize) -> (v: Vec<u8>)
        requires
            len <= old(self).remaining_spec(),
        ensures
            final(self).data() == old(self).data(),
            final(self).pos() == old(self).pos() + len,
            v@.len() == len,
            old(self).pos() <= old(self).data().len() ==> v@ == old(self).data().subrange(
                old(self).pos() as int,
                old(self).pos() + len as int,
            ),
    {
        let start = if self.pos <= self.data.len() {
            self.pos
        } else {
            self.data.len()
        };
        let rest = &self.data[start..self.data.len()];
        let v = copy_prefix(rest, len);
        if len > 0 {
            assert(v@ =~= self.data@.subrange(self.pos as int, self.pos + len));
            self.pos = self.pos + len;
        }
        v
    }
}

} // verus!
