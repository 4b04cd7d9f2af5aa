//! A sequential reader over an immutable byte buffer, with big-endian
//! fixed-width reads and an exact-length bulk read, and the spec-level
//! reads the decoder contracts are stated over.

use vstd::prelude::*;

use crate::structure::DecodeError;

verus! {

/// The outcome of reading at a position of a byte sequence: a value together
/// with the position just past it, or the error the read fails with.
pub enum Parsed<T> {
    Found(T, int),
    Failed(DecodeError),
}

/// The 16-bit big-endian value of two bytes.
pub open spec fn u16_be_of(hi: u8, lo: u8) -> u16 {
    ((hi as int) * 0x100 + (lo as int)) as u16
}

/// The 32-bit big-endian value of four bytes.
pub open spec fn u32_be_of(b0: u8, b1: u8, b2: u8, b3: u8) -> u32 {
    ((b0 as int) * 0x1000000 + (b1 as int) * 0x10000 + (b2 as int) * 0x100 + (b3 as int)) as u32
}

/// One byte at position `i`, or `Truncated`.
pub open spec fn spec_u8_at(s: Seq<u8>, i: int) -> Parsed<u8> {
    if 0 <= i && i + 1 <= s.len() {
        Parsed::Found(s[i], i + 1)
    } else {
        Parsed::Failed(DecodeError::Truncated)
    }
}

/// A big-endian u16 at position `i`, or `Truncated`.
pub open spec fn spec_u16_at(s: Seq<u8>, i: int) -> Parsed<u16> {
    if 0 <= i && i + 2 <= s.len() {
        Parsed::Found(u16_be_of(s[i], s[i + 1]), i + 2)
    } else {
        Parsed::Failed(DecodeError::Truncated)
    }
}

/// A big-endian u32 at position `i`, or `Truncated`.
pub open spec fn spec_u32_at(s: Seq<u8>, i: int) -> Parsed<u32> {
    if 0 <= i && i + 4 <= s.len() {
        Parsed::Found(u32_be_of(s[i], s[i + 1], s[i + 2], s[i + 3]), i + 4)
    } else {
        Parsed::Failed(DecodeError::Truncated)
    }
}

/// Exactly `n` bytes starting at position `i`, or `Truncated`.
pub open spec fn spec_bytes_at(s: Seq<u8>, i: int, n: int) -> Parsed<Seq<u8>> {
    if 0 <= i && 0 <= n && i + n <= s.len() {
        Parsed::Found(s.subrange(i, i + n), i + n)
    } else {
        Parsed::Failed(DecodeError::Truncated)
    }
}

/// Sequential reader over a borrowed byte buffer. Each read consumes exactly
/// the requested width from the current position; a read past the end fails
/// with `Truncated` and the buffer is never copied or mutated.
pub struct Cursor<'a> {
    bytes: &'a [u8],
    pos: usize,
}

impl<'a> Cursor<'a> {
    /// The whole underlying buffer.
    pub closed spec fn data(&self) -> Seq<u8> {
        self.bytes@
    }

    /// How many bytes have been consumed so far.
    pub closed spec fn position(&self) -> int {
        self.pos as int
    }

    pub open spec fn well_formed(&self) -> bool {
        0 <= self.position() <= self.data().len()
    }

    pub fn new(bytes: &'a [u8]) -> (c: Cursor<'a>)
        ensures
            c.data() == bytes@,
            c.position() == 0,
            c.well_formed(),
    {
        Cursor { bytes, pos: 0 }
    }

    /// The consumed position, as a value.
    pub fn offset(&self) -> (r: usize)
        ensures
            r == self.position(),
    {
        self.pos
    }

    /// How many bytes are left to read.
    pub fn remaining(&self) -> (r: usize)
        requires
            self.well_formed(),
        ensures
            r == self.data().len() - self.position(),
    {
        self.bytes.len() - self.pos
    }

    pub fn read_u8(&mut self) -> (r: Result<u8, DecodeError>)
        requires
            old(self).well_formed(),
        ensures
            final(self).well_formed(),
            final(self).data() == old(self).data(),
            (match r {
                Ok(b) => spec_u8_at(old(self).data(), old(self).position())
                    == Parsed::Found(b, final(self).position()),
                Err(e) => spec_u8_at(old(self).data(), old(self).position())
                    == Parsed::<u8>::Failed(e),
            }),
    {
        if self.pos < self.bytes.len() {
            let b = self.bytes[self.pos];
            self.pos = self.pos + 1;
            Ok(b)
        } else {
            Err(DecodeError::Truncated)
        }
    }

    pub fn read_u16_be(&mut self) -> (r: Result<u16, DecodeError>)
        requires
            old(self).well_formed(),
        ensures
            final(self).well_formed(),
            final(self).data() == old(self).data(),
            (match r {
                Ok(v) => spec_u16_at(old(self).data(), old(self).position())
                    == Parsed::Found(v, final(self).position()),
                Err(e) => spec_u16_at(old(self).data(), old(self).position())
                    == Parsed::<u16>::Failed(e),
            }),
    {
        if self.bytes.len() - self.pos >= 2 {
            let hi = self.bytes[self.pos];
            let lo = self.bytes[self.pos + 1];
            self.pos = self.pos + 2;
            Ok((hi as u16) * 0x100 + (lo as u16))
        } else {
            Err(DecodeError::Truncated)
        }
    }

    pub fn read_u32_be(&mut self) -> (r: Result<u32, DecodeError>)
        requires
            old(self).well_formed(),
        ensures
            final(self).well_formed(),
            final(self).data() == old(self).data(),
            (match r {
                Ok(v) => spec_u32_at(old(self).data(), old(self).position())
                    == Parsed::Found(v, final(self).position()),
                Err(e) => spec_u32_at(old(self).data(), old(self).position())
                    == Parsed::<u32>::Failed(e),
            }),
    {
        if self.bytes.len() - self.pos >= 4 {
            let b0 = self.bytes[self.pos];
            let b1 = self.bytes[self.pos + 1];
            let b2 = self.bytes[self.pos + 2];
            let b3 = self.bytes[self.pos + 3];
            self.pos = self.pos + 4;
            Ok((b0 as u32) * 0x1000000 + (b1 as u32) * 0x10000 + (b2 as u32) * 0x100 + (b3 as u32))
        } else {
            Err(DecodeError::Truncated)
        }
    }

    /// Reads exactly `n` bytes into an owned vector.
    pub fn read_exact(&mut self, n: usize) -> (r: Result<Vec<u8>, DecodeError>)
        requires
            old(self).well_formed(),
        ensures
            final(self).well_formed(),
            final(self).data() == old(self).data(),
            (match r {
                Ok(v) => spec_bytes_at(old(self).data(), old(self).position(), n as int)
                    == Parsed::Found(v@, final(self).position()),
                Err(e) => spec_bytes_at(old(self).data(), old(self).position(), n as int)
                    == Parsed::<Seq<u8>>::Failed(e),
            }),
    {
        if self.bytes.len() - self.pos >= n {
            let ghost s = self.data();
            let ghost start = self.position();
            let end: usize = self.pos + n;
            let mut out: Vec<u8> = Vec::new();
            while self.pos < end
                invariant
                    self.data() == s,
                    start <= self.position() <= end <= s.len(),
                    end - start == n,
                    out@.len() == self.position() - start,
                    forall|j: int| 0 <= j < out@.len() ==> out@[j] == s[start + j],
                decreases end - self.position(),
            {
                let b = self.bytes[self.pos];
                out.push(b);
                self.pos = self.pos + 1;
            }
            proof {
                assert(out@ =~= s.subrange(start, start + n));
            }
            Ok(out)
        } else {
            Err(DecodeError::Truncated)
        }
    }
}

} // verus!
