//! A forward-only reader of the items of a class file.

use crate::class::format::{be_u16, be_u32, be_u64, string_at};
use crate::class::LoadError;
use vstd::prelude::*;
use vstd::slice::{slice_subrange, slice_to_vec};
use vstd::utf8::{decode_utf8, valid_utf8};

verus! {

/// Decodes UTF-8 with `String::from_utf8`. Trusted: the result is `Some`
/// exactly when the bytes are valid UTF-8, and then holds the characters
/// that they encode.
#[verifier::external_body]
fn text_from_utf8(bytes: Vec<u8>) -> (r: Option<String>)
    ensures
        r is Some <==> valid_utf8(bytes@),
        r matches Some(s) ==> s@ == decode_utf8(bytes@),
{
    match String::from_utf8(bytes) {
        Ok(s) => Some(s),
        Err(_) => None,
    }
}

/// A reader over the bytes of a class file. Each read starts where the one
/// before it ended; a read that the remaining bytes cannot serve fails and
/// leaves the position where it was.
pub struct ClassFileReader<'a> {
    bytes: &'a [u8],
    pos: usize,
}

impl<'a> ClassFileReader<'a> {
    #[verifier::type_invariant]
    spec fn in_bounds(&self) -> bool {
        self.pos <= self.bytes@.len()
    }

    /// The bytes that are read.
    pub closed spec fn source(&self) -> Seq<u8> {
        self.bytes@
    }

    /// The offset of the next byte to read.
    pub closed spec fn position(&self) -> int {
        self.pos as int
    }

    /// Whether `n` more bytes can be read.
    pub open spec fn has(&self, n: int) -> bool {
        self.position() + n <= self.source().len()
    }

    /// The reader is as it was, and the read failed for want of `n` bytes.
    pub open spec fn stays_short_of(&self, before: &Self, n: int) -> bool {
        &&& !before.has(n)
        &&& self.source() == before.source()
        &&& self.position() == before.position()
    }

    /// The reader has moved `n` bytes on.
    pub open spec fn moved_from(&self, before: &Self, n: int) -> bool {
        &&& before.has(n)
        &&& self.source() == before.source()
        &&& self.position() == before.position() + n
    }

    /// A reader at the start of `bytes`.
    pub fn new(bytes: &'a [u8]) -> (r: Self)
        ensures
            r.source() == bytes@,
            r.position() == 0,
    {
        ClassFileReader { bytes, pos: 0 }
    }

    /// The offset of the next byte to read.
    pub fn offset(&self) -> (r: usize)
        ensures
            r == self.position(),
            r <= self.source().len(),
    {
        proof {
            use_type_invariant(self);
        }
        self.pos
    }

    /// Reads one byte.
    pub fn u1(&mut self) -> (r: Result<u8, LoadError>)
        ensures
            match r {
                Ok(v) => final(self).moved_from(old(self), 1)
                    && v == old(self).source()[old(self).position()],
                Err(e) => e == LoadError::Truncated && final(self).stays_short_of(old(self), 1),
            },
    {
        proof {
            use_type_invariant(&*self);
        }
        if self.bytes.len() - self.pos < 1 {
            return Err(LoadError::Truncated);
        }
        let v = self.bytes[self.pos];
        self.pos = self.pos + 1;
        Ok(v)
    }

    /// Reads a big-endian number of two bytes.
    pub fn u2(&mut self) -> (r: Result<u16, LoadError>)
        ensures
            match r {
                Ok(v) => final(self).moved_from(old(self), 2) && v == be_u16(
                    old(self).source(),
                    old(self).position(),
                ),
                Err(e) => e == LoadError::Truncated && final(self).stays_short_of(old(self), 2),
            },
    {
        proof {
            use_type_invariant(&*self);
        }
        if self.bytes.len() - self.pos < 2 {
            return Err(LoadError::Truncated);
        }
        let hi = self.bytes[self.pos] as u16;
        let lo = self.bytes[self.pos + 1] as u16;
        self.pos = self.pos + 2;
        Ok(hi * 0x100 + lo)
    }

    /// Reads a big-endian number of four bytes.
    pub fn u4(&mut self) -> (r: Result<u32, LoadError>)
        ensures
            match r {
                Ok(v) => final(self).moved_from(old(self), 4) && v == be_u32(
                    old(self).source(),
                    old(self).position(),
                ),
                Err(e) => e == LoadError::Truncated && final(self).stays_short_of(old(self), 4),
            },
    {
        proof {
            use_type_invariant(&*self);
        }
        if self.bytes.len() - self.pos < 4 {
            return Err(LoadError::Truncated);
        }
        let hi = match self.u2() {
            Ok(v) => v as u32,
            Err(e) => {
                return Err(e);
            },
        };
        let lo = match self.u2() {
            Ok(v) => v as u32,
            Err(e) => {
                return Err(e);
            },
        };
        Ok(hi * 0x1_0000 + lo)
    }

    /// Reads a big-endian number of eight bytes.
    pub fn u8(&mut self) -> (r: Result<u64, LoadError>)
        ensures
            match r {
                Ok(v) => final(self).moved_from(old(self), 8) && v == be_u64(
                    old(self).source(),
                    old(self).position(),
                ),
                Err(e) => e == LoadError::Truncated && final(self).stays_short_of(old(self), 8),
            },
    {
        proof {
            use_type_invariant(&*self);
        }
        if self.bytes.len() - self.pos < 8 {
            return Err(LoadError::Truncated);
        }
        let hi = match self.u4() {
            Ok(v) => v as u64,
            Err(e) => {
                return Err(e);
            },
        };
        let lo = match self.u4() {
            Ok(v) => v as u64,
            Err(e) => {
                return Err(e);
            },
        };
        Ok(hi * 0x1_0000_0000 + lo)
    }

    /// Reads `count` bytes as they are.
    pub fn bytes(&mut self, count: usize) -> (r: Result<Vec<u8>, LoadError>)
        ensures
            match r {
                Ok(v) => final(self).moved_from(old(self), count as int)
                    && v@ == old(self).source().subrange(
                    old(self).position(),
                    old(self).position() + count,
                ),
                Err(e) => e == LoadError::Truncated && final(self).stays_short_of(
                    old(self),
                    count as int,
                ),
            },
    {
        proof {
            use_type_invariant(&*self);
        }
        if self.bytes.len() - self.pos < count {
            return Err(LoadError::Truncated);
        }
        let v = slice_to_vec(slice_subrange(self.bytes, self.pos, self.pos + count));
        self.pos = self.pos + count;
        Ok(v)
    }

    /// Reads `count` bytes of UTF-8 as text. The position moves on only if
    /// the bytes are there and are valid.
    pub fn string(&mut self, count: usize) -> (r: Result<String, LoadError>)
        ensures
            final(self).source() == old(self).source(),
            match string_at(old(self).source(), old(self).position(), count as int) {
                Ok((s, next)) => r is Ok && r->Ok_0@ == s && final(self).position() == next,
                Err(e) => r == Err::<String, LoadError>(e)
                    && final(self).position() == old(self).position(),
            },
    {
        proof {
            use_type_invariant(&*self);
        }
        if self.bytes.len() - self.pos < count {
            return Err(LoadError::Truncated);
        }
        let raw = slice_to_vec(slice_subrange(self.bytes, self.pos, self.pos + count));
        match text_from_utf8(raw) {
            Some(s) => {
                self.pos = self.pos + count;
                Ok(s)
            },
            None => Err(LoadError::InvalidText),
        }
    }
}

} // verus!
