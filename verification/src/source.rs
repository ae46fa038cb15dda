use vstd::prelude::*;

use crate::errors::Error;

verus! {

/// The big-endian 16-bit value held at `pos`.
pub open spec fn be16(b: Seq<u8>, pos: int) -> int {
    b[pos] * 0x100 + b[pos + 1]
}

/// The big-endian 32-bit value held at `pos`.
pub open spec fn be32(b: Seq<u8>, pos: int) -> int {
    b[pos] * 0x1000000 + b[pos + 1] * 0x10000 + b[pos + 2] * 0x100 + b[pos + 3]
}

/// Reinterprets an unsigned 32-bit value as two's-complement signed.
pub open spec fn as_signed(v: int) -> int {
    if v < 0x8000_0000 {
        v
    } else {
        v - 0x1_0000_0000
    }
}

/// The big-endian signed 32-bit value held at `pos`.
pub open spec fn be_i32(b: Seq<u8>, pos: int) -> i32 {
    as_signed(be32(b, pos)) as i32
}

/// `n` more bytes can be read at `pos`.
pub open spec fn can_read(b: Seq<u8>, pos: int, n: int) -> bool {
    pos + n <= b.len()
}

/// A seekable in-memory byte source: the whole file as bytes, plus the
/// read position. Every decoder in this crate pulls its fixed-width
/// big-endian fields from one of these; running out of bytes is the
/// [`Error::Read`] failure of the error taxonomy.
pub struct Source {
    pub bytes: Vec<u8>,
    pub pos: usize,
}

impl Source {
    /// Wraps a byte buffer, positioned at its start.
    pub fn new(bytes: Vec<u8>) -> (r: Source)
        ensures
            r.bytes@ == bytes@,
            r.pos == 0,
    {
        Source { bytes, pos: 0 }
    }

    /// Rewinds to the start of the buffer.
    pub fn seek_start(&mut self)
        ensures
            final(self).bytes@ == old(self).bytes@,
            final(self).pos == 0,
    {
        self.pos = 0;
    }

    /// Moves the position `n` bytes forward, stopping at the end of the
    /// buffer, as seeking past the end of a file does not itself fail:
    /// the next read does.
    pub fn skip(&mut self, n: usize)
        ensures
            final(self).bytes@ == old(self).bytes@,
            final(self).pos == if old(self).pos + n <= old(self).bytes@.len() {
                old(self).pos + n
            } else {
                old(self).bytes@.len() as int
            },
    {
        let len = self.bytes.len();
        if self.pos <= len && n <= len - self.pos {
            self.pos = self.pos + n;
        } else {
            self.pos = len;
        }
    }

    /// Reads one byte.
    pub fn read_u8(&mut self) -> (r: Result<u8, Error>)
        ensures
            final(self).bytes@ == old(self).bytes@,
            can_read(old(self).bytes@, old(self).pos as int, 1) ==> {
                &&& r == Ok::<u8, Error>(old(self).bytes@[old(self).pos as int])
                &&& final(self).pos == old(self).pos + 1
            },
            !can_read(old(self).bytes@, old(self).pos as int, 1) ==> {
                &&& r == Err::<u8, Error>(Error::Read)
                &&& final(self).pos == old(self).pos
            },
    {
        let len = self.bytes.len();
        if self.pos < len {
            let v = self.bytes[self.pos];
            self.pos = self.pos + 1;
            Ok(v)
        } else {
            Err(Error::Read)
        }
    }

    /// Reads a big-endian unsigned 16-bit value.
    pub fn read_u16(&mut self) -> (r: Result<u16, Error>)
        ensures
            final(self).bytes@ == old(self).bytes@,
            can_read(old(self).bytes@, old(self).pos as int, 2) ==> {
                &&& r == Ok::<u16, Error>(be16(old(self).bytes@, old(self).pos as int) as u16)
                &&& final(self).pos == old(self).pos + 2
            },
            !can_read(old(self).bytes@, old(self).pos as int, 2) ==> {
                &&& r == Err::<u16, Error>(Error::Read)
                &&& final(self).pos == old(self).pos
            },
    {
        let len = self.bytes.len();
        if self.pos <= len && len - self.pos >= 2 {
            let b0 = self.bytes[self.pos];
            let b1 = self.bytes[self.pos + 1];
            let v: u16 = (b0 as u16) * 0x100 + (b1 as u16);
            self.pos = self.pos + 2;
            Ok(v)
        } else {
            Err(Error::Read)
        }
    }

    /// Reads a big-endian unsigned 32-bit value.
    pub fn read_u32(&mut self) -> (r: Result<u32, Error>)
        ensures
            final(self).bytes@ == old(self).bytes@,
            can_read(old(self).bytes@, old(self).pos as int, 4) ==> {
                &&& r == Ok::<u32, Error>(be32(old(self).bytes@, old(self).pos as int) as u32)
                &&& final(self).pos == old(self).pos + 4
            },
            !can_read(old(self).bytes@, old(self).pos as int, 4) ==> {
                &&& r == Err::<u32, Error>(Error::Read)
                &&& final(self).pos == old(self).pos
            },
    {
        let len = self.bytes.len();
        if self.pos <= len && len - self.pos >= 4 {
            let b0 = self.bytes[self.pos];
            let b1 = self.bytes[self.pos + 1];
            let b2 = self.bytes[self.pos + 2];
            let b3 = self.bytes[self.pos + 3];
            let v: u32 = (b0 as u32) * 0x1000000 + (b1 as u32) * 0x10000 + (b2 as u32) * 0x100
                + (b3 as u32);
            self.pos = self.pos + 4;
            Ok(v)
        } else {
            Err(Error::Read)
        }
    }

    /// Reads a big-endian signed 32-bit value (two's complement).
    pub fn read_i32(&mut self) -> (r: Result<i32, Error>)
        ensures
            final(self).bytes@ == old(self).bytes@,
            can_read(old(self).bytes@, old(self).pos as int, 4) ==> {
                &&& r == Ok::<i32, Error>(be_i32(old(self).bytes@, old(self).pos as int))
                &&& final(self).pos == old(self).pos + 4
            },
            !can_read(old(self).bytes@, old(self).pos as int, 4) ==> {
                &&& r == Err::<i32, Error>(Error::Read)
                &&& final(self).pos == old(self).pos
            },
    {
        match self.read_u32() {
            Err(e) => Err(e),
            Ok(v) => {
                if v < 0x8000_0000 {
                    Ok(v as i32)
                } else {
                    Ok(((v - 0x8000_0000) as i32) + i32::MIN)
                }
            },
        }
    }

    /// Reads exactly `n` bytes.
    pub fn read_bytes(&mut self, n: usize) -> (r: Result<Vec<u8>, Error>)
        ensures
            final(self).bytes@ == old(self).bytes@,
            can_read(old(self).bytes@, old(self).pos as int, n as int) ==> {
                &&& r matches Ok(v) && v@ == old(self).bytes@.subrange(
                    old(self).pos as int,
                    old(self).pos + n,
                )
                &&& final(self).pos == old(self).pos + n
            },
            !can_read(old(self).bytes@, old(self).pos as int, n as int) ==> {
                &&& r == Err::<Vec<u8>, Error>(Error::Read)
                &&& final(self).pos == old(self).pos
            },
    {
        let len = self.bytes.len();
        if self.pos <= len && n <= len - self.pos {
            let start: usize = self.pos;
            let mut v: Vec<u8> = Vec::new();
            let mut i: usize = 0;
            while i < n
                invariant
                    i <= n,
                    start + n <= self.bytes@.len(),
                    start + n <= usize::MAX,
                    v@ == self.bytes@.subrange(start as int, start + i),
                decreases n - i,
            {
                v.push(self.bytes[start + i]);
                i = i + 1;
                assert(v@ =~= self.bytes@.subrange(start as int, start + i));
            }
            self.pos = self.pos + n;
            Ok(v)
        } else {
            Err(Error::Read)
        }
    }
}

} // verus!
