//! Endianness-aware sequential reader over a byte buffer.
//!
//! Every read is specified against the spec-level readers below, so parser
//! contracts can state byte-exactly what a successful read returns and on
//! which buffers a read fails.

use vstd::prelude::*;
use vstd::utf8::{valid_utf8, decode_utf8, encode_utf8};
use crate::errors::{GDError, GDResult};

verus! {

/// The failure classes a read can produce, as spec-level tags.
#[derive(Debug, Clone, Copy, PartialEq, Eq, Structural)]
pub enum ReadFail {
    /// The buffer ended before the requested bytes.
    Underflow,
    /// The bytes were present but malformed (missing terminator, bad UTF-8).
    Bad,
    /// A character-coded field held a byte outside its enumeration.
    UnknownEnum,
}

/// Which `GDError` a spec-level failure tag stands for.
pub open spec fn err_matches(e: GDError, k: ReadFail) -> bool {
    match k {
        ReadFail::Underflow => e is PacketUnderflow,
        ReadFail::Bad => e is PacketBad,
        ReadFail::UnknownEnum => e is UnknownEnumCast,
    }
}

/// Little-endian value of the two bytes at `p`.
pub open spec fn le16_at(d: Seq<u8>, p: int) -> int {
    d[p] + 0x100 * d[p + 1]
}

/// Little-endian value of the four bytes at `p`.
pub open spec fn le32_at(d: Seq<u8>, p: int) -> int {
    d[p] + 0x100 * d[p + 1] + 0x10000 * d[p + 2] + 0x1000000 * d[p + 3]
}

/// Little-endian value of the eight bytes at `p`.
pub open spec fn le64_at(d: Seq<u8>, p: int) -> int {
    d[p] + 0x100 * d[p + 1] + 0x10000 * d[p + 2] + 0x1000000 * d[p + 3]
        + 0x100000000 * d[p + 4] + 0x10000000000 * d[p + 5]
        + 0x1000000000000 * d[p + 6] + 0x100000000000000 * d[p + 7]
}

/// Reading one byte at `p`: the value and the next position, or underflow.
pub open spec fn sp_u8(d: Seq<u8>, p: int) -> Result<(u8, int), ReadFail> {
    if p + 1 <= d.len() {
        Ok((d[p], p + 1))
    } else {
        Err(ReadFail::Underflow)
    }
}

/// Reading a little-endian 16-bit integer at `p`.
pub open spec fn sp_u16(d: Seq<u8>, p: int) -> Result<(u16, int), ReadFail> {
    if p + 2 <= d.len() {
        Ok((le16_at(d, p) as u16, p + 2))
    } else {
        Err(ReadFail::Underflow)
    }
}

/// Reading a little-endian 32-bit integer at `p`.
pub open spec fn sp_u32(d: Seq<u8>, p: int) -> Result<(u32, int), ReadFail> {
    if p + 4 <= d.len() {
        Ok((le32_at(d, p) as u32, p + 4))
    } else {
        Err(ReadFail::Underflow)
    }
}

/// Reading a little-endian 64-bit integer at `p`.
pub open spec fn sp_u64(d: Seq<u8>, p: int) -> Result<(u64, int), ReadFail> {
    if p + 8 <= d.len() {
        Ok((le64_at(d, p) as u64, p + 8))
    } else {
        Err(ReadFail::Underflow)
    }
}

/// Index of the first NUL byte at or after `p`, if any.
pub open spec fn find_nul(d: Seq<u8>, p: int) -> Option<int>
    decreases d.len() - p,
{
    if p < 0 || p >= d.len() {
        None
    } else if d[p] == 0 {
        Some(p)
    } else {
        find_nul(d, p + 1)
    }
}

/// Reading a NUL-terminated UTF-8 string at `p`: the raw bytes before the
/// terminator and the position after it. A missing terminator or invalid
/// UTF-8 is a bad-packet failure, not a substitution.
pub open spec fn sp_string(d: Seq<u8>, p: int) -> Result<(Seq<u8>, int), ReadFail> {
    match find_nul(d, p) {
        Option::None => Err(ReadFail::Bad),
        Option::Some(i) => {
            if valid_utf8(d.subrange(p, i)) {
                Ok((d.subrange(p, i), i + 1))
            } else {
                Err(ReadFail::Bad)
            }
        },
    }
}

/// The UTF-8 bytes of a string, as contracts speak of them.
pub open spec fn bytes_of(s: String) -> Seq<u8> {
    encode_utf8(s@)
}

/// Relies on String::from_utf8: it succeeds exactly on valid UTF-8 input and
/// the resulting string's bytes are the input bytes unchanged.
#[verifier::external_body]
fn bytes_to_string(b: Vec<u8>) -> (r: Option<String>)
    ensures
        r is Some <==> valid_utf8(b@),
        r matches Some(s) ==> bytes_of(s) == b@ && s@ == decode_utf8(b@),
{
    match String::from_utf8(b) {
        Ok(s) => Some(s),
        Err(_) => None,
    }
}

/// Sequential little-endian reader over an immutable byte buffer.
pub struct Bufferer {
    data: Vec<u8>,
    pos: usize,
}

impl Bufferer {
    /// The underlying bytes, as contracts see them.
    pub closed spec fn sdata(&self) -> Seq<u8> {
        self.data@
    }

    /// The read position, as contracts see it.
    pub closed spec fn spos(&self) -> int {
        self.pos as int
    }

    /// The position never passes the end of the buffer.
    pub open spec fn wf(&self) -> bool {
        0 <= self.spos() <= self.sdata().len()
    }

    /// Bytes left from the read position to the end.
    pub open spec fn remaining(&self) -> int {
        self.sdata().len() - self.spos()
    }

    /// Wrap a byte buffer, starting at its beginning.
    pub fn new_with_data(data: Vec<u8>) -> (r: Self)
        ensures
            r.wf(),
            r.sdata() == data@,
            r.spos() == 0,
    {
        Bufferer { data, pos: 0 }
    }

    /// Whether every byte has been read.
    pub fn is_at_end(&self) -> (r: bool)
        requires
            self.wf(),
        ensures
            r == (self.remaining() == 0),
    {
        self.pos == self.data.len()
    }

    /// Read one byte.
    pub fn get_u8(&mut self) -> (r: GDResult<u8>)
        requires
            old(self).wf(),
        ensures
            final(self).wf(),
            final(self).sdata() == old(self).sdata(),
            match sp_u8(old(self).sdata(), old(self).spos()) {
                Ok(pair) => r == Ok::<u8, GDError>(pair.0) && final(self).spos() == pair.1,
                Err(k) => (r matches Err(e) && err_matches(e, k)) && final(self).spos() == old(self).spos(),
            },
    {
        if self.pos < self.data.len() {
            let v = self.data[self.pos];
            self.pos = self.pos + 1;
            Ok(v)
        } else {
            Err(GDError::PacketUnderflow("Tried to read a byte past the end.".to_string()))
        }
    }

    /// Read a little-endian 16-bit integer.
    pub fn get_u16(&mut self) -> (r: GDResult<u16>)
        requires
            old(self).wf(),
        ensures
            final(self).wf(),
            final(self).sdata() == old(self).sdata(),
            match sp_u16(old(self).sdata(), old(self).spos()) {
                Ok(pair) => r == Ok::<u16, GDError>(pair.0) && final(self).spos() == pair.1,
                Err(k) => (r matches Err(e) && err_matches(e, k)) && final(self).spos() == old(self).spos(),
            },
    {
        if self.data.len() - self.pos >= 2 {
            let b0 = self.data[self.pos];
            let b1 = self.data[self.pos + 1];
            self.pos = self.pos + 2;
            Ok(b0 as u16 + 0x100 * b1 as u16)
        } else {
            Err(GDError::PacketUnderflow("Tried to read 2 bytes past the end.".to_string()))
        }
    }

    /// Read a little-endian 32-bit integer.
    pub fn get_u32(&mut self) -> (r: GDResult<u32>)
        requires
            old(self).wf(),
        ensures
            final(self).wf(),
            final(self).sdata() == old(self).sdata(),
            match sp_u32(old(self).sdata(), old(self).spos()) {
                Ok(pair) => r == Ok::<u32, GDError>(pair.0) && final(self).spos() == pair.1,
                Err(k) => (r matches Err(e) && err_matches(e, k)) && final(self).spos() == old(self).spos(),
            },
    {
        if self.data.len() - self.pos >= 4 {
            let b0 = self.data[self.pos] as u32;
            let b1 = self.data[self.pos + 1] as u32;
            let b2 = self.data[self.pos + 2] as u32;
            let b3 = self.data[self.pos + 3] as u32;
            self.pos = self.pos + 4;
            Ok(b0 + 0x100 * b1 + 0x10000 * b2 + 0x1000000 * b3)
        } else {
            Err(GDError::PacketUnderflow("Tried to read 4 bytes past the end.".to_string()))
        }
    }

    /// Read a little-endian 64-bit integer.
    pub fn get_u64(&mut self) -> (r: GDResult<u64>)
        requires
            old(self).wf(),
        ensures
            final(self).wf(),
            final(self).sdata() == old(self).sdata(),
            match sp_u64(old(self).sdata(), old(self).spos()) {
                Ok(pair) => r == Ok::<u64, GDError>(pair.0) && final(self).spos() == pair.1,
                Err(k) => (r matches Err(e) && err_matches(e, k)) && final(self).spos() == old(self).spos(),
            },
    {
        if self.data.len() - self.pos >= 8 {
            let b0 = self.data[self.pos] as u64;
            let b1 = self.data[self.pos + 1] as u64;
            let b2 = self.data[self.pos + 2] as u64;
            let b3 = self.data[self.pos + 3] as u64;
            let b4 = self.data[self.pos + 4] as u64;
            let b5 = self.data[self.pos + 5] as u64;
            let b6 = self.data[self.pos + 6] as u64;
            let b7 = self.data[self.pos + 7] as u64;
            self.pos = self.pos + 8;
            Ok(b0 + 0x100 * b1 + 0x10000 * b2 + 0x1000000 * b3 + 0x100000000 * b4
                + 0x10000000000 * b5 + 0x1000000000000 * b6 + 0x100000000000000 * b7)
        } else {
            Err(GDError::PacketUnderflow("Tried to read 8 bytes past the end.".to_string()))
        }
    }

    /// Read a NUL-terminated UTF-8 string.
    pub fn get_string_utf8(&mut self) -> (r: GDResult<String>)
        requires
            old(self).wf(),
        ensures
            final(self).wf(),
            final(self).sdata() == old(self).sdata(),
            match sp_string(old(self).sdata(), old(self).spos()) {
                Ok(pair) => (r matches Ok(s) && bytes_of(s) == pair.0
                    && s@ == decode_utf8(pair.0)) && final(self).spos() == pair.1,
                Err(k) => (r matches Err(e) && err_matches(e, k)) && final(self).spos() == old(self).spos(),
            },
    {
        let ghost d = self.data@;
        let ghost start = self.pos as int;
        let mut i = self.pos;
        while i < self.data.len() && self.data[i] != 0
            invariant
                self.wf(),
                self.data@ == d,
                0 <= start <= i as int <= d.len(),
                self.pos as int == start,
                find_nul(d, start) == find_nul(d, i as int),
            decreases d.len() - i as int,
        {
            i = i + 1;
        }
        if i >= self.data.len() {
            assert(find_nul(d, start) is None);
            return Err(GDError::PacketBad("Missing string terminator.".to_string()));
        }
        assert(find_nul(d, start) == Some(i as int));
        let mut raw: Vec<u8> = Vec::new();
        let mut j = self.pos;
        proof {
            assert(raw@ =~= d.subrange(start, start));
        }
        while j < i
            invariant
                self.wf(),
                self.data@ == d,
                0 <= start <= j as int <= i as int <= d.len(),
                self.pos as int == start,
                raw@ == d.subrange(start, j as int),
            decreases i as int - j as int,
        {
            raw.push(self.data[j]);
            j = j + 1;
            proof {
                assert(raw@ =~= d.subrange(start, j as int));
            }
        }
        assert(raw@ == d.subrange(start, i as int));
        match bytes_to_string(raw) {
            Some(s) => {
                self.pos = i + 1;
                Ok(s)
            },
            None => Err(GDError::PacketBad("Invalid UTF-8 in string.".to_string())),
        }
    }

    /// Move the read position `n` bytes ahead.
    pub fn skip(&mut self, n: usize) -> (r: GDResult<()>)
        requires
            old(self).wf(),
        ensures
            final(self).wf(),
            final(self).sdata() == old(self).sdata(),
            old(self).remaining() >= n ==> r is Ok && final(self).spos() == old(self).spos() + n,
            old(self).remaining() < n ==> (r matches Err(e) && e is PacketUnderflow)
                && final(self).spos() == old(self).spos(),
    {
        if n <= self.data.len() - self.pos {
            self.pos = self.pos + n;
            Ok(())
        } else {
            Err(GDError::PacketUnderflow("Tried to move past the end.".to_string()))
        }
    }

    /// Take every unread byte, leaving the position at the end.
    pub fn take_remaining(&mut self) -> (r: Vec<u8>)
        requires
            old(self).wf(),
        ensures
            final(self).wf(),
            final(self).sdata() == old(self).sdata(),
            final(self).spos() == final(self).sdata().len(),
            r@ == old(self).sdata().subrange(old(self).spos(), old(self).sdata().len() as int),
    {
        let ghost d = self.data@;
        let ghost start = self.pos as int;
        let mut out: Vec<u8> = Vec::new();
        proof {
            assert(out@ =~= d.subrange(start, start));
        }
        while self.pos < self.data.len()
            invariant
                self.wf(),
                self.data@ == d,
                0 <= start <= self.pos as int <= d.len(),
                out@ == d.subrange(start, self.pos as int),
            decreases d.len() - self.pos as int,
        {
            out.push(self.data[self.pos]);
            self.pos = self.pos + 1;
            proof {
                assert(out@ =~= d.subrange(start, self.pos as int));
            }
        }
        assert(out@ =~= d.subrange(start, d.len() as int));
        out
    }
}

} // verus!
