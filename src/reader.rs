//! In-memory little-endian byte reader over a decompressed buffer.
use vstd::prelude::*;

use crate::versions::EUsmapVersion;

verus! {

/// Why a primitive read failed.
#[derive(Debug, Clone, Copy, PartialEq, Eq, Structural)]
pub enum ReaderError {
    /// Fewer bytes remain than the read needs.
    UnexpectedEof,
    /// A boolean was encoded as a 32-bit integer other than 0 or 1.
    InvalidBool,
    /// A name index is neither -1 nor inside the name table.
    NameIndexOutOfRange,
    /// The requested custom-version serialization format is not implemented.
    UnsupportedFormat,
    /// A decompression backend rejected its input.
    Decompression,
    /// A fixed signature does not match.
    InvalidMagic,
}

/// Little-endian `u16` stored at `p`.
pub open spec fn u16_at(d: Seq<u8>, p: int) -> u16 {
    (d[p] as int + d[p + 1] as int * 0x100) as u16
}

/// Little-endian `u32` stored at `p`.
pub open spec fn u32_at(d: Seq<u8>, p: int) -> u32 {
    (d[p] as int + d[p + 1] as int * 0x100 + d[p + 2] as int * 0x10000 + d[p + 3] as int
        * 0x1000000) as u32
}

/// Little-endian `u64` stored at `p`.
pub open spec fn u64_at(d: Seq<u8>, p: int) -> u64 {
    (u32_at(d, p) as int + u32_at(d, p + 4) as int * 0x1_0000_0000) as u64
}

/// Whether `n` bytes are available at `p`.
pub open spec fn avail(d: Seq<u8>, p: int, n: int) -> bool {
    0 <= p && p + n <= d.len()
}

/// The name that index `i` denotes: `-1` is the empty name, anything else must be
/// a position of the table.
pub open spec fn name_of(names: Seq<Seq<char>>, i: i32) -> Result<Seq<char>, ReaderError> {
    if i == -1 {
        Ok(Seq::<char>::empty())
    } else if 0 <= i < names.len() {
        Ok(names[i as int])
    } else {
        Err(ReaderError::NameIndexOutOfRange)
    }
}

/// A name index at `p`, resolved through `names`, and the position after it.
pub open spec fn name_at(d: Seq<u8>, p: int, names: Seq<Seq<char>>) -> Result<
    (Seq<char>, int),
    ReaderError,
> {
    if !avail(d, p, 4) {
        Err(ReaderError::UnexpectedEof)
    } else {
        match name_of(names, u32_at(d, p) as i32) {
            Ok(n) => Ok((n, p + 4)),
            Err(e) => Err(e),
        }
    }
}

/// An executable result agrees with a spec-level parse that ended at `end`.
pub open spec fn agrees<T: View>(
    r: Result<T, ReaderError>,
    s: Result<(T::V, int), ReaderError>,
    end: int,
) -> bool {
    match s {
        Ok((m, e)) => r is Ok && r->Ok_0@ == m && end == e,
        Err(x) => r == Err::<T, ReaderError>(x),
    }
}

/// Views of a table of names.
pub open spec fn names_view(names: Seq<String>) -> Seq<Seq<char>> {
    names.map_values(|s: String| s@)
}

/// A source of little-endian primitives.
pub trait Reader {
    fn read_u8(&mut self) -> Result<u8, ReaderError>;

    fn read_u16(&mut self) -> Result<u16, ReaderError>;

    fn read_u32(&mut self) -> Result<u32, ReaderError>;

    fn read_i32(&mut self) -> Result<i32, ReaderError>;

    fn read_u64(&mut self) -> Result<u64, ReaderError>;

    fn read_i64(&mut self) -> Result<i64, ReaderError>;

    fn read_exact(&mut self, len: u64) -> Result<Vec<u8>, ReaderError>;

    fn read_bool(&mut self) -> Result<bool, ReaderError>;

    fn seek(&mut self, pos: u64) -> Result<u64, ReaderError>;
}

/// A cursor over an owned byte buffer, with the format version that decides
/// integer widths in the structures read from it.
pub struct FUsmapReader {
    pub data: Vec<u8>,
    pub pos: u64,
    pub version: EUsmapVersion,
}

impl FUsmapReader {
    /// Same buffer and version; only the position may have moved.
    pub open spec fn same_source(&self, other: &FUsmapReader) -> bool {
        &&& self.data@ == other.data@
        &&& self.version == other.version
    }

    pub open spec fn at(&self) -> int {
        self.pos as int
    }

    pub fn new(data: Vec<u8>, version: EUsmapVersion) -> (r: Self)
        ensures
            r.data@ == data@,
            r.pos == 0,
            r.version == version,
    {
        FUsmapReader { data, pos: 0, version }
    }

    /// Whether `n` more bytes can be read.
    pub fn has_remaining(&self, n: u64) -> (r: bool)
        ensures
            r == avail(self.data@, self.at(), n as int),
    {
        self.take(n).is_some()
    }

    /// Checks that `n` bytes remain and returns the position as an index.
    fn take(&self, n: u64) -> (r: Option<usize>)
        ensures
            r.is_some() <==> avail(self.data@, self.pos as int, n as int),
            r matches Some(p) ==> p == self.pos && p + n <= self.data@.len() <= usize::MAX,
    {
        let len = self.data.len() as u64;
        if self.pos > len || len - self.pos < n {
            None
        } else {
            Some(self.pos as usize)
        }
    }

    pub fn read_u8(&mut self) -> (r: Result<u8, ReaderError>)
        ensures
            final(self).same_source(old(self)),
            avail(old(self).data@, old(self).at(), 1) ==> r == Ok::<u8, ReaderError>(
                old(self).data@[old(self).at()],
            ) && final(self).pos == old(self).pos + 1,
            !avail(old(self).data@, old(self).at(), 1) ==> r == Err::<u8, ReaderError>(
                ReaderError::UnexpectedEof,
            ) && final(self).pos == old(self).pos,
    {
        match self.take(1) {
            None => Err(ReaderError::UnexpectedEof),
            Some(p) => {
                let v = self.data[p];
                self.pos = self.pos + 1;
                Ok(v)
            },
        }
    }

    pub fn read_u16(&mut self) -> (r: Result<u16, ReaderError>)
        ensures
            final(self).same_source(old(self)),
            avail(old(self).data@, old(self).at(), 2) ==> r == Ok::<u16, ReaderError>(
                u16_at(old(self).data@, old(self).at()),
            ) && final(self).pos == old(self).pos + 2,
            !avail(old(self).data@, old(self).at(), 2) ==> r == Err::<u16, ReaderError>(
                ReaderError::UnexpectedEof,
            ) && final(self).pos == old(self).pos,
    {
        match self.take(2) {
            None => Err(ReaderError::UnexpectedEof),
            Some(p) => {
                let v = self.data[p] as u16 + self.data[p + 1] as u16 * 0x100;
                self.pos = self.pos + 2;
                Ok(v)
            },
        }
    }

    pub fn read_u32(&mut self) -> (r: Result<u32, ReaderError>)
        ensures
            final(self).same_source(old(self)),
            avail(old(self).data@, old(self).at(), 4) ==> r == Ok::<u32, ReaderError>(
                u32_at(old(self).data@, old(self).at()),
            ) && final(self).pos == old(self).pos + 4,
            !avail(old(self).data@, old(self).at(), 4) ==> r == Err::<u32, ReaderError>(
                ReaderError::UnexpectedEof,
            ) && final(self).pos == old(self).pos,
    {
        match self.take(4) {
            None => Err(ReaderError::UnexpectedEof),
            Some(p) => {
                let v = self.data[p] as u32 + self.data[p + 1] as u32 * 0x100 + self.data[p
                    + 2] as u32 * 0x10000 + self.data[p + 3] as u32 * 0x1000000;
                self.pos = self.pos + 4;
                Ok(v)
            },
        }
    }

    pub fn read_i32(&mut self) -> (r: Result<i32, ReaderError>)
        ensures
            final(self).same_source(old(self)),
            avail(old(self).data@, old(self).at(), 4) ==> r == Ok::<i32, ReaderError>(
                u32_at(old(self).data@, old(self).at()) as i32,
            ) && final(self).pos == old(self).pos + 4,
            !avail(old(self).data@, old(self).at(), 4) ==> r == Err::<i32, ReaderError>(
                ReaderError::UnexpectedEof,
            ) && final(self).pos == old(self).pos,
    {
        let v = self.read_u32()?;
        Ok(v as i32)
    }

    pub fn read_u64(&mut self) -> (r: Result<u64, ReaderError>)
        ensures
            final(self).same_source(old(self)),
            avail(old(self).data@, old(self).at(), 8) ==> r == Ok::<u64, ReaderError>(
                u64_at(old(self).data@, old(self).at()),
            ) && final(self).pos == old(self).pos + 8,
            !avail(old(self).data@, old(self).at(), 8) ==> r == Err::<u64, ReaderError>(
                ReaderError::UnexpectedEof,
            ) && final(self).pos == old(self).pos,
    {
        match self.take(8) {
            None => Err(ReaderError::UnexpectedEof),
            Some(_) => {
                let lo = self.read_u32()?;
                let hi = self.read_u32()?;
                Ok(lo as u64 + hi as u64 * 0x1_0000_0000)
            },
        }
    }

    pub fn read_i64(&mut self) -> (r: Result<i64, ReaderError>)
        ensures
            final(self).same_source(old(self)),
            avail(old(self).data@, old(self).at(), 8) ==> r == Ok::<i64, ReaderError>(
                u64_at(old(self).data@, old(self).at()) as i64,
            ) && final(self).pos == old(self).pos + 8,
            !avail(old(self).data@, old(self).at(), 8) ==> r == Err::<i64, ReaderError>(
                ReaderError::UnexpectedEof,
            ) && final(self).pos == old(self).pos,
    {
        let v = self.read_u64()?;
        Ok(v as i64)
    }

    /// Reads exactly `len` bytes.
    pub fn read_exact(&mut self, len: u64) -> (r: Result<Vec<u8>, ReaderError>)
        ensures
            final(self).same_source(old(self)),
            avail(old(self).data@, old(self).at(), len as int) ==> r is Ok && r->Ok_0@
                == old(self).data@.subrange(old(self).at(), old(self).at() + len)
                && final(self).pos == old(self).pos + len,
            !avail(old(self).data@, old(self).at(), len as int) ==> r == Err::<Vec<u8>, ReaderError>(
                ReaderError::UnexpectedEof,
            ) && final(self).pos == old(self).pos,
    {
        match self.take(len) {
            None => Err(ReaderError::UnexpectedEof),
            Some(p) => {
                assert(len <= usize::MAX);
                let n = len as usize;
                let mut out: Vec<u8> = Vec::new();
                let mut i: usize = 0;
                while i < n
                    invariant
                        p + n <= self.data@.len() <= usize::MAX,
                        i <= n,
                        out@ == self.data@.subrange(p as int, p + i),
                    decreases n - i,
                {
                    out.push(self.data[p + i]);
                    i = i + 1;
                    assert(out@ =~= self.data@.subrange(p as int, p + i));
                }
                self.pos = self.pos + len;
                Ok(out)
            },
        }
    }

    /// A 32-bit integer that must be 0 or 1.
    pub fn read_bool(&mut self) -> (r: Result<bool, ReaderError>)
        ensures
            final(self).same_source(old(self)),
            avail(old(self).data@, old(self).at(), 4) ==> final(self).pos == old(self).pos + 4 && r
                == (if u32_at(old(self).data@, old(self).at()) as i32 == 0 {
                Ok::<bool, ReaderError>(false)
            } else if u32_at(old(self).data@, old(self).at()) as i32 == 1 {
                Ok(true)
            } else {
                Err(ReaderError::InvalidBool)
            }),
            !avail(old(self).data@, old(self).at(), 4) ==> r == Err::<bool, ReaderError>(
                ReaderError::UnexpectedEof,
            ) && final(self).pos == old(self).pos,
    {
        let v = self.read_i32()?;
        if v == 0 {
            Ok(false)
        } else if v == 1 {
            Ok(true)
        } else {
            Err(ReaderError::InvalidBool)
        }
    }

    /// Moves to an absolute offset; an offset past the end makes later reads fail.
    pub fn seek(&mut self, pos: u64) -> (r: Result<u64, ReaderError>)
        ensures
            final(self).same_source(old(self)),
            final(self).pos == pos,
            r == Ok::<u64, ReaderError>(pos),
    {
        self.pos = pos;
        Ok(pos)
    }

    /// Reads a 32-bit name index and resolves it through `names`.
    pub fn read_name(&mut self, names: &Vec<String>) -> (r: Result<String, ReaderError>)
        ensures
            final(self).same_source(old(self)),
            agrees(r, name_at(old(self).data@, old(self).at(), names_view(names@)), final(self).at()),
    {
        let i = self.read_i32()?;
        if i == -1 {
            Ok(String::new())
        } else if 0 <= i && (i as usize) < names.len() {
            Ok(names[i as usize].clone())
        } else {
            Err(ReaderError::NameIndexOutOfRange)
        }
    }
}

/// Declares `std::string::FromUtf8Error`, which is handed back unchanged.
#[verifier::external_type_specification]
#[verifier::external_body]
pub struct ExFromUtf8Error(std::string::FromUtf8Error);

impl Reader for FUsmapReader {
    fn read_u8(&mut self) -> Result<u8, ReaderError> {
        FUsmapReader::read_u8(self)
    }

    fn read_u16(&mut self) -> Result<u16, ReaderError> {
        FUsmapReader::read_u16(self)
    }

    fn read_u32(&mut self) -> Result<u32, ReaderError> {
        FUsmapReader::read_u32(self)
    }

    fn read_i32(&mut self) -> Result<i32, ReaderError> {
        FUsmapReader::read_i32(self)
    }

    fn read_u64(&mut self) -> Result<u64, ReaderError> {
        FUsmapReader::read_u64(self)
    }

    fn read_i64(&mut self) -> Result<i64, ReaderError> {
        FUsmapReader::read_i64(self)
    }

    fn read_exact(&mut self, len: u64) -> Result<Vec<u8>, ReaderError> {
        FUsmapReader::read_exact(self, len)
    }

    fn read_bool(&mut self) -> Result<bool, ReaderError> {
        FUsmapReader::read_bool(self)
    }

    fn seek(&mut self, pos: u64) -> Result<u64, ReaderError> {
        FUsmapReader::seek(self, pos)
    }
}

/// Relies on `String::from_utf8`: it succeeds exactly on valid UTF-8 and then holds
/// the characters that the bytes encode.
#[verifier::external_body]
pub(crate) fn string_from_utf8(bytes: Vec<u8>) -> (r: Result<String, std::string::FromUtf8Error>)
    ensures
        r is Ok == vstd::utf8::valid_utf8(bytes@),
        r matches Ok(s) ==> s@ == vstd::utf8::decode_utf8(bytes@),
{
    String::from_utf8(bytes)
}

} // verus!
