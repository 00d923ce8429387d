//! I/O-store objects: container ids, status values and the table-of-contents
//! header of a container file.
use vstd::prelude::*;

use crate::guid::{guid_at, hex_digit, hex_digit_str, FGuid};
use crate::reader::{avail, u16_at, u32_at, u64_at, FUsmapReader, ReaderError};

verus! {

/// Decimal digits of `n`, without leading zeros.
pub open spec fn decimal(n: nat) -> Seq<char>
    decreases n,
{
    if n < 10 {
        hex_digit(n as int)
    } else {
        decimal(n / 10) + hex_digit((n % 10) as int)
    }
}

fn decimal_string(n: u64) -> (r: String)
    ensures
        r@ == decimal(n as nat),
    decreases n,
{
    if n < 10 {
        String::from_str(hex_digit_str(n as u32))
    } else {
        let mut s = decimal_string(n / 10);
        s.append(hex_digit_str((n % 10) as u32));
        s
    }
}

/// Identifier of an I/O-store container.
#[derive(Debug, Clone, Copy, PartialEq, Eq, Structural)]
pub struct FIoContainerId {
    pub id: u64,
}

impl FIoContainerId {
    pub fn new(id: u64) -> (r: Self)
        ensures
            r.id == id,
    {
        FIoContainerId { id }
    }

    /// The id in decimal.
    pub fn to_string(&self) -> (r: String)
        ensures
            r@ == decimal(self.id as nat),
    {
        decimal_string(self.id)
    }
}

/// Outcome codes of I/O-store operations.
#[derive(Debug, Clone, Copy, PartialEq, Eq, Structural)]
pub enum EIoErrorCode {
    /// Written out as `Ok`.
    Success,
    Unknown,
    InvalidCode,
    Cancelled,
    FileOpenFailed,
    FileNotOpen,
    ReadError,
    WriteError,
    NotFound,
    CorruptToc,
    UnknownChunkID,
    InvalidParameter,
    SignatureError,
    InvalidEncryptionKey,
}

/// The name under which a code is written out.
pub open spec fn error_code_name(c: EIoErrorCode) -> Seq<char> {
    match c {
        EIoErrorCode::Success => "Ok"@,
        EIoErrorCode::Unknown => "Unknown"@,
        EIoErrorCode::InvalidCode => "InvalidCode"@,
        EIoErrorCode::Cancelled => "Cancelled"@,
        EIoErrorCode::FileOpenFailed => "FileOpenFailed"@,
        EIoErrorCode::FileNotOpen => "FileNotOpen"@,
        EIoErrorCode::ReadError => "ReadError"@,
        EIoErrorCode::WriteError => "WriteError"@,
        EIoErrorCode::NotFound => "NotFound"@,
        EIoErrorCode::CorruptToc => "CorruptToc"@,
        EIoErrorCode::UnknownChunkID => "UnknownChunkID"@,
        EIoErrorCode::InvalidParameter => "InvalidParameter"@,
        EIoErrorCode::SignatureError => "SignatureError"@,
        EIoErrorCode::InvalidEncryptionKey => "InvalidEncryptionKey"@,
    }
}

impl EIoErrorCode {
    pub fn name(&self) -> (r: &'static str)
        ensures
            r@ == error_code_name(*self),
    {
        match self {
            EIoErrorCode::Success => "Ok",
            EIoErrorCode::Unknown => "Unknown",
            EIoErrorCode::InvalidCode => "InvalidCode",
            EIoErrorCode::Cancelled => "Cancelled",
            EIoErrorCode::FileOpenFailed => "FileOpenFailed",
            EIoErrorCode::FileNotOpen => "FileNotOpen",
            EIoErrorCode::ReadError => "ReadError",
            EIoErrorCode::WriteError => "WriteError",
            EIoErrorCode::NotFound => "NotFound",
            EIoErrorCode::CorruptToc => "CorruptToc",
            EIoErrorCode::UnknownChunkID => "UnknownChunkID",
            EIoErrorCode::InvalidParameter => "InvalidParameter",
            EIoErrorCode::SignatureError => "SignatureError",
            EIoErrorCode::InvalidEncryptionKey => "InvalidEncryptionKey",
        }
    }
}

/// An I/O-store status: a code and a message.
#[derive(Debug)]
pub struct FIoStatus {
    pub error_code: EIoErrorCode,
    pub error_message: String,
}

impl FIoStatus {
    pub fn new(error_code: EIoErrorCode, error_message: String) -> (r: Self)
        ensures
            r.error_code == error_code,
            r.error_message == error_message,
    {
        FIoStatus { error_code, error_message }
    }

    /// The message followed by the code in parentheses.
    pub fn to_string(&self) -> (r: String)
        ensures
            r@ == self.error_message@ + " ("@ + error_code_name(self.error_code) + ")"@,
    {
        let mut s = self.error_message.clone();
        s.append(" (");
        s.append(self.error_code.name());
        s.append(")");
        s
    }
}

/// Flags of an I/O-store container.
#[derive(Debug, Clone, Copy, PartialEq, Eq, Structural)]
pub enum EIoContainerFlags {
    NoFlags,
    Compressed,
    Encrypted,
    Signed,
    Indexed,
    OnDemand,
}

impl EIoContainerFlags {
    /// The bit that stands for this flag (none for `NoFlags`).
    pub fn bits(&self) -> (r: u8)
        ensures
            r == match *self {
                EIoContainerFlags::NoFlags => 0u8,
                EIoContainerFlags::Compressed => 1u8,
                EIoContainerFlags::Encrypted => 2u8,
                EIoContainerFlags::Signed => 4u8,
                EIoContainerFlags::Indexed => 8u8,
                EIoContainerFlags::OnDemand => 16u8,
            },
    {
        match self {
            EIoContainerFlags::NoFlags => 0,
            EIoContainerFlags::Compressed => 1,
            EIoContainerFlags::Encrypted => 2,
            EIoContainerFlags::Signed => 4,
            EIoContainerFlags::Indexed => 8,
            EIoContainerFlags::OnDemand => 16,
        }
    }
}

/// Size in bytes of a table-of-contents header.
pub const TOC_HEADER_SIZE: u64 = 144;

/// The sixteen bytes that open a table of contents: `-==-` four times.
pub open spec fn toc_signature() -> Seq<u8> {
    seq![
        0x2Du8, 0x3D, 0x3D, 0x2D, 0x2D, 0x3D, 0x3D, 0x2D, 0x2D, 0x3D, 0x3D, 0x2D, 0x2D, 0x3D, 0x3D, 0x2D,
    ]
}

/// Header of an I/O-store table of contents.
#[derive(Debug)]
pub struct FIoStoreTocHeader {
    pub toc_magic: [u8; 16],
    pub version: u8,
    pub reserved0: u8,
    pub reserved1: u16,
    pub toc_header_size: u32,
    pub toc_entry_count: u32,
    pub toc_compressed_block_entry_count: u32,
    pub toc_compressed_block_entry_size: u32,
    pub compression_method_name_count: u32,
    pub compression_method_name_length: u32,
    pub compression_block_size: u32,
    pub directory_index_size: u32,
    pub partition_count: u32,
    pub container_id: FIoContainerId,
    pub encryption_key_guid: FGuid,
    pub container_flags: u8,
    pub reserved3: u8,
    pub reserved4: u16,
    pub toc_chunk_perfect_hash_seeds_count: u32,
    pub partition_size: u64,
    pub toc_chunks_without_perfect_hash_count: u32,
    pub reserved7: u32,
    pub reserved8: [u64; 5],
}

/// The header fields read from the 144 bytes at `p`.
pub open spec fn toc_fields_at(h: FIoStoreTocHeader, d: Seq<u8>, p: int) -> bool {
    &&& h.toc_magic@ == d.subrange(p, p + 16)
    &&& h.version == d[p + 16]
    &&& h.reserved0 == d[p + 17]
    &&& h.reserved1 == u16_at(d, p + 18)
    &&& h.toc_header_size == u32_at(d, p + 20)
    &&& h.toc_entry_count == u32_at(d, p + 24)
    &&& h.toc_compressed_block_entry_count == u32_at(d, p + 28)
    &&& h.toc_compressed_block_entry_size == u32_at(d, p + 32)
    &&& h.compression_method_name_count == u32_at(d, p + 36)
    &&& h.compression_method_name_length == u32_at(d, p + 40)
    &&& h.compression_block_size == u32_at(d, p + 44)
    &&& h.directory_index_size == u32_at(d, p + 48)
    &&& h.partition_count == u32_at(d, p + 52)
    &&& h.container_id.id == u64_at(d, p + 56)
    &&& h.encryption_key_guid == guid_at(d, p + 64)
    &&& h.container_flags == d[p + 80]
    &&& h.reserved3 == d[p + 81]
    &&& h.reserved4 == u16_at(d, p + 82)
    &&& h.toc_chunk_perfect_hash_seeds_count == u32_at(d, p + 84)
    &&& h.partition_size == u64_at(d, p + 88)
    &&& h.toc_chunks_without_perfect_hash_count == u32_at(d, p + 96)
    &&& h.reserved7 == u32_at(d, p + 100)
    &&& h.reserved8@ == seq![
        u64_at(d, p + 104),
        u64_at(d, p + 112),
        u64_at(d, p + 120),
        u64_at(d, p + 128),
        u64_at(d, p + 136),
    ]
}

impl FIoStoreTocHeader {
    /// Reads a header: the magic first, then the fixed little-endian fields.
    pub fn from_reader(reader: &mut FUsmapReader) -> (r: Result<Self, ReaderError>)
        ensures
            final(reader).same_source(old(reader)),
            ({
                let d = old(reader).data@;
                let p = old(reader).at();
                if !avail(d, p, 16) {
                    r == Err::<FIoStoreTocHeader, ReaderError>(ReaderError::UnexpectedEof)
                } else if d.subrange(p, p + 16) != toc_signature() {
                    r == Err::<FIoStoreTocHeader, ReaderError>(ReaderError::InvalidMagic)
                } else if !avail(d, p, 144) {
                    r == Err::<FIoStoreTocHeader, ReaderError>(ReaderError::UnexpectedEof)
                } else {
                    r is Ok && toc_fields_at(r->Ok_0, d, p) && final(reader).at() == p + 144
                }
            }),
    {
        let ghost d = reader.data@;
        let ghost p = reader.at();
        let m = reader.read_exact(16)?;
        let toc_magic: [u8; 16] = [
            m[0], m[1], m[2], m[3], m[4], m[5], m[6], m[7], m[8], m[9], m[10], m[11], m[12], m[13],
            m[14], m[15],
        ];
        assert(toc_magic@ =~= m@);
        let expected: [u8; 16] = [
            0x2D, 0x3D, 0x3D, 0x2D, 0x2D, 0x3D, 0x3D, 0x2D, 0x2D, 0x3D, 0x3D, 0x2D, 0x2D, 0x3D,
            0x3D, 0x2D,
        ];
        assert(expected@ =~= toc_signature());
        let mut i: usize = 0;
        while i < 16
            invariant
                i <= 16,
                toc_magic@ == m@,
                m@.len() == 16,
                reader.data@ == old(reader).data@,
                reader.version == old(reader).version,
                p == old(reader).at(),
                avail(old(reader).data@, p, 16),
                m@ == old(reader).data@.subrange(p, p + 16),
                expected@ == toc_signature(),
                forall|j: int| 0 <= j < i ==> m@[j] == toc_signature()[j],
            decreases 16 - i,
        {
            if toc_magic[i] != expected[i] {
                assert(m@ != toc_signature());
                return Err(ReaderError::InvalidMagic);
            }
            i = i + 1;
        }
        assert(m@ =~= toc_signature());
        if !reader.has_remaining(TOC_HEADER_SIZE - 16) {
            return Err(ReaderError::UnexpectedEof);
        }
        let version = reader.read_u8()?;
        let reserved0 = reader.read_u8()?;
        let reserved1 = reader.read_u16()?;
        let toc_header_size = reader.read_u32()?;
        let toc_entry_count = reader.read_u32()?;
        let toc_compressed_block_entry_count = reader.read_u32()?;
        let toc_compressed_block_entry_size = reader.read_u32()?;
        let compression_method_name_count = reader.read_u32()?;
        let compression_method_name_length = reader.read_u32()?;
        let compression_block_size = reader.read_u32()?;
        let directory_index_size = reader.read_u32()?;
        let partition_count = reader.read_u32()?;
        let container_id = FIoContainerId::new(reader.read_u64()?);
        let encryption_key_guid = FGuid::from_reader(reader)?;
        let container_flags = reader.read_u8()?;
        let reserved3 = reader.read_u8()?;
        let reserved4 = reader.read_u16()?;
        let toc_chunk_perfect_hash_seeds_count = reader.read_u32()?;
        let partition_size = reader.read_u64()?;
        let toc_chunks_without_perfect_hash_count = reader.read_u32()?;
        let reserved7 = reader.read_u32()?;
        let r0 = reader.read_u64()?;
        let r1 = reader.read_u64()?;
        let r2 = reader.read_u64()?;
        let r3 = reader.read_u64()?;
        let r4 = reader.read_u64()?;
        let reserved8: [u64; 5] = [r0, r1, r2, r3, r4];
        assert(reserved8@ =~= seq![r0, r1, r2, r3, r4]);
        Ok(
            FIoStoreTocHeader {
                toc_magic,
                version,
                reserved0,
                reserved1,
                toc_header_size,
                toc_entry_count,
                toc_compressed_block_entry_count,
                toc_compressed_block_entry_size,
                compression_method_name_count,
                compression_method_name_length,
                compression_block_size,
                directory_index_size,
                partition_count,
                container_id,
                encryption_key_guid,
                container_flags,
                reserved3,
                reserved4,
                toc_chunk_perfect_hash_seeds_count,
                partition_size,
                toc_chunks_without_perfect_hash_count,
                reserved7,
                reserved8,
            },
        )
    }
}

} // verus!
