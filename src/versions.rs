//! Format versions, compression tags and the custom-version container.
use vstd::prelude::*;

use crate::guid::{guid_at, FGuid};
use crate::reader::{avail, u32_at, FUsmapReader, ReaderError};

verus! {

/// Version of the type-mapping container format.
#[derive(Debug, Clone, Copy, PartialEq, Eq, Structural)]
pub enum EUsmapVersion {
    Initial,
    PackageVersioning,
    LongFName,
    LargeEnums,
}

/// Position of a version in the order in which the format evolved.
pub open spec fn version_rank(v: EUsmapVersion) -> int {
    match v {
        EUsmapVersion::Initial => 0,
        EUsmapVersion::PackageVersioning => 1,
        EUsmapVersion::LongFName => 2,
        EUsmapVersion::LargeEnums => 3,
    }
}

/// The version that a tag byte stands for; tags past the known range mean the
/// latest version.
pub open spec fn usmap_version_of(b: u8) -> EUsmapVersion {
    if b == 0 {
        EUsmapVersion::Initial
    } else if b == 1 {
        EUsmapVersion::PackageVersioning
    } else if b == 2 {
        EUsmapVersion::LongFName
    } else {
        EUsmapVersion::LargeEnums
    }
}

/// Whether name lengths and enum member counts take two bytes.
pub open spec fn wide_lengths(v: EUsmapVersion) -> bool {
    version_rank(v) >= version_rank(EUsmapVersion::LongFName)
}

impl EUsmapVersion {
    pub const LATEST: EUsmapVersion = EUsmapVersion::LargeEnums;

    pub fn rank(&self) -> (r: u8)
        ensures
            r == version_rank(*self),
    {
        match self {
            EUsmapVersion::Initial => 0,
            EUsmapVersion::PackageVersioning => 1,
            EUsmapVersion::LongFName => 2,
            EUsmapVersion::LargeEnums => 3,
        }
    }

    /// Whether the container may carry a package-version block.
    pub fn has_package_versioning(&self) -> (r: bool)
        ensures
            r == (version_rank(*self) >= version_rank(EUsmapVersion::PackageVersioning)),
    {
        self.rank() >= 1
    }

    /// Whether name lengths and enum member counts are 16-bit.
    pub fn has_long_names(&self) -> (r: bool)
        ensures
            r == wide_lengths(*self),
    {
        self.rank() >= 2
    }
}

impl From<u8> for EUsmapVersion {
    fn from(orig: u8) -> (r: Self) {
        match orig {
            0 => EUsmapVersion::Initial,
            1 => EUsmapVersion::PackageVersioning,
            2 => EUsmapVersion::LongFName,
            3 => EUsmapVersion::LargeEnums,
            _ => EUsmapVersion::LATEST,
        }
    }
}

impl vstd::std_specs::convert::FromSpecImpl<u8> for EUsmapVersion {
    open spec fn obeys_from_spec() -> bool {
        true
    }

    open spec fn from_spec(v: u8) -> Self {
        usmap_version_of(v)
    }
}

/// Engine file versions recorded in a container.
#[derive(Debug, Clone, Copy, PartialEq, Eq, Structural)]
pub struct FPackageFileVersion {
    pub file_version_ue4: i32,
    pub file_version_ue5: i32,
}

impl FPackageFileVersion {
    /// Two little-endian 32-bit signed integers.
    pub fn from_reader(reader: &mut FUsmapReader) -> (r: Result<Self, ReaderError>)
        ensures
            final(reader).same_source(old(reader)),
            avail(old(reader).data@, old(reader).at(), 8) ==> final(reader).pos == old(reader).pos + 8
                && r == Ok::<FPackageFileVersion, ReaderError>(
                package_version_at(old(reader).data@, old(reader).at()),
            ),
            !avail(old(reader).data@, old(reader).at(), 8) ==> r == Err::<
                FPackageFileVersion,
                ReaderError,
            >(ReaderError::UnexpectedEof),
    {
        if !reader.has_remaining(8) {
            return Err(ReaderError::UnexpectedEof);
        }
        let file_version_ue4 = reader.read_i32()?;
        let file_version_ue5 = reader.read_i32()?;
        Ok(FPackageFileVersion { file_version_ue4, file_version_ue5 })
    }

    pub fn default() -> (r: Self)
        ensures
            r == (FPackageFileVersion { file_version_ue4: 0, file_version_ue5: 0 }),
    {
        FPackageFileVersion { file_version_ue4: 0, file_version_ue5: 0 }
    }
}

pub open spec fn package_version_at(d: Seq<u8>, p: int) -> FPackageFileVersion {
    FPackageFileVersion {
        file_version_ue4: u32_at(d, p) as i32,
        file_version_ue5: u32_at(d, p + 4) as i32,
    }
}

/// Compression of a mapping container's payload.
#[derive(Debug, Clone, Copy, PartialEq, Eq, Structural)]
pub enum EUsmapCompressionMethod {
    Uncompressed,
    Oodle,
    Brotli,
    ZStandart,
    Unknown,
}

pub open spec fn usmap_compression_of(b: u8) -> EUsmapCompressionMethod {
    if b == 0 {
        EUsmapCompressionMethod::Uncompressed
    } else if b == 1 {
        EUsmapCompressionMethod::Oodle
    } else if b == 2 {
        EUsmapCompressionMethod::Brotli
    } else if b == 3 {
        EUsmapCompressionMethod::ZStandart
    } else {
        EUsmapCompressionMethod::Unknown
    }
}

impl From<u8> for EUsmapCompressionMethod {
    fn from(orig: u8) -> (r: Self) {
        match orig {
            0 => EUsmapCompressionMethod::Uncompressed,
            1 => EUsmapCompressionMethod::Oodle,
            2 => EUsmapCompressionMethod::Brotli,
            3 => EUsmapCompressionMethod::ZStandart,
            _ => EUsmapCompressionMethod::Unknown,
        }
    }
}

impl vstd::std_specs::convert::FromSpecImpl<u8> for EUsmapCompressionMethod {
    open spec fn obeys_from_spec() -> bool {
        true
    }

    open spec fn from_spec(v: u8) -> Self {
        usmap_compression_of(v)
    }
}

/// Compression of a block in an engine container file.
#[derive(Debug, Clone, Copy, PartialEq, Eq, Structural)]
pub enum CompressionMethod {
    Uncompressed,
    Zlib,
    Gzip,
    Custom,
    Oodle,
    LZ4,
    Zstd,
    Unknown,
}

pub open spec fn compression_of(b: u8) -> CompressionMethod {
    if b == 0 {
        CompressionMethod::Uncompressed
    } else if b == 1 {
        CompressionMethod::Zlib
    } else if b == 2 {
        CompressionMethod::Gzip
    } else if b == 3 {
        CompressionMethod::Custom
    } else if b == 4 {
        CompressionMethod::Oodle
    } else if b == 5 {
        CompressionMethod::LZ4
    } else if b == 6 {
        CompressionMethod::Zstd
    } else {
        CompressionMethod::Unknown
    }
}

impl From<u8> for CompressionMethod {
    fn from(value: u8) -> (r: Self) {
        match value {
            0 => CompressionMethod::Uncompressed,
            1 => CompressionMethod::Zlib,
            2 => CompressionMethod::Gzip,
            3 => CompressionMethod::Custom,
            4 => CompressionMethod::Oodle,
            5 => CompressionMethod::LZ4,
            6 => CompressionMethod::Zstd,
            _ => CompressionMethod::Unknown,
        }
    }
}

impl vstd::std_specs::convert::FromSpecImpl<u8> for CompressionMethod {
    open spec fn obeys_from_spec() -> bool {
        true
    }

    open spec fn from_spec(v: u8) -> Self {
        compression_of(v)
    }
}

impl CompressionMethod {
    /// The tag byte of this method; `Unknown` is 7.
    pub fn to_u8(&self) -> (r: u8)
        ensures
            compression_of(r) == *self,
    {
        match self {
            CompressionMethod::Uncompressed => 0,
            CompressionMethod::Zlib => 1,
            CompressionMethod::Gzip => 2,
            CompressionMethod::Custom => 3,
            CompressionMethod::Oodle => 4,
            CompressionMethod::LZ4 => 5,
            CompressionMethod::Zstd => 6,
            CompressionMethod::Unknown => 7,
        }
    }
}

/// How a custom-version container is laid out.
#[derive(Debug, Clone, Copy, PartialEq, Eq, Structural)]
pub enum ECustomVersionSerializationFormat {
    Unknown,
    Guids,
    Enums,
    Optimized,
}

impl ECustomVersionSerializationFormat {
    pub const LATEST: ECustomVersionSerializationFormat = ECustomVersionSerializationFormat::Optimized;
}

/// A namespace GUID with its version.
#[derive(Debug, Clone, Copy, PartialEq, Eq, Structural)]
pub struct FCustomVersion {
    pub key: FGuid,
    pub version: i32,
}

pub open spec fn custom_version_at(d: Seq<u8>, p: int) -> FCustomVersion {
    FCustomVersion { key: guid_at(d, p), version: u32_at(d, p + 16) as i32 }
}

impl FCustomVersion {
    pub fn new(key: FGuid, version: i32) -> (r: Self)
        ensures
            r == (FCustomVersion { key, version }),
    {
        FCustomVersion { key, version }
    }

    /// A GUID followed by a 32-bit signed version.
    pub fn from_reader(reader: &mut FUsmapReader) -> (r: Result<Self, ReaderError>)
        ensures
            final(reader).same_source(old(reader)),
            avail(old(reader).data@, old(reader).at(), 20) ==> final(reader).pos == old(reader).pos
                + 20 && r == Ok::<FCustomVersion, ReaderError>(
                custom_version_at(old(reader).data@, old(reader).at()),
            ),
            !avail(old(reader).data@, old(reader).at(), 20) ==> r == Err::<FCustomVersion, ReaderError>(
                ReaderError::UnexpectedEof,
            ),
    {
        if !reader.has_remaining(20) {
            return Err(ReaderError::UnexpectedEof);
        }
        let key = FGuid::from_reader(reader)?;
        let version = reader.read_i32()?;
        Ok(FCustomVersion { key, version })
    }
}

/// The entries of an "Optimized" container at `p`: a 32-bit signed count, then
/// that many entries (none for a count below one). `None` when the data ends first.
pub open spec fn custom_versions_at(d: Seq<u8>, p: int) -> Option<(Seq<FCustomVersion>, int)> {
    if !avail(d, p, 4) {
        None
    } else {
        let n = u32_at(d, p) as i32;
        let k: int = if n < 0 {
            0
        } else {
            n as int
        };
        if !avail(d, p + 4, 20 * k) {
            None
        } else {
            Some((Seq::new(k as nat, |i: int| custom_version_at(d, p + 4 + 20 * i)), p + 4 + 20 * k))
        }
    }
}

/// An ordered list of custom versions.
#[derive(Debug)]
pub struct FCustomVersionContainer {
    pub versions: Vec<FCustomVersion>,
}

impl FCustomVersionContainer {
    pub fn default() -> (r: Self)
        ensures
            r.versions@.len() == 0,
    {
        FCustomVersionContainer { versions: Vec::new() }
    }

    pub fn from_versions(versions: Vec<FCustomVersion>) -> (r: Self)
        ensures
            r.versions == versions,
    {
        FCustomVersionContainer { versions }
    }

    /// Reads a container in `format` (the latest when not given). Only the
    /// "Optimized" format is implemented; any other fails with `UnsupportedFormat`.
    pub fn new(reader: &mut FUsmapReader, format: Option<ECustomVersionSerializationFormat>) -> (r:
        Result<Self, ReaderError>)
        ensures
            final(reader).same_source(old(reader)),
            (format matches Some(f) && f != ECustomVersionSerializationFormat::Optimized) ==> r
                == Err::<FCustomVersionContainer, ReaderError>(ReaderError::UnsupportedFormat),
            (format matches Some(f) && f != ECustomVersionSerializationFormat::Optimized) || match custom_versions_at(
                old(reader).data@,
                old(reader).at(),
            ) {
                Some((vs, e)) => r is Ok && r->Ok_0.versions@ == vs && final(reader).at() == e,
                None => r == Err::<FCustomVersionContainer, ReaderError>(ReaderError::UnexpectedEof),
            },
    {
        let f = match format {
            Some(f) => f,
            None => ECustomVersionSerializationFormat::LATEST,
        };
        match f {
            ECustomVersionSerializationFormat::Optimized => {
                let ghost d = reader.data@;
                let ghost p = reader.at();
                let length = reader.read_i32()?;
                let count: u32 = if length < 0 {
                    0
                } else {
                    length as u32
                };
                if !(reader.pos <= reader.data.len() as u64 && (reader.data.len() as u64
                    - reader.pos) / 20 >= count as u64) {
                    return Err(ReaderError::UnexpectedEof);
                }
                let mut versions: Vec<FCustomVersion> = Vec::new();
                let mut i: u32 = 0;
                while i < count
                    invariant
                        reader.data@ == d,
                        reader.version == old(reader).version,
                        i <= count,
                        avail(d, p + 4, 20 * count),
                        reader.at() == p + 4 + 20 * i,
                        versions@ =~= Seq::new(i as nat, |j: int| custom_version_at(d, p + 4 + 20 * j)),
                    decreases count - i,
                {
                    let v = FCustomVersion::from_reader(reader)?;
                    versions.push(v);
                    i = i + 1;
                }
                Ok(FCustomVersionContainer { versions })
            },
            _ => Err(ReaderError::UnsupportedFormat),
        }
    }
}

} // verus!
