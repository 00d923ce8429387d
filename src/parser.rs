//! The container envelope of a mapping file and the decoder that unwraps it.
use vstd::prelude::*;

use crate::compression::{brotli_decompress, brotli_output, zstd_decompress, zstd_output};
use crate::mappings::{eof, mappings_of, TypeMappings, TypeMappingsModel, UsmapParserError};
use crate::reader::{avail, u16_at, u32_at, FUsmapReader, ReaderError};
use crate::versions::{
    custom_versions_at, package_version_at, usmap_compression_of, usmap_version_of, version_rank,
    EUsmapCompressionMethod, EUsmapVersion, FCustomVersion, FCustomVersionContainer,
    FPackageFileVersion,
};

verus! {

/// The two bytes that open every mapping container.
pub const USMAP_MAGIC: u16 = 0x30C4;

/// Abstract value of a [`UsmapHeader`].
pub struct UsmapHeaderModel {
    pub magic: u16,
    pub version: EUsmapVersion,
    pub package_version: FPackageFileVersion,
    pub custom_versions: Seq<FCustomVersion>,
    pub netcl: u32,
    pub compression_method: EUsmapCompressionMethod,
    pub compressed_size: u32,
    pub decompressed_size: u32,
}

/// The envelope fields that precede the payload.
#[derive(Debug)]
pub struct UsmapHeader {
    pub magic: u16,
    pub version: EUsmapVersion,
    pub package_version: FPackageFileVersion,
    pub custom_versions: FCustomVersionContainer,
    pub netcl: u32,
    pub compression_method: EUsmapCompressionMethod,
    pub compressed_size: u32,
    pub decompressed_size: u32,
}

impl View for UsmapHeader {
    type V = UsmapHeaderModel;

    open spec fn view(&self) -> UsmapHeaderModel {
        UsmapHeaderModel {
            magic: self.magic,
            version: self.version,
            package_version: self.package_version,
            custom_versions: self.custom_versions.versions@,
            netcl: self.netcl,
            compression_method: self.compression_method,
            compressed_size: self.compressed_size,
            decompressed_size: self.decompressed_size,
        }
    }
}

pub type VersioningModel = (FPackageFileVersion, Seq<FCustomVersion>, u32);

pub open spec fn no_versioning() -> VersioningModel {
    (FPackageFileVersion { file_version_ue4: 0, file_version_ue5: 0 }, Seq::empty(), 0)
}

/// The optional versioning block at `q`: from `PackageVersioning` on, a boolean
/// flag, and when it is set a package version, an "Optimized" custom-version
/// container and a network changelist.
pub open spec fn versioning_at(d: Seq<u8>, q: int, v: EUsmapVersion) -> Result<
    (VersioningModel, int),
    UsmapParserError,
> {
    if version_rank(v) < 1 {
        Ok((no_versioning(), q))
    } else if !avail(d, q, 4) {
        eof()
    } else if u32_at(d, q) as i32 == 0 {
        Ok((no_versioning(), q + 4))
    } else if u32_at(d, q) as i32 != 1 {
        Err(UsmapParserError::ReadError(ReaderError::InvalidBool))
    } else if !avail(d, q + 4, 8) {
        eof()
    } else {
        match custom_versions_at(d, q + 12) {
            None => eof(),
            Some((cv, e)) => if !avail(d, e, 4) {
                eof()
            } else {
                Ok(((package_version_at(d, q + 4), cv, u32_at(d, e)), e + 4))
            },
        }
    }
}

/// The envelope at `p`, and the position of the payload after it.
pub open spec fn header_at(d: Seq<u8>, p: int) -> Result<(UsmapHeaderModel, int), UsmapParserError> {
    if !avail(d, p, 2) {
        eof()
    } else if u16_at(d, p) != USMAP_MAGIC {
        Err(UsmapParserError::InvalidMagic)
    } else if !avail(d, p + 2, 1) {
        eof()
    } else {
        let v = usmap_version_of(d[p + 2]);
        match versioning_at(d, p + 3, v) {
            Err(e) => Err(e),
            Ok(((pv, cv, netcl), q)) => if !avail(d, q, 9) {
                eof()
            } else {
                Ok(
                    (
                        UsmapHeaderModel {
                            magic: USMAP_MAGIC,
                            version: v,
                            package_version: pv,
                            custom_versions: cv,
                            netcl,
                            compression_method: usmap_compression_of(d[q]),
                            compressed_size: u32_at(d, q + 1),
                            decompressed_size: u32_at(d, q + 5),
                        },
                        q + 9,
                    ),
                )
            },
        }
    }
}

/// The decompressed payload for an envelope whose payload starts at `q`.
/// `oodle` is what the caller's Oodle backend produced for the payload, or
/// `None` when there is no backend.
pub open spec fn unpack(h: UsmapHeaderModel, d: Seq<u8>, q: int, oodle: Option<Seq<u8>>) -> Result<
    Seq<u8>,
    UsmapParserError,
> {
    let c = h.compressed_size as int;
    let n = h.decompressed_size as int;
    match h.compression_method {
        EUsmapCompressionMethod::Uncompressed => if c != n {
            Err(UsmapParserError::CompressionSizeEquality)
        } else if !avail(d, q, c) {
            eof()
        } else {
            Ok(d.subrange(q, q + c))
        },
        EUsmapCompressionMethod::Oodle => match oodle {
            None => Err(UsmapParserError::OodleNotFound),
            Some(o) => if !avail(d, q, c) {
                eof()
            } else if o.len() != n {
                Err(UsmapParserError::ReadError(ReaderError::Decompression))
            } else {
                Ok(o)
            },
        },
        EUsmapCompressionMethod::Brotli => if !avail(d, q, c) {
            eof()
        } else {
            match brotli_output(d.subrange(q, q + c), n as nat) {
                Some(o) => Ok(o),
                None => Err(UsmapParserError::ReadError(ReaderError::Decompression)),
            }
        },
        EUsmapCompressionMethod::ZStandart => if !avail(d, q, c) {
            eof()
        } else {
            match zstd_output(d.subrange(q, q + c), n as nat) {
                Some(o) => Ok(o),
                None => Err(UsmapParserError::ReadError(ReaderError::Decompression)),
            }
        },
        EUsmapCompressionMethod::Unknown => Err(UsmapParserError::InvalidCompressionMethod),
    }
}

pub open spec fn opt_bytes(o: Option<Vec<u8>>) -> Option<Seq<u8>> {
    match o {
        Some(v) => Some(v@),
        None => None,
    }
}

/// Abstract value of a [`UsmapParser`].
pub struct UsmapParserModel {
    pub magic: u16,
    pub version: EUsmapVersion,
    pub package_version: FPackageFileVersion,
    pub compression_method: EUsmapCompressionMethod,
    pub custom_versions: Seq<FCustomVersion>,
    pub mappings: TypeMappingsModel,
    pub netcl: u32,
}

/// The whole decode of a container at `p`: envelope, payload, schema.
pub open spec fn decode_at(d: Seq<u8>, p: int, oodle: Option<Seq<u8>>) -> Result<
    UsmapParserModel,
    UsmapParserError,
> {
    match header_at(d, p) {
        Err(e) => Err(e),
        Ok((h, q)) => match unpack(h, d, q, oodle) {
            Err(e) => Err(e),
            Ok(data) => match mappings_of(data, h.version) {
                Err(e) => Err(e),
                Ok(m) => Ok(
                    UsmapParserModel {
                        magic: h.magic,
                        version: h.version,
                        package_version: h.package_version,
                        compression_method: h.compression_method,
                        custom_versions: h.custom_versions,
                        mappings: m,
                        netcl: h.netcl,
                    },
                ),
            },
        },
    }
}

/// A decoded mapping container.
#[derive(Debug)]
pub struct UsmapParser {
    pub magic: u16,
    pub version: EUsmapVersion,
    pub package_version: FPackageFileVersion,
    pub compression_method: EUsmapCompressionMethod,
    pub custom_versions: FCustomVersionContainer,
    pub mappings: TypeMappings,
    pub netcl: u32,
}

impl View for UsmapParser {
    type V = UsmapParserModel;

    open spec fn view(&self) -> UsmapParserModel {
        UsmapParserModel {
            magic: self.magic,
            version: self.version,
            package_version: self.package_version,
            compression_method: self.compression_method,
            custom_versions: self.custom_versions.versions@,
            mappings: self.mappings@,
            netcl: self.netcl,
        }
    }
}

fn lift_read<T>(r: Result<T, ReaderError>) -> (o: Result<T, UsmapParserError>)
    ensures
        match r {
            Ok(v) => o matches Ok(w) && w == v,
            Err(e) => o matches Err(x) && x == UsmapParserError::ReadError(e),
        },
{
    match r {
        Ok(v) => Ok(v),
        Err(e) => Err(UsmapParserError::ReadError(e)),
    }
}

impl UsmapParser {
    /// Reads the envelope, leaving the reader at the payload.
    pub fn read_header(reader: &mut FUsmapReader) -> (r: Result<UsmapHeader, UsmapParserError>)
        ensures
            final(reader).data@ == old(reader).data@,
            match header_at(old(reader).data@, old(reader).at()) {
                Ok((h, q)) => r is Ok && r->Ok_0@ == h && final(reader).at() == q,
                Err(e) => r is Err && r->Err_0 == e,
            },
    {
        let magic = lift_read(reader.read_u16())?;
        if magic != USMAP_MAGIC {
            return Err(UsmapParserError::InvalidMagic);
        }
        let version_byte = lift_read(reader.read_u8())?;
        let version = EUsmapVersion::from(version_byte);
        let ghost q = reader.at();
        let mut package_version = FPackageFileVersion::default();
        let mut custom_versions = FCustomVersionContainer::default();
        let mut netcl: u32 = 0;
        assert(custom_versions.versions@ =~= Seq::<FCustomVersion>::empty());
        if version.has_package_versioning() {
            let has_versioning = lift_read(reader.read_bool())?;
            if has_versioning {
                if !reader.has_remaining(8) {
                    return Err(UsmapParserError::ReadError(ReaderError::UnexpectedEof));
                }
                package_version = lift_read(FPackageFileVersion::from_reader(reader))?;
                custom_versions = lift_read(FCustomVersionContainer::new(reader, None))?;
                netcl = lift_read(reader.read_u32())?;
            }
        }
        assert(versioning_at(reader.data@, q, version) == Ok::<(VersioningModel, int), UsmapParserError>(
            ((package_version, custom_versions.versions@, netcl), reader.at()),
        ));
        if !reader.has_remaining(9) {
            return Err(UsmapParserError::ReadError(ReaderError::UnexpectedEof));
        }
        let method_byte = lift_read(reader.read_u8())?;
        let compression_method = EUsmapCompressionMethod::from(method_byte);
        let compressed_size = lift_read(reader.read_u32())?;
        let decompressed_size = lift_read(reader.read_u32())?;
        Ok(
            UsmapHeader {
                magic,
                version,
                package_version,
                custom_versions,
                netcl,
                compression_method,
                compressed_size,
                decompressed_size,
            },
        )
    }

    /// Unwraps the payload that follows `header` by its compression method.
    /// `oodle` is what the caller's Oodle backend produced for the payload, or
    /// `None` when no backend is present.
    pub fn decompress(header: &UsmapHeader, reader: &mut FUsmapReader, oodle: Option<Vec<u8>>) -> (r:
        Result<Vec<u8>, UsmapParserError>)
        ensures
            final(reader).data@ == old(reader).data@,
            match unpack(header@, old(reader).data@, old(reader).at(), opt_bytes(oodle)) {
                Ok(b) => r is Ok && r->Ok_0@ == b,
                Err(e) => r is Err && r->Err_0 == e,
            },
    {
        let c = header.compressed_size;
        let n = header.decompressed_size;
        match header.compression_method {
            EUsmapCompressionMethod::Uncompressed => {
                if c != n {
                    return Err(UsmapParserError::CompressionSizeEquality);
                }
                lift_read(reader.read_exact(c as u64))
            },
            EUsmapCompressionMethod::Oodle => match oodle {
                None => Err(UsmapParserError::OodleNotFound),
                Some(out) => {
                    let _payload = lift_read(reader.read_exact(c as u64))?;
                    if out.len() != n as usize {
                        Err(UsmapParserError::ReadError(ReaderError::Decompression))
                    } else {
                        Ok(out)
                    }
                },
            },
            EUsmapCompressionMethod::Brotli => {
                let payload = lift_read(reader.read_exact(c as u64))?;
                match brotli_decompress(payload.as_slice(), n as usize) {
                    Some(out) => Ok(out),
                    None => Err(UsmapParserError::ReadError(ReaderError::Decompression)),
                }
            },
            EUsmapCompressionMethod::ZStandart => {
                let payload = lift_read(reader.read_exact(c as u64))?;
                match zstd_decompress(payload.as_slice(), n as usize) {
                    Some(out) => Ok(out),
                    None => Err(UsmapParserError::ReadError(ReaderError::Decompression)),
                }
            },
            EUsmapCompressionMethod::Unknown => Err(UsmapParserError::InvalidCompressionMethod),
        }
    }

    /// Decodes a whole container: envelope, payload, then the schema it holds.
    /// `oodle` is what the caller's Oodle backend produced for the payload, or
    /// `None` when no backend is present.
    pub fn from_reader(reader: &mut FUsmapReader, oodle: Option<Vec<u8>>) -> (r: Result<
        Self,
        UsmapParserError,
    >)
        ensures
            match decode_at(old(reader).data@, old(reader).at(), opt_bytes(oodle)) {
                Ok(m) => r is Ok && r->Ok_0@ == m,
                Err(e) => r is Err && r->Err_0 == e,
            },
            r matches Ok(p) ==> p.mappings@.wf(),
    {
        let header = UsmapParser::read_header(reader)?;
        let data = UsmapParser::decompress(&header, reader, oodle)?;
        let mappings = TypeMappings::from_payload(data, header.version)?;
        Ok(
            UsmapParser {
                magic: header.magic,
                version: header.version,
                package_version: header.package_version,
                compression_method: header.compression_method,
                custom_versions: header.custom_versions,
                mappings,
                netcl: header.netcl,
            },
        )
    }
}

/// Decoding is deterministic: two decodes of the same bytes, with the same
/// backend output, give structurally identical results.
pub proof fn lemma_decode_deterministic(
    d: Seq<u8>,
    p: int,
    oodle: Option<Seq<u8>>,
    first: Result<UsmapParserModel, UsmapParserError>,
    second: Result<UsmapParserModel, UsmapParserError>,
)
    requires
        first == decode_at(d, p, oodle),
        second == decode_at(d, p, oodle),
    ensures
        first == second,
{
}

/// A container whose first two bytes are not the magic fails with
/// `InvalidMagic`, whatever follows them.
pub proof fn lemma_bad_magic_fails(d: Seq<u8>, p: int, oodle: Option<Seq<u8>>)
    requires
        avail(d, p, 2),
        u16_at(d, p) != USMAP_MAGIC,
    ensures
        decode_at(d, p, oodle) == Err::<UsmapParserModel, UsmapParserError>(
            UsmapParserError::InvalidMagic,
        ),
{
}

/// An uncompressed payload whose declared sizes differ fails with
/// `CompressionSizeEquality`, before any payload byte is read.
pub proof fn lemma_uncompressed_size_mismatch_fails(d: Seq<u8>, p: int, oodle: Option<Seq<u8>>)
    requires
        header_at(d, p) matches Ok((h, _)) && h.compression_method
            == EUsmapCompressionMethod::Uncompressed && h.compressed_size != h.decompressed_size,
    ensures
        decode_at(d, p, oodle) == Err::<UsmapParserModel, UsmapParserError>(
            UsmapParserError::CompressionSizeEquality,
        ),
{
}

} // verus!
