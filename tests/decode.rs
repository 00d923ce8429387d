use rueparse::mappings::{TypeMappings, UsmapParserError};
use rueparse::parser::UsmapParser;
use rueparse::properties::{PropertyInfo, PropertyType, Struct};
use rueparse::reader::{FUsmapReader, ReaderError};
use rueparse::versions::{
    CompressionMethod, ECustomVersionSerializationFormat, EUsmapCompressionMethod, EUsmapVersion,
    FCustomVersionContainer,
};

const MAP: u8 = 24;
const STRUCT: u8 = 9;
const INT: u8 = 2;
const BOOL: u8 = 1;
const ARRAY: u8 = 8;
const ENUM: u8 = 26;
const BYTE: u8 = 0;

#[derive(Default)]
struct Bytes(Vec<u8>);

impl Bytes {
    fn u8(mut self, v: u8) -> Self {
        self.0.push(v);
        self
    }
    fn u16(mut self, v: u16) -> Self {
        self.0.extend_from_slice(&v.to_le_bytes());
        self
    }
    fn u32(mut self, v: u32) -> Self {
        self.0.extend_from_slice(&v.to_le_bytes());
        self
    }
    fn i32(mut self, v: i32) -> Self {
        self.0.extend_from_slice(&v.to_le_bytes());
        self
    }
    fn raw(mut self, v: &[u8]) -> Self {
        self.0.extend_from_slice(v);
        self
    }
    fn name_table(mut self, wide: bool, names: &[&str]) -> Self {
        self = self.u32(names.len() as u32);
        for n in names {
            self = if wide { self.u16(n.len() as u16) } else { self.u8(n.len() as u8) };
            self = self.raw(n.as_bytes());
        }
        self
    }
}

/// A payload with the given name table, no enums, and the given raw struct records.
fn payload(wide: bool, names: &[&str], structs: &[Vec<u8>]) -> Vec<u8> {
    let mut b = Bytes::default().name_table(wide, names).u32(0).u32(structs.len() as u32);
    for s in structs {
        b = b.raw(s);
    }
    b.0
}

/// A struct record: name, super name, counts, then raw property records.
fn struct_record(name: i32, sup: i32, props: &[Vec<u8>]) -> Vec<u8> {
    let mut b = Bytes::default()
        .i32(name)
        .i32(sup)
        .u16(props.len() as u16)
        .u16(props.len() as u16);
    for p in props {
        b = b.raw(p);
    }
    b.0
}

fn container(version: u8, method: u8, comp: u32, decomp: u32, body: &[u8]) -> Vec<u8> {
    let mut b = Bytes::default().u16(0x30C4).u8(version);
    if version >= 1 {
        b = b.i32(0);
    }
    b.u8(method).u32(comp).u32(decomp).raw(body).0
}

fn uncompressed(version: u8, body: &[u8]) -> Vec<u8> {
    container(version, 0, body.len() as u32, body.len() as u32, body)
}

fn decode(bytes: Vec<u8>) -> Result<UsmapParser, UsmapParserError> {
    let mut reader = FUsmapReader::new(bytes, EUsmapVersion::Initial);
    UsmapParser::from_reader(&mut reader, None)
}

fn find<'a>(m: &'a TypeMappings, name: &str) -> &'a Struct {
    let i = m.find_struct(&name.to_string()).expect("struct present");
    &m.types[i]
}

fn same_type(a: &PropertyType, b: &PropertyType) -> bool {
    a.f_type == b.f_type
        && a.struct_type == b.struct_type
        && a.enum_name == b.enum_name
        && match (&a.inner_type, &b.inner_type) {
            (Some(x), Some(y)) => same_type(x, y),
            (None, None) => true,
            _ => false,
        }
        && match (&a.value_type, &b.value_type) {
            (Some(x), Some(y)) => same_type(x, y),
            (None, None) => true,
            _ => false,
        }
}

fn same_info(a: &PropertyInfo, b: &PropertyInfo) -> bool {
    a.index == b.index
        && a.name == b.name
        && a.array_size == b.array_size
        && same_type(&a.mapping_type, &b.mapping_type)
}

fn same_mappings(a: &TypeMappings, b: &TypeMappings) -> bool {
    a.enums == b.enums
        && a.types.len() == b.types.len()
        && a.types.iter().zip(b.types.iter()).all(|(x, y)| {
            x.name == y.name
                && x.super_type == y.super_type
                && x.super_struct == y.super_struct
                && x.property_count == y.property_count
                && x.properties.len() == y.properties.len()
                && x.properties.iter().all(|(k, v)| y.properties.get(k).map_or(false, |w| same_info(v, w)))
        })
}

#[test]
fn array_property_expands_to_consecutive_slots() {
    // property "Values": slot 5, array dimension 3, int
    let prop = Bytes::default().u16(5).u8(3).i32(1).u8(INT).0;
    let body = payload(false, &["Holder", "Values"], &[struct_record(0, -1, &[prop])]);
    let parsed = decode(uncompressed(0, &body)).unwrap();
    let s = find(&parsed.mappings, "Holder");
    assert_eq!(s.properties.len(), 3);
    for slot in [5, 6, 7] {
        let p = &s.properties[&slot];
        assert_eq!(p.index, slot);
        assert_eq!(p.name, "Values");
        assert_eq!(p.array_size, Some(3));
        assert_eq!(p.mapping_type.f_type, "IntProperty");
    }
    assert!(s.properties.get(&4).is_none());
    assert!(s.properties.get(&8).is_none());
}

#[test]
fn uncompressed_size_mismatch_is_rejected() {
    let body = payload(false, &[], &[]);
    let bytes = container(0, 0, body.len() as u32, body.len() as u32 + 1, &body);
    assert!(matches!(decode(bytes), Err(UsmapParserError::CompressionSizeEquality)));
}

#[test]
fn size_mismatch_wins_over_missing_payload() {
    let bytes = container(0, 0, 100, 50, &[]);
    assert!(matches!(decode(bytes), Err(UsmapParserError::CompressionSizeEquality)));
}

#[test]
fn wrong_magic_is_rejected_first() {
    let bytes = vec![0xC5, 0x30];
    assert!(matches!(decode(bytes), Err(UsmapParserError::InvalidMagic)));
    let mut good = uncompressed(0, &payload(false, &[], &[]));
    good[0] = 0x00;
    assert!(matches!(decode(good), Err(UsmapParserError::InvalidMagic)));
}

#[test]
fn empty_input_is_a_truncated_read() {
    assert!(matches!(
        decode(vec![]),
        Err(UsmapParserError::ReadError(ReaderError::UnexpectedEof))
    ));
}

#[test]
fn name_lengths_follow_the_version_width() {
    let names = ["Alpha", "Beta"];
    let narrow = payload(false, &names, &[struct_record(0, 1, &[])]);
    let wide = payload(true, &names, &[struct_record(0, 1, &[])]);
    let a = decode(uncompressed(1, &narrow)).unwrap();
    let b = decode(uncompressed(2, &wide)).unwrap();
    assert_eq!(a.version, EUsmapVersion::PackageVersioning);
    assert_eq!(b.version, EUsmapVersion::LongFName);
    assert!(same_mappings(&a.mappings, &b.mappings));
    assert_eq!(find(&a.mappings, "Alpha").super_type, Some("Beta".to_string()));
    // the same bytes under the other width do not give the same schema
    let misread = decode(uncompressed(2, &narrow));
    assert!(misread.is_err() || !same_mappings(&misread.unwrap().mappings, &a.mappings));
    let misread = decode(uncompressed(1, &wide));
    assert!(misread.is_err() || !same_mappings(&misread.unwrap().mappings, &b.mappings));
}

#[test]
fn map_of_map_consumes_both_trees() {
    // Map<Map<int, bool>, Struct "Inner">, followed by a second property
    let map_prop = Bytes::default()
        .u16(0)
        .u8(1)
        .i32(1)
        .u8(MAP)
        .u8(MAP)
        .u8(INT)
        .u8(BOOL)
        .u8(STRUCT)
        .i32(2)
        .0;
    let next_prop = Bytes::default().u16(1).u8(1).i32(3).u8(BYTE).0;
    let body = payload(
        false,
        &["Owner", "Lookup", "Inner", "After"],
        &[struct_record(0, -1, &[map_prop, next_prop])],
    );
    let parsed = decode(uncompressed(0, &body)).unwrap();
    let s = find(&parsed.mappings, "Owner");
    let m = &s.properties[&0].mapping_type;
    assert_eq!(m.f_type, "MapProperty");
    let key = m.inner_type.as_ref().unwrap();
    assert_eq!(key.f_type, "MapProperty");
    assert_eq!(key.inner_type.as_ref().unwrap().f_type, "IntProperty");
    assert_eq!(key.value_type.as_ref().unwrap().f_type, "BoolProperty");
    let value = m.value_type.as_ref().unwrap();
    assert_eq!(value.f_type, "StructProperty");
    assert_eq!(value.struct_type, Some("Inner".to_string()));
    let after = &s.properties[&1];
    assert_eq!(after.name, "After");
    assert_eq!(after.mapping_type.f_type, "ByteProperty");
}

#[test]
fn super_struct_links_to_named_struct() {
    // "Child" names "Base" as super; "Base" comes later in the file
    let body = payload(
        false,
        &["Child", "Base", "Prop"],
        &[
            struct_record(0, 1, &[]),
            struct_record(1, -1, &[Bytes::default().u16(0).u8(1).i32(2).u8(INT).0]),
        ],
    );
    let parsed = decode(uncompressed(0, &body)).unwrap();
    let m = &parsed.mappings;
    let child = find(m, "Child");
    let link = child.super_struct.unwrap().unwrap();
    assert_eq!(m.types[link].name, "Base");
    assert_eq!(m.types[link].properties[&0].name, "Prop");
    assert_eq!(find(m, "Base").super_struct, Some(None));
}

#[test]
fn missing_super_leaves_link_empty() {
    let body = payload(
        false,
        &["Lonely", "Nowhere"],
        &[struct_record(0, 1, &[])],
    );
    let parsed = decode(uncompressed(0, &body)).unwrap();
    let s = find(&parsed.mappings, "Lonely");
    assert_eq!(s.super_type, Some("Nowhere".to_string()));
    assert_eq!(s.super_struct, Some(None));
}

#[test]
fn decoding_twice_gives_the_same_schema() {
    let prop = Bytes::default().u16(2).u8(2).i32(2).u8(ARRAY).u8(INT).0;
    let body = payload(
        false,
        &["A", "B", "List"],
        &[struct_record(0, 1, &[prop]), struct_record(1, -1, &[])],
    );
    let bytes = uncompressed(0, &body);
    let first = decode(bytes.clone()).unwrap();
    let second = decode(bytes).unwrap();
    assert!(same_mappings(&first.mappings, &second.mappings));
}

#[test]
fn later_struct_of_same_name_replaces_earlier() {
    let body = payload(
        false,
        &["Twice", "P"],
        &[
            struct_record(0, -1, &[]),
            struct_record(0, -1, &[Bytes::default().u16(0).u8(1).i32(1).u8(INT).0]),
        ],
    );
    let parsed = decode(uncompressed(0, &body)).unwrap();
    assert_eq!(parsed.mappings.types.len(), 1);
    assert_eq!(parsed.mappings.types[0].properties.len(), 1);
}

#[test]
fn enums_list_members_by_ordinal() {
    let names = ["EColor", "Red", "Green", "Blue"];
    let body = Bytes::default()
        .name_table(true, &names)
        .u32(1)
        .i32(0)
        .u16(3)
        .i32(1)
        .i32(2)
        .i32(3)
        .u32(0)
        .0;
    let parsed = decode(uncompressed(3, &body)).unwrap();
    let i = parsed.mappings.find_enum(&"EColor".to_string()).unwrap();
    let (name, members) = &parsed.mappings.enums[i];
    assert_eq!(name, "EColor");
    assert_eq!(members, &vec!["Red".to_string(), "Green".to_string(), "Blue".to_string()]);
}

#[test]
fn enum_property_reads_inner_type_and_enum_name() {
    let prop = Bytes::default().u16(0).u8(1).i32(1).u8(ENUM).u8(BYTE).i32(2).0;
    let body = payload(false, &["S", "Mode", "EMode"], &[struct_record(0, -1, &[prop])]);
    let parsed = decode(uncompressed(0, &body)).unwrap();
    let t = &find(&parsed.mappings, "S").properties[&0].mapping_type;
    assert_eq!(t.f_type, "EnumProperty");
    assert_eq!(t.enum_name, Some("EMode".to_string()));
    assert_eq!(t.inner_type.as_ref().unwrap().f_type, "ByteProperty");
}

#[test]
fn invalid_utf8_name_is_rejected() {
    let body = Bytes::default().u32(1).u8(2).raw(&[0xFF, 0xFE]).u32(0).u32(0).0;
    assert!(matches!(
        decode(uncompressed(0, &body)),
        Err(UsmapParserError::FromUtf8Error)
    ));
}

#[test]
fn name_index_out_of_range_is_rejected() {
    let body = payload(false, &["Only"], &[struct_record(5, -1, &[])]);
    assert!(matches!(
        decode(uncompressed(0, &body)),
        Err(UsmapParserError::ReadError(ReaderError::NameIndexOutOfRange))
    ));
}

#[test]
fn truncated_struct_table_is_rejected() {
    let mut body = payload(false, &["S"], &[struct_record(0, -1, &[])]);
    body.truncate(body.len() - 1);
    assert!(matches!(
        decode(uncompressed(0, &body)),
        Err(UsmapParserError::ReadError(ReaderError::UnexpectedEof))
    ));
}

#[test]
fn unknown_compression_is_rejected() {
    let bytes = container(0, 7, 0, 0, &[]);
    assert!(matches!(decode(bytes), Err(UsmapParserError::InvalidCompressionMethod)));
}

#[test]
fn oodle_without_backend_is_rejected() {
    let bytes = container(0, 1, 4, 12, &[1, 2, 3, 4]);
    assert!(matches!(decode(bytes), Err(UsmapParserError::OodleNotFound)));
}

#[test]
fn oodle_backend_output_is_decoded() {
    let body = payload(false, &["FromOodle"], &[struct_record(0, -1, &[])]);
    let bytes = container(0, 1, 3, body.len() as u32, &[9, 9, 9]);
    let mut reader = FUsmapReader::new(bytes.clone(), EUsmapVersion::Initial);
    let parsed = UsmapParser::from_reader(&mut reader, Some(body.clone())).unwrap();
    assert_eq!(parsed.compression_method, EUsmapCompressionMethod::Oodle);
    assert_eq!(parsed.mappings.types[0].name, "FromOodle");
    // output of the wrong size is a decompression failure
    let mut reader = FUsmapReader::new(bytes, EUsmapVersion::Initial);
    let short = body[..body.len() - 1].to_vec();
    assert!(matches!(
        UsmapParser::from_reader(&mut reader, Some(short)),
        Err(UsmapParserError::ReadError(ReaderError::Decompression))
    ));
}

#[test]
fn brotli_payload_is_decoded() {
    let body = payload(false, &["Squeezed"], &[struct_record(0, -1, &[])]);
    let mut packed = Vec::new();
    {
        let mut w = brotli::CompressorWriter::new(&mut packed, 4096, 5, 22);
        std::io::Write::write_all(&mut w, &body).unwrap();
    }
    let bytes = container(0, 2, packed.len() as u32, body.len() as u32, &packed);
    let parsed = decode(bytes).unwrap();
    assert_eq!(parsed.compression_method, EUsmapCompressionMethod::Brotli);
    assert_eq!(parsed.mappings.types[0].name, "Squeezed");
}

#[test]
fn corrupt_brotli_payload_is_rejected() {
    let bytes = container(0, 2, 4, 16, &[0xFF, 0xFF, 0xFF, 0xFF]);
    assert!(matches!(
        decode(bytes),
        Err(UsmapParserError::ReadError(ReaderError::Decompression))
    ));
}

#[test]
fn zstd_payload_is_decoded() {
    let body = payload(false, &["Packed"], &[struct_record(0, -1, &[])]);
    let packed = zstd::bulk::compress(&body, 3).unwrap();
    let bytes = container(0, 3, packed.len() as u32, body.len() as u32, &packed);
    let parsed = decode(bytes).unwrap();
    assert_eq!(parsed.compression_method, EUsmapCompressionMethod::ZStandart);
    assert_eq!(parsed.mappings.types[0].name, "Packed");
}

#[test]
fn corrupt_zstd_payload_is_rejected() {
    let bytes = container(0, 3, 4, 16, &[1, 2, 3, 4]);
    assert!(matches!(
        decode(bytes),
        Err(UsmapParserError::ReadError(ReaderError::Decompression))
    ));
}

#[test]
fn versioning_block_is_read_when_flagged() {
    let body = payload(false, &[], &[]);
    let bytes = Bytes::default()
        .u16(0x30C4)
        .u8(1)
        .i32(1)
        .i32(522)
        .i32(1009)
        .i32(1)
        .u32(0x11)
        .u32(0x22)
        .u32(0x33)
        .u32(0x44)
        .i32(7)
        .u32(123456)
        .u8(0)
        .u32(body.len() as u32)
        .u32(body.len() as u32)
        .raw(&body)
        .0;
    let parsed = decode(bytes).unwrap();
    assert_eq!(parsed.package_version.file_version_ue4, 522);
    assert_eq!(parsed.package_version.file_version_ue5, 1009);
    assert_eq!(parsed.netcl, 123456);
    assert_eq!(parsed.custom_versions.versions.len(), 1);
    assert_eq!(parsed.custom_versions.versions[0].key.a, 0x11);
    assert_eq!(parsed.custom_versions.versions[0].key.d, 0x44);
    assert_eq!(parsed.custom_versions.versions[0].version, 7);
}

#[test]
fn bad_versioning_flag_is_rejected() {
    let bytes = Bytes::default().u16(0x30C4).u8(1).i32(2).0;
    assert!(matches!(
        decode(bytes),
        Err(UsmapParserError::ReadError(ReaderError::InvalidBool))
    ));
}

#[test]
fn unknown_version_tag_means_latest() {
    let body = payload(true, &["Wide"], &[struct_record(0, -1, &[])]);
    let parsed = decode(uncompressed(9, &body)).unwrap();
    assert_eq!(parsed.version, EUsmapVersion::LargeEnums);
    assert_eq!(EUsmapVersion::from(200u8), EUsmapVersion::LATEST);
    assert_eq!(EUsmapVersion::from(0u8), EUsmapVersion::Initial);
}

#[test]
fn compression_tags_map_to_methods() {
    assert_eq!(EUsmapCompressionMethod::from(0u8), EUsmapCompressionMethod::Uncompressed);
    assert_eq!(EUsmapCompressionMethod::from(3u8), EUsmapCompressionMethod::ZStandart);
    assert_eq!(EUsmapCompressionMethod::from(4u8), EUsmapCompressionMethod::Unknown);
    assert_eq!(CompressionMethod::from(4u8), CompressionMethod::Oodle);
    assert_eq!(CompressionMethod::from(6u8), CompressionMethod::Zstd);
    assert_eq!(CompressionMethod::from(99u8), CompressionMethod::Unknown);
    assert_eq!(CompressionMethod::Zstd.to_u8(), 6);
}

#[test]
fn custom_versions_only_in_optimized_format() {
    let bytes = Bytes::default().i32(2).u32(1).u32(2).u32(3).u32(4).i32(10).u32(5).u32(6).u32(7).u32(8).i32(-3).0;
    let mut reader = FUsmapReader::new(bytes.clone(), EUsmapVersion::Initial);
    let c = FCustomVersionContainer::new(&mut reader, None).unwrap();
    assert_eq!(c.versions.len(), 2);
    assert_eq!(c.versions[1].key.b, 6);
    assert_eq!(c.versions[1].version, -3);
    let mut reader = FUsmapReader::new(bytes, EUsmapVersion::Initial);
    assert!(matches!(
        FCustomVersionContainer::new(&mut reader, Some(ECustomVersionSerializationFormat::Guids)),
        Err(ReaderError::UnsupportedFormat)
    ));
    let mut reader = FUsmapReader::new(Bytes::default().i32(-5).0, EUsmapVersion::Initial);
    assert_eq!(FCustomVersionContainer::new(&mut reader, None).unwrap().versions.len(), 0);
}

#[test]
fn reader_primitives_are_little_endian() {
    let mut r = FUsmapReader::new(
        vec![0x01, 0x02, 0x03, 0x04, 0xFF, 0xFF, 0xFF, 0xFF, 2, 0, 0, 0],
        EUsmapVersion::Initial,
    );
    assert_eq!(r.read_u16().unwrap(), 0x0201);
    assert_eq!(r.read_u8().unwrap(), 3);
    assert_eq!(r.seek(4).unwrap(), 4);
    assert_eq!(r.read_i32().unwrap(), -1);
    assert!(matches!(r.read_bool(), Err(ReaderError::InvalidBool)));
    assert!(matches!(r.read_u8(), Err(ReaderError::UnexpectedEof)));
    r.seek(0).unwrap();
    assert_eq!(r.read_u64().unwrap(), 0xFFFF_FFFF_0403_0201);
    let names = vec!["zero".to_string()];
    let mut r = FUsmapReader::new(vec![0, 0, 0, 0, 0xFF, 0xFF, 0xFF, 0xFF, 1, 0, 0, 0], EUsmapVersion::Initial);
    assert_eq!(r.read_name(&names).unwrap(), "zero");
    assert_eq!(r.read_name(&names).unwrap(), "");
    assert!(matches!(r.read_name(&names), Err(ReaderError::NameIndexOutOfRange)));
}

#[test]
fn property_type_parse_stands_alone() {
    let names = vec!["Thing".to_string()];
    let mut r = FUsmapReader::new(vec![ARRAY, STRUCT, 0, 0, 0, 0, 200], EUsmapVersion::Initial);
    let t = PropertyType::parse(&mut r, &names).unwrap();
    assert_eq!(t.f_type, "ArrayProperty");
    assert_eq!(t.inner_type.as_ref().unwrap().struct_type, Some("Thing".to_string()));
    let u = PropertyType::parse(&mut r, &names).unwrap();
    assert_eq!(u.f_type, "Unknown");
    let mut r = FUsmapReader::new(vec![MAP, INT], EUsmapVersion::Initial);
    assert!(matches!(PropertyType::parse(&mut r, &names), Err(ReaderError::UnexpectedEof)));
}

#[test]
fn init_super_resolves_once() {
    let registry = vec![
        Struct::new("Base".to_string(), 0),
        Struct::new("Other".to_string(), 0),
    ];
    let mut s = Struct::new_with_super(
        "Child".to_string(),
        Some("Other".to_string()),
        std::collections::HashMap::new(),
        2,
    );
    assert_eq!(s.super_struct, None);
    s.init_super(&registry);
    assert_eq!(s.super_struct, Some(Some(1)));
    s.init_super(&vec![]);
    assert_eq!(s.super_struct, Some(Some(1)));
    let mut lone = Struct::new("Lone".to_string(), 0);
    lone.init_super(&registry);
    assert_eq!(lone.super_struct, Some(None));
}

#[test]
fn expand_into_overwrites_only_its_slots() {
    let t = PropertyType::new("IntProperty".to_string(), None, None, None, None, None, None);
    let mut props = std::collections::HashMap::new();
    let keep = PropertyInfo::new(1, "Keep".to_string(), t.clone(), Some(1));
    keep.expand_into(&mut props);
    let arr = PropertyInfo::new(2, "Arr".to_string(), t, Some(2));
    arr.expand_into(&mut props);
    assert_eq!(props.len(), 3);
    assert_eq!(props[&1].name, "Keep");
    assert_eq!(props[&2].index, 2);
    assert_eq!(props[&3].index, 3);
    assert_eq!(props[&3].name, "Arr");
    let none = PropertyInfo::new(9, "None".to_string(), props[&1].mapping_type.clone(), Some(0));
    none.expand_into(&mut props);
    assert_eq!(props.len(), 3);
}
