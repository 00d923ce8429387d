use rueparse::aes::FAesKey;
use rueparse::files::{eq_ignore_ascii_case, DirectoryInfo, FileInfo, GameFile, OsGameFile, VersionedGameFile};
use rueparse::guid::FGuid;
use rueparse::io_store::{EIoContainerFlags, EIoErrorCode, FIoContainerId, FIoStatus, FIoStoreTocHeader};
use rueparse::reader::{FUsmapReader, ReaderError};
use rueparse::versions::{CompressionMethod, EUsmapVersion, FPackageFileVersion};

#[test]
fn guid_hex_round_trip() {
    let g = FGuid::new(0x0123ABCD, 0xDEADBEEF, 0x00000001, 0xFFFFFFFF);
    let text = g.to_hex();
    assert_eq!(text, "0123ABCDDEADBEEF00000001FFFFFFFF");
    assert_eq!(FGuid::from_hex(&text).unwrap(), g);
    assert_eq!(FGuid::from_hex(&text.to_lowercase()).unwrap(), g);
}

#[test]
fn guid_hex_rejects_bad_input() {
    assert_eq!(FGuid::from_hex("1234"), Err("Hex string must be 32 characters long"));
    assert_eq!(
        FGuid::from_hex("0123ABCDDEADBEEF00000001FFFFFFFG"),
        Err("Invalid hex format")
    );
}

#[test]
fn guid_dashed_round_trip() {
    let g = FGuid::new(0x0123ABCD, 0xDEADBEEF, 0x00010002, 0x3456789A);
    let text = g.to_str();
    assert_eq!(text, "0123ABCD-DEAD-BEEF-0001-00023456789A");
    assert_eq!(FGuid::from_str(&text).unwrap(), g);
    assert_eq!(FGuid::from_str("0123abcddeadbeef000100023456789a").unwrap(), g);
    assert_eq!(FGuid::from_str("0123-ABCD"), Err("Invalid hex format"));
}

#[test]
fn guid_reads_four_words() {
    let mut bytes = Vec::new();
    for w in [1u32, 2, 3, 0xA0B0C0D0] {
        bytes.extend_from_slice(&w.to_le_bytes());
    }
    let mut r = FUsmapReader::new(bytes, EUsmapVersion::Initial);
    assert_eq!(FGuid::from_reader(&mut r).unwrap(), FGuid::new(1, 2, 3, 0xA0B0C0D0));
    assert!(matches!(FGuid::from_reader(&mut r), Err(ReaderError::UnexpectedEof)));
}

#[test]
fn package_version_reads_two_ints() {
    let mut r = FUsmapReader::new(vec![0x0A, 0, 0, 0, 0xFE, 0xFF, 0xFF, 0xFF], EUsmapVersion::Initial);
    let v = FPackageFileVersion::from_reader(&mut r).unwrap();
    assert_eq!(v.file_version_ue4, 10);
    assert_eq!(v.file_version_ue5, -2);
    assert_eq!(FPackageFileVersion::default().file_version_ue4, 0);
}

#[test]
fn aes_key_from_text() {
    let k = FAesKey::from_str("0x0aFF").unwrap();
    assert_eq!(k.key, vec![0x0A, 0xFF]);
    assert_eq!(k.key_string, "0x0aFF");
    let k = FAesKey::from_str("1234").unwrap();
    assert_eq!(k.key, vec![0x12, 0x34]);
    assert_eq!(k.key_string, "0x1234");
    assert!(FAesKey::from_str("123").is_err());
    assert!(FAesKey::from_str("0xzz").is_err());
}

#[test]
fn aes_key_from_bytes() {
    let k = FAesKey::from_bytes(b"abc".to_vec()).unwrap();
    assert_eq!(k.key, b"abc".to_vec());
    assert_eq!(k.key_string, "0xabc");
    assert!(FAesKey::from_bytes(vec![0xFF]).is_err());
}

#[test]
fn game_file_extensions() {
    let mut f = GameFile::new("Game/Content/Hero.UAsset".to_string(), 12);
    assert_eq!(f.extension(), "UAsset");
    assert!(f.is_ue_package());
    assert!(!f.is_ue_package_payload());
    let mut p = GameFile::new("a.b/Data.ubulk".to_string(), 0);
    assert!(p.is_ue_package_payload());
    let mut n = GameFile::new("NoDot".to_string(), 0);
    assert_eq!(n.extension(), "NoDot");
    assert!(!n.is_ue_package());
    assert_eq!(f.compression_method, CompressionMethod::Unknown);
    assert!(eq_ignore_ascii_case("UMap", "umAP"));
    assert!(!eq_ignore_ascii_case("umap", "umaps"));
}

#[test]
fn os_game_file_mounts_relative_path() {
    let base = DirectoryInfo::from_entries("C:\\Game".to_string(), None, None, vec![], vec![]);
    assert!(base.is_empty);
    let info = FileInfo {
        path: "C:\\Game\\Content\\Map.umap".to_string(),
        size: 42,
        created: None,
        modified: None,
        is_read_only: false,
    };
    let f = OsGameFile::new(base, info, "MyGame/".to_string());
    assert_eq!(f.versioned_game_file.game_file.path, "MyGame/Content/Map.umap");
    assert_eq!(f.versioned_game_file.game_file.size, 42);
    assert_eq!(f.compression_method, CompressionMethod::Uncompressed);
    let v = VersionedGameFile::new("x/y.uasset", 3);
    assert_eq!(v.game_file.path, "x/y.uasset");
}

#[test]
fn directory_with_entries_is_not_empty() {
    let d = DirectoryInfo::from_entries("dir".to_string(), None, None, vec!["a".to_string()], vec![]);
    assert!(!d.is_empty);
}

#[test]
fn io_store_values_as_text() {
    assert_eq!(FIoContainerId::new(0).to_string(), "0");
    assert_eq!(FIoContainerId::new(18446744073709551615).to_string(), "18446744073709551615");
    let s = FIoStatus::new(EIoErrorCode::CorruptToc, "bad toc".to_string());
    assert_eq!(s.to_string(), "bad toc (CorruptToc)");
    assert_eq!(FIoStatus::new(EIoErrorCode::Success, String::new()).to_string(), " (Ok)");
    assert_eq!(EIoContainerFlags::Indexed.bits(), 8);
    assert_eq!(EIoContainerFlags::NoFlags.bits(), 0);
}

fn toc_bytes() -> Vec<u8> {
    let mut b = vec![0x2D, 0x3D, 0x3D, 0x2D, 0x2D, 0x3D, 0x3D, 0x2D, 0x2D, 0x3D, 0x3D, 0x2D, 0x2D, 0x3D, 0x3D, 0x2D];
    b.push(3); // version
    b.push(0);
    b.extend_from_slice(&0u16.to_le_bytes());
    for v in 1u32..=9 {
        b.extend_from_slice(&(v * 100).to_le_bytes());
    }
    b.extend_from_slice(&0x1122334455667788u64.to_le_bytes());
    for w in [5u32, 6, 7, 8] {
        b.extend_from_slice(&w.to_le_bytes());
    }
    b.push(0b1010); // flags
    b.push(0);
    b.extend_from_slice(&0u16.to_le_bytes());
    b.extend_from_slice(&77u32.to_le_bytes());
    b.extend_from_slice(&65536u64.to_le_bytes());
    b.extend_from_slice(&88u32.to_le_bytes());
    b.extend_from_slice(&0u32.to_le_bytes());
    for i in 0u64..5 {
        b.extend_from_slice(&i.to_le_bytes());
    }
    b
}

#[test]
fn toc_header_is_read() {
    let bytes = toc_bytes();
    assert_eq!(bytes.len(), 144);
    let mut r = FUsmapReader::new(bytes, EUsmapVersion::Initial);
    let h = FIoStoreTocHeader::from_reader(&mut r).unwrap();
    assert_eq!(h.version, 3);
    assert_eq!(h.toc_header_size, 100);
    assert_eq!(h.partition_count, 900);
    assert_eq!(h.container_id.id, 0x1122334455667788);
    assert_eq!(h.encryption_key_guid, FGuid::new(5, 6, 7, 8));
    assert_eq!(h.container_flags, 0b1010);
    assert_eq!(h.toc_chunk_perfect_hash_seeds_count, 77);
    assert_eq!(h.partition_size, 65536);
    assert_eq!(h.toc_chunks_without_perfect_hash_count, 88);
    assert_eq!(h.reserved8, [0, 1, 2, 3, 4]);
    assert_eq!(h.encryption_key_guid.to_hex(), "00000005000000060000000700000008");
}

#[test]
fn toc_header_checks_magic_and_length() {
    let mut bytes = toc_bytes();
    bytes[3] = 0;
    let mut r = FUsmapReader::new(bytes, EUsmapVersion::Initial);
    assert!(matches!(FIoStoreTocHeader::from_reader(&mut r), Err(ReaderError::InvalidMagic)));
    let mut short = toc_bytes();
    short.truncate(100);
    let mut r = FUsmapReader::new(short, EUsmapVersion::Initial);
    assert!(matches!(FIoStoreTocHeader::from_reader(&mut r), Err(ReaderError::UnexpectedEof)));
}
