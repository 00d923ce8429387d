//! Game files as a provider lists them: paths, extensions and directory facts.
use vstd::prelude::*;

use crate::guid::FGuid;
use crate::versions::CompressionMethod;

verus! {

/// Declares `std::time::SystemTime`, carried in file facts without being read.
#[verifier::external_type_specification]
#[verifier::external_body]
pub struct ExSystemTime(std::time::SystemTime);

/// Lower-case code of an ASCII letter; any other character keeps its code.
pub open spec fn ascii_lower(c: char) -> u32 {
    let u = c as u32;
    if 0x41 <= u <= 0x5A {
        (u + 32) as u32
    } else {
        u
    }
}

/// Equality up to ASCII case.
pub open spec fn eq_ignore_case(a: Seq<char>, b: Seq<char>) -> bool {
    a.len() == b.len() && forall|i: int| 0 <= i < a.len() ==> ascii_lower(a[i]) == ascii_lower(b[i])
}

/// Compares two texts, ignoring the case of ASCII letters.
pub fn eq_ignore_ascii_case(a: &str, b: &str) -> (r: bool)
    ensures
        r == eq_ignore_case(a@, b@),
{
    let n = a.unicode_len();
    if n != b.unicode_len() {
        return false;
    }
    let mut i: usize = 0;
    while i < n
        invariant
            n == a@.len(),
            n == b@.len(),
            i <= n,
            forall|k: int| 0 <= k < i ==> ascii_lower(a@[k]) == ascii_lower(b@[k]),
        decreases n - i,
    {
        let x = a.get_char(i) as u32;
        let y = b.get_char(i) as u32;
        let lx = if 0x41 <= x && x <= 0x5A {
            x + 32
        } else {
            x
        };
        let ly = if 0x41 <= y && y <= 0x5A {
            y + 32
        } else {
            y
        };
        if lx != ly {
            return false;
        }
        i = i + 1;
    }
    true
}

/// What follows the last `.` of a path; the whole path when it has none.
pub open spec fn extension_of(p: Seq<char>) -> Seq<char>
    decreases p.len(),
{
    if p.len() == 0 {
        p
    } else if p.last() == '.' {
        Seq::empty()
    } else {
        extension_of(p.drop_last()).push(p.last())
    }
}

/// The path with every backslash turned into a forward slash.
pub open spec fn forward_slashes(p: Seq<char>) -> Seq<char> {
    p.map_values(|c: char|
        if c == '\\' {
            '/'
        } else {
            c
        })
}

/// A file of a game, by its virtual path.
#[derive(Debug)]
pub struct GameFile {
    pub path: String,
    pub is_encrypted: bool,
    pub compression_method: CompressionMethod,
    pub size: i64,
}

impl GameFile {
    pub fn new(path: String, size: i64) -> (r: Self)
        ensures
            r.path == path,
            r.size == size,
            !r.is_encrypted,
            r.compression_method == CompressionMethod::Unknown,
    {
        GameFile { path, size, is_encrypted: false, compression_method: CompressionMethod::Unknown }
    }

    /// The extension of the path, without the dot.
    pub fn extension(&mut self) -> (r: String)
        ensures
            *final(self) == *old(self),
            r@ == extension_of(old(self).path@),
    {
        let p = self.path.as_str();
        let n = p.unicode_len();
        let mut j: usize = n;
        assert(p@.subrange(0, n as int) =~= p@);
        assert(p@.subrange(n as int, n as int) =~= Seq::<char>::empty());
        while j > 0
            invariant
                n == p@.len(),
                p@ == old(self).path@,
                *self == *old(self),
                j <= n,
                extension_of(p@) == extension_of(p@.subrange(0, j as int)) + p@.subrange(
                    j as int,
                    n as int,
                ),
            decreases j,
        {
            let ghost pre = p@.subrange(0, j as int);
            assert(pre.drop_last() =~= p@.subrange(0, j - 1));
            assert(pre.last() == p@[j - 1]);
            if p.get_char(j - 1) == '.' {
                assert(extension_of(pre) =~= Seq::<char>::empty());
                assert(extension_of(p@) =~= p@.subrange(j as int, n as int));
                let ext = p.substring_char(j, n);
                return String::from_str(ext);
            }
            assert(p@.subrange(j - 1, n as int) =~= seq![pre.last()] + p@.subrange(j as int, n as int));
            assert(extension_of(pre) + p@.subrange(j as int, n as int) =~= extension_of(
                p@.subrange(0, j - 1),
            ) + p@.subrange(j - 1, n as int));
            j = j - 1;
        }
        assert(p@.subrange(0, 0) =~= Seq::<char>::empty());
        assert(extension_of(p@) =~= p@);
        self.path.clone()
    }

    /// Whether the extension is that of a package (`uasset` or `umap`, any case).
    pub fn is_ue_package(&mut self) -> (r: bool)
        ensures
            *final(self) == *old(self),
            r == (eq_ignore_case("uasset"@, extension_of(old(self).path@)) || eq_ignore_case(
                "umap"@,
                extension_of(old(self).path@),
            )),
    {
        let ext = self.extension();
        eq_ignore_ascii_case("uasset", ext.as_str()) || eq_ignore_ascii_case("umap", ext.as_str())
    }

    /// Whether the extension is that of a package payload (`exp`, `ubulk` or
    /// `uptnl`, any case).
    pub fn is_ue_package_payload(&mut self) -> (r: bool)
        ensures
            *final(self) == *old(self),
            r == (eq_ignore_case("exp"@, extension_of(old(self).path@)) || eq_ignore_case(
                "ubulk"@,
                extension_of(old(self).path@),
            ) || eq_ignore_case("uptnl"@, extension_of(old(self).path@))),
    {
        let ext = self.extension();
        eq_ignore_ascii_case("exp", ext.as_str()) || eq_ignore_ascii_case("ubulk", ext.as_str())
            || eq_ignore_ascii_case("uptnl", ext.as_str())
    }
}

/// A game file together with the version context it is read under.
#[derive(Debug)]
pub struct VersionedGameFile {
    pub game_file: GameFile,
}

impl VersionedGameFile {
    pub fn new(path: &str, size: i64) -> (r: Self)
        ensures
            r.game_file.path@ == path@,
            r.game_file.size == size,
            !r.game_file.is_encrypted,
            r.game_file.compression_method == CompressionMethod::Unknown,
    {
        VersionedGameFile { game_file: GameFile::new(path.to_owned(), size) }
    }
}

/// Facts about a file on disk.
#[derive(Debug)]
pub struct FileInfo {
    pub path: String,
    pub size: u64,
    pub created: Option<std::time::SystemTime>,
    pub modified: Option<std::time::SystemTime>,
    pub is_read_only: bool,
}

/// Facts about a directory on disk, with the names of its files and subdirectories.
#[derive(Debug)]
pub struct DirectoryInfo {
    pub path: String,
    pub creation_time: Option<std::time::SystemTime>,
    pub last_write_time: Option<std::time::SystemTime>,
    pub is_empty: bool,
    pub files: Vec<String>,
    pub directories: Vec<String>,
}

impl DirectoryInfo {
    /// Assembles the facts that were read from disk; the directory is empty when
    /// it lists neither files nor subdirectories.
    pub fn from_entries(
        path: String,
        creation_time: Option<std::time::SystemTime>,
        last_write_time: Option<std::time::SystemTime>,
        files: Vec<String>,
        directories: Vec<String>,
    ) -> (r: Self)
        ensures
            r.path == path,
            r.creation_time == creation_time,
            r.last_write_time == last_write_time,
            r.files == files,
            r.directories == directories,
            r.is_empty == (files@.len() == 0 && directories@.len() == 0),
    {
        let is_empty = files.len() == 0 && directories.len() == 0;
        DirectoryInfo { path, creation_time, last_write_time, is_empty, files, directories }
    }
}

/// A game file found in a directory on disk.
#[derive(Debug)]
pub struct OsGameFile {
    pub versioned_game_file: VersionedGameFile,
    pub actual_file: FileInfo,
    pub is_encrypted: bool,
    pub compression_method: CompressionMethod,
}

/// Virtual path of a file under a mount point: the path below the base directory
/// (after its separator), with forward slashes.
pub open spec fn mounted_path(mount_point: Seq<char>, base: Seq<char>, path: Seq<char>) -> Seq<char> {
    mount_point + forward_slashes(path.subrange(base.len() as int + 1, path.len() as int))
}

impl OsGameFile {
    pub fn new(base_dir: DirectoryInfo, info: FileInfo, mount_point: String) -> (r: Self)
        requires
            base_dir.path@.len() < info.path@.len(),
        ensures
            r.versioned_game_file.game_file.path@ == mounted_path(
                mount_point@,
                base_dir.path@,
                info.path@,
            ),
            r.versioned_game_file.game_file.size == info.size as i64,
            r.actual_file == info,
            !r.is_encrypted,
            r.compression_method == CompressionMethod::Uncompressed,
    {
        let p = info.path.as_str();
        let n = p.unicode_len();
        let start = base_dir.path.as_str().unicode_len() + 1;
        let mut path = mount_point;
        let ghost m = path@;
        let mut i = start;
        while i < n
            invariant
                n == p@.len(),
                start <= i <= n,
                start == base_dir.path@.len() + 1,
                path@ == m + forward_slashes(p@.subrange(start as int, i as int)),
            decreases n - i,
        {
            let ghost before = p@.subrange(start as int, i as int);
            if p.get_char(i) == '\\' {
                path.append("/");
                proof {
                    reveal_strlit("/");
                }
            } else {
                path.append(p.substring_char(i, i + 1));
            }
            assert(p@.subrange(start as int, i + 1) =~= before.push(p@[i as int]));
            assert(forward_slashes(p@.subrange(start as int, i + 1)) =~= forward_slashes(before).push(
                forward_slashes(p@.subrange(start as int, i + 1)).last(),
            ));
            i = i + 1;
        }
        let size = info.size as i64;
        let versioned_game_file = VersionedGameFile::new(path.as_str(), size);
        OsGameFile {
            versioned_game_file,
            actual_file: info,
            is_encrypted: false,
            compression_method: CompressionMethod::Uncompressed,
        }
    }
}

/// Settings a game's configuration may carry.
pub struct CustomConfigIni {
    pub encryption_key_guid: Option<FGuid>,
}

} // verus!
