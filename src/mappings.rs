//! The schema graph: name table, enum table and struct table of a decompressed
//! mapping payload, with super-structs resolved in a second pass.
use vstd::prelude::*;
use vstd::utf8::{decode_utf8, valid_utf8};

use crate::properties::{
    find_struct, last_index_of, lemma_last_index_of, lemma_last_index_unique, link_view,
    unique_names, parse_struct_at, resolve_model,
    super_index, struct_names, Struct, StructModel,
};
use crate::reader::{
    agrees, avail, name_at, names_view, string_from_utf8, u16_at, u32_at, FUsmapReader, ReaderError,
};
use crate::versions::{wide_lengths, EUsmapVersion};

verus! {

/// Why a mapping container could not be decoded.
#[derive(Debug)]
pub enum UsmapParserError {
    /// The first two bytes are not the container magic.
    InvalidMagic,
    /// An uncompressed payload declares different compressed and decompressed sizes.
    CompressionSizeEquality,
    /// The payload is Oodle-compressed and no Oodle backend was supplied.
    OodleNotFound,
    /// The compression tag is not one this decoder knows.
    InvalidCompressionMethod,
    /// A read ran out of data or met a malformed value.
    ReadError(ReaderError),
    /// A name-table entry is not valid UTF-8.
    FromUtf8Error,
    /// The container file could not be opened.
    FileOpenError(String),
}

pub open spec fn eof<T>() -> Result<T, UsmapParserError> {
    Err(UsmapParserError::ReadError(ReaderError::UnexpectedEof))
}

/// An executable result agrees with a spec-level result that ended at `end`.
pub open spec fn agrees_as<T, M>(
    r: Result<T, UsmapParserError>,
    s: Result<(M, int), UsmapParserError>,
    view: spec_fn(T) -> M,
    end: int,
) -> bool {
    match s {
        Ok((m, e)) => r is Ok && view(r->Ok_0) == m && end == e,
        Err(x) => r is Err && r->Err_0 == x,
    }
}

/// Width of a name length or enum member count: one byte before `LongFName`, two after.
pub open spec fn len_width(v: EUsmapVersion) -> int {
    if wide_lengths(v) {
        2
    } else {
        1
    }
}

pub open spec fn len_at(d: Seq<u8>, p: int, v: EUsmapVersion) -> int {
    if wide_lengths(v) {
        u16_at(d, p) as int
    } else {
        d[p] as int
    }
}

/// One name-table entry: a length, then that many bytes of UTF-8.
pub open spec fn name_entry_at(d: Seq<u8>, p: int, v: EUsmapVersion) -> Result<
    (Seq<char>, int),
    UsmapParserError,
> {
    let w = len_width(v);
    if !avail(d, p, w) {
        eof()
    } else {
        let n = len_at(d, p, v);
        if !avail(d, p + w, n) {
            eof()
        } else {
            let b = d.subrange(p + w, p + w + n);
            if valid_utf8(b) {
                Ok((decode_utf8(b), p + w + n))
            } else {
                Err(UsmapParserError::FromUtf8Error)
            }
        }
    }
}

/// Name lengths take one byte before `LongFName` and two bytes from it on: a
/// readable entry at `p` holds that many UTF-8 bytes right after its length.
pub proof fn lemma_name_length_width(d: Seq<u8>, p: int, v: EUsmapVersion)
    requires
        name_entry_at(d, p, v) is Ok,
    ensures
        !wide_lengths(v) ==> name_entry_at(d, p, v) == Ok::<(Seq<char>, int), UsmapParserError>(
            (decode_utf8(d.subrange(p + 1, p + 1 + d[p] as int)), p + 1 + d[p] as int),
        ),
        wide_lengths(v) ==> name_entry_at(d, p, v) == Ok::<(Seq<char>, int), UsmapParserError>(
            (
                decode_utf8(d.subrange(p + 2, p + 2 + u16_at(d, p) as int)),
                p + 2 + u16_at(d, p) as int,
            ),
        ),
{
}

/// The first `k` name-table entries from `p`.
pub open spec fn names_upto(d: Seq<u8>, p: int, v: EUsmapVersion, k: nat) -> Result<
    (Seq<Seq<char>>, int),
    UsmapParserError,
>
    decreases k,
{
    if k == 0 {
        Ok((Seq::empty(), p))
    } else {
        match names_upto(d, p, v, (k - 1) as nat) {
            Err(e) => Err(e),
            Ok((ns, q)) => match name_entry_at(d, q, v) {
                Err(e) => Err(e),
                Ok((n, q2)) => Ok((ns.push(n), q2)),
            },
        }
    }
}

/// The name table at `p`: a 32-bit count, then the entries.
pub open spec fn name_table_at(d: Seq<u8>, p: int, v: EUsmapVersion) -> Result<
    (Seq<Seq<char>>, int),
    UsmapParserError,
> {
    if !avail(d, p, 4) {
        eof()
    } else {
        names_upto(d, p + 4, v, u32_at(d, p) as nat)
    }
}

/// Reads a name length or member count of the width that the version gives.
fn read_len(reader: &mut FUsmapReader) -> (r: Result<usize, ReaderError>)
    ensures
        final(reader).same_source(old(reader)),
        avail(old(reader).data@, old(reader).at(), len_width(old(reader).version)) ==> r
            == Ok::<usize, ReaderError>(
            len_at(old(reader).data@, old(reader).at(), old(reader).version) as usize,
        ) && final(reader).at() == old(reader).at() + len_width(old(reader).version),
        !avail(old(reader).data@, old(reader).at(), len_width(old(reader).version)) ==> r
            == Err::<usize, ReaderError>(ReaderError::UnexpectedEof),
{
    if reader.version.has_long_names() {
        let n = reader.read_u16()?;
        Ok(n as usize)
    } else {
        let n = reader.read_u8()?;
        Ok(n as usize)
    }
}

fn read_name_entry(reader: &mut FUsmapReader) -> (r: Result<String, UsmapParserError>)
    ensures
        final(reader).same_source(old(reader)),
        agrees_as(
            r,
            name_entry_at(old(reader).data@, old(reader).at(), old(reader).version),
            |s: String| s@,
            final(reader).at(),
        ),
{
    let n = match read_len(reader) {
        Ok(n) => n,
        Err(e) => return Err(UsmapParserError::ReadError(e)),
    };
    let bytes = match reader.read_exact(n as u64) {
        Ok(b) => b,
        Err(e) => return Err(UsmapParserError::ReadError(e)),
    };
    match string_from_utf8(bytes) {
        Ok(s) => Ok(s),
        Err(_) => Err(UsmapParserError::FromUtf8Error),
    }
}

/// Reads the name table; names are later referred to by position.
pub fn read_name_table(reader: &mut FUsmapReader) -> (r: Result<Vec<String>, UsmapParserError>)
    ensures
        final(reader).same_source(old(reader)),
        agrees_as(
            r,
            name_table_at(old(reader).data@, old(reader).at(), old(reader).version),
            |v: Vec<String>| names_view(v@),
            final(reader).at(),
        ),
{
    let ghost d = reader.data@;
    let ghost v = reader.version;
    let count = match reader.read_u32() {
        Ok(c) => c,
        Err(e) => return Err(UsmapParserError::ReadError(e)),
    };
    let ghost q = reader.at();
    let mut names: Vec<String> = Vec::new();
    let mut i: u32 = 0;
    assert(names_view(names@) =~= Seq::<Seq<char>>::empty());
    while i < count
        invariant
            reader.data@ == d,
            reader.version == v,
            d == old(reader).data@,
            v == old(reader).version,
            q == old(reader).at() + 4,
            count == u32_at(d, old(reader).at()),
            avail(d, old(reader).at(), 4),
            i <= count,
            names_upto(d, q, v, i as nat) == Ok::<(Seq<Seq<char>>, int), UsmapParserError>(
                (names_view(names@), reader.at()),
            ),
        decreases count - i,
    {
        let ghost before = names_view(names@);
        let ghost p0 = reader.at();
        let res = read_name_entry(reader);
        assert(agrees_as(res, name_entry_at(d, p0, v), |s: String| s@, reader.at()));
        let n = match res {
            Ok(n) => n,
            Err(e) => {
                proof {
                    assert(names_upto(d, q, v, (i + 1) as nat) == Err::<
                        (Seq<Seq<char>>, int),
                        UsmapParserError,
                    >(e));
                    lemma_names_error_persists(d, q, v, (i + 1) as nat, count as nat);
                }
                return Err(e);
            },
        };
        names.push(n);
        assert(names_view(names@) =~= before.push(n@));
        i = i + 1;
    }
    Ok(names)
}

pub proof fn lemma_names_error_persists(d: Seq<u8>, p: int, v: EUsmapVersion, k: nat, j: nat)
    requires
        k <= j,
        names_upto(d, p, v, k) is Err,
    ensures
        names_upto(d, p, v, j) == names_upto(d, p, v, k),
    decreases j - k,
{
    if k < j {
        lemma_names_error_persists(d, p, v, k, (j - 1) as nat);
    }
}

/// The first `k` member names of an enum from `p`.
pub open spec fn members_upto(d: Seq<u8>, p: int, names: Seq<Seq<char>>, k: nat) -> Result<
    (Seq<Seq<char>>, int),
    ReaderError,
>
    decreases k,
{
    if k == 0 {
        Ok((Seq::empty(), p))
    } else {
        match members_upto(d, p, names, (k - 1) as nat) {
            Err(e) => Err(e),
            Ok((ms, q)) => match name_at(d, q, names) {
                Err(e) => Err(e),
                Ok((n, q2)) => Ok((ms.push(n), q2)),
            },
        }
    }
}

pub proof fn lemma_members_error_persists(d: Seq<u8>, p: int, names: Seq<Seq<char>>, k: nat, j: nat)
    requires
        k <= j,
        members_upto(d, p, names, k) is Err,
    ensures
        members_upto(d, p, names, j) == members_upto(d, p, names, k),
    decreases j - k,
{
    if k < j {
        lemma_members_error_persists(d, p, names, k, (j - 1) as nat);
    }
}

/// An enum's name and its member names; a member's ordinal is its position.
pub type EnumModel = (Seq<char>, Seq<Seq<char>>);

/// One enum record: a name index, a member count (one or two bytes by version),
/// then that many member name indices.
pub open spec fn enum_entry_at(d: Seq<u8>, p: int, names: Seq<Seq<char>>, v: EUsmapVersion) -> Result<
    (EnumModel, int),
    UsmapParserError,
> {
    match name_at(d, p, names) {
        Err(e) => Err(UsmapParserError::ReadError(e)),
        Ok((n, q)) => if !avail(d, q, len_width(v)) {
            eof()
        } else {
            match members_upto(d, q + len_width(v), names, len_at(d, q, v) as nat) {
                Err(e) => Err(UsmapParserError::ReadError(e)),
                Ok((ms, q2)) => Ok(((n, ms), q2)),
            }
        },
    }
}

pub open spec fn enum_names(es: Seq<EnumModel>) -> Seq<Seq<char>> {
    es.map_values(|e: EnumModel| e.0)
}

/// Registers an enum: it replaces an earlier one of the same name, else it is appended.
pub open spec fn upsert_enum(es: Seq<EnumModel>, e: EnumModel) -> Seq<EnumModel> {
    match last_index_of(enum_names(es), e.0) {
        Some(i) => es.update(i, e),
        None => es.push(e),
    }
}

pub open spec fn enums_upto(
    d: Seq<u8>,
    p: int,
    names: Seq<Seq<char>>,
    v: EUsmapVersion,
    k: nat,
) -> Result<(Seq<EnumModel>, int), UsmapParserError>
    decreases k,
{
    if k == 0 {
        Ok((Seq::empty(), p))
    } else {
        match enums_upto(d, p, names, v, (k - 1) as nat) {
            Err(e) => Err(e),
            Ok((es, q)) => match enum_entry_at(d, q, names, v) {
                Err(e) => Err(e),
                Ok((en, q2)) => Ok((upsert_enum(es, en), q2)),
            },
        }
    }
}

pub proof fn lemma_enums_error_persists(
    d: Seq<u8>,
    p: int,
    names: Seq<Seq<char>>,
    v: EUsmapVersion,
    k: nat,
    j: nat,
)
    requires
        k <= j,
        enums_upto(d, p, names, v, k) is Err,
    ensures
        enums_upto(d, p, names, v, j) == enums_upto(d, p, names, v, k),
    decreases j - k,
{
    if k < j {
        lemma_enums_error_persists(d, p, names, v, k, (j - 1) as nat);
    }
}

/// The enum table at `p`: a 32-bit count, then the records.
pub open spec fn enum_table_at(d: Seq<u8>, p: int, names: Seq<Seq<char>>, v: EUsmapVersion) -> Result<
    (Seq<EnumModel>, int),
    UsmapParserError,
> {
    if !avail(d, p, 4) {
        eof()
    } else {
        enums_upto(d, p + 4, names, v, u32_at(d, p) as nat)
    }
}

pub open spec fn enum_view(e: (String, Vec<String>)) -> EnumModel {
    (e.0@, names_view(e.1@))
}

pub open spec fn enums_view(es: Seq<(String, Vec<String>)>) -> Seq<EnumModel> {
    es.map_values(|e: (String, Vec<String>)| enum_view(e))
}

fn read_members(reader: &mut FUsmapReader, name_lut: &Vec<String>, count: usize) -> (r: Result<
    Vec<String>,
    ReaderError,
>)
    ensures
        final(reader).same_source(old(reader)),
        match members_upto(old(reader).data@, old(reader).at(), names_view(name_lut@), count as nat) {
            Ok((ms, e)) => r is Ok && names_view(r->Ok_0@) == ms && final(reader).at() == e,
            Err(x) => r == Err::<Vec<String>, ReaderError>(x),
        },
{
    let ghost d = reader.data@;
    let ghost names = names_view(name_lut@);
    let ghost q = reader.at();
    let mut members: Vec<String> = Vec::new();
    let mut i: usize = 0;
    assert(names_view(members@) =~= Seq::<Seq<char>>::empty());
    while i < count
        invariant
            reader.data@ == d,
            reader.version == old(reader).version,
            d == old(reader).data@,
            q == old(reader).at(),
            names == names_view(name_lut@),
            i <= count,
            members_upto(d, q, names, i as nat) == Ok::<(Seq<Seq<char>>, int), ReaderError>(
                (names_view(members@), reader.at()),
            ),
        decreases count - i,
    {
        let ghost before = names_view(members@);
        let ghost p0 = reader.at();
        let res = reader.read_name(name_lut);
        assert(agrees(res, name_at(d, p0, names), reader.at()));
        let n = match res {
            Ok(n) => n,
            Err(e) => {
                proof {
                    assert(members_upto(d, q, names, (i + 1) as nat) == Err::<
                        (Seq<Seq<char>>, int),
                        ReaderError,
                    >(e));
                    lemma_members_error_persists(d, q, names, (i + 1) as nat, count as nat);
                }
                return Err(e);
            },
        };
        members.push(n);
        assert(names_view(members@) =~= before.push(n@));
        i = i + 1;
    }
    Ok(members)
}

fn read_enum_entry(reader: &mut FUsmapReader, name_lut: &Vec<String>) -> (r: Result<
    (String, Vec<String>),
    UsmapParserError,
>)
    ensures
        final(reader).same_source(old(reader)),
        agrees_as(
            r,
            enum_entry_at(old(reader).data@, old(reader).at(), names_view(name_lut@), old(reader).version),
            |e: (String, Vec<String>)| enum_view(e),
            final(reader).at(),
        ),
{
    let name = match reader.read_name(name_lut) {
        Ok(n) => n,
        Err(e) => return Err(UsmapParserError::ReadError(e)),
    };
    let count = match read_len(reader) {
        Ok(n) => n,
        Err(e) => return Err(UsmapParserError::ReadError(e)),
    };
    match read_members(reader, name_lut, count) {
        Ok(ms) => Ok((name, ms)),
        Err(e) => Err(UsmapParserError::ReadError(e)),
    }
}

/// Position of the last enum named `name`.
pub fn find_enum(enums: &Vec<(String, Vec<String>)>, name: &String) -> (r: Option<usize>)
    ensures
        match r {
            Some(k) => k < enums@.len() && last_index_of(enum_names(enums_view(enums@)), name@)
                == Some(k as int),
            None => last_index_of(enum_names(enums_view(enums@)), name@) is None,
        },
{
    let ghost names = enum_names(enums_view(enums@));
    let mut j: usize = enums.len();
    assert(names.take(j as int) =~= names);
    while j > 0
        invariant
            j <= enums@.len(),
            names == enum_names(enums_view(enums@)),
            last_index_of(names.take(j as int), name@) == last_index_of(names, name@),
        decreases j,
    {
        assert(names.take(j as int).drop_last() =~= names.take(j - 1));
        if enums[j - 1].0 == *name {
            return Some(j - 1);
        }
        j = j - 1;
    }
    None
}

/// Reads the enum table; an enum replaces an earlier one of the same name.
pub fn read_enum_table(reader: &mut FUsmapReader, name_lut: &Vec<String>) -> (r: Result<
    Vec<(String, Vec<String>)>,
    UsmapParserError,
>)
    ensures
        final(reader).same_source(old(reader)),
        agrees_as(
            r,
            enum_table_at(old(reader).data@, old(reader).at(), names_view(name_lut@), old(reader).version),
            |es: Vec<(String, Vec<String>)>| enums_view(es@),
            final(reader).at(),
        ),
{
    let ghost d = reader.data@;
    let ghost v = reader.version;
    let ghost names = names_view(name_lut@);
    let count = match reader.read_u32() {
        Ok(c) => c,
        Err(e) => return Err(UsmapParserError::ReadError(e)),
    };
    let ghost q = reader.at();
    let mut enums: Vec<(String, Vec<String>)> = Vec::new();
    let mut i: u32 = 0;
    assert(enums_view(enums@) =~= Seq::<EnumModel>::empty());
    while i < count
        invariant
            reader.data@ == d,
            reader.version == v,
            d == old(reader).data@,
            v == old(reader).version,
            q == old(reader).at() + 4,
            names == names_view(name_lut@),
            count == u32_at(d, old(reader).at()),
            avail(d, old(reader).at(), 4),
            i <= count,
            enums_upto(d, q, names, v, i as nat) == Ok::<(Seq<EnumModel>, int), UsmapParserError>(
                (enums_view(enums@), reader.at()),
            ),
        decreases count - i,
    {
        let ghost before = enums_view(enums@);
        let ghost p0 = reader.at();
        let res = read_enum_entry(reader, name_lut);
        assert(agrees_as(
            res,
            enum_entry_at(d, p0, names, v),
            |e: (String, Vec<String>)| enum_view(e),
            reader.at(),
        ));
        let entry = match res {
            Ok(e) => e,
            Err(e) => {
                proof {
                    assert(enums_upto(d, q, names, v, (i + 1) as nat) == Err::<
                        (Seq<EnumModel>, int),
                        UsmapParserError,
                    >(e));
                    lemma_enums_error_persists(d, q, names, v, (i + 1) as nat, count as nat);
                }
                return Err(e);
            },
        };
        let ghost ev = enum_view(entry);
        assert(enum_entry_at(d, p0, names, v) == Ok::<(EnumModel, int), UsmapParserError>(
            (ev, reader.at()),
        ));
        proof {
            lemma_last_index_of(enum_names(before), ev.0);
        }
        match find_enum(&enums, &entry.0) {
            Some(k) => {
                enums.set(k, entry);
                assert(enums_view(enums@) =~= before.update(k as int, ev));
            },
            None => {
                enums.push(entry);
                assert(enums_view(enums@) =~= before.push(ev));
            },
        }
        assert(enums_view(enums@) == upsert_enum(before, ev));
        assert(enums_upto(d, q, names, v, (i + 1) as nat) == Ok::<
            (Seq<EnumModel>, int),
            UsmapParserError,
        >((upsert_enum(before, ev), reader.at())));
        i = i + 1;
    }
    Ok(enums)
}

pub open spec fn model_names(ts: Seq<StructModel>) -> Seq<Seq<char>> {
    ts.map_values(|t: StructModel| t.name)
}

/// Registers a struct: it replaces an earlier one of the same name, else it is appended.
pub open spec fn upsert_struct(ts: Seq<StructModel>, t: StructModel) -> Seq<StructModel> {
    match last_index_of(model_names(ts), t.name) {
        Some(i) => ts.update(i, t),
        None => ts.push(t),
    }
}

pub open spec fn structs_upto(d: Seq<u8>, p: int, names: Seq<Seq<char>>, k: nat) -> Result<
    (Seq<StructModel>, int),
    UsmapParserError,
>
    decreases k,
{
    if k == 0 {
        Ok((Seq::empty(), p))
    } else {
        match structs_upto(d, p, names, (k - 1) as nat) {
            Err(e) => Err(e),
            Ok((ts, q)) => match parse_struct_at(d, q, names) {
                Err(e) => Err(UsmapParserError::ReadError(e)),
                Ok((t, q2)) => Ok((upsert_struct(ts, t), q2)),
            },
        }
    }
}

pub proof fn lemma_structs_error_persists(d: Seq<u8>, p: int, names: Seq<Seq<char>>, k: nat, j: nat)
    requires
        k <= j,
        structs_upto(d, p, names, k) is Err,
    ensures
        structs_upto(d, p, names, j) == structs_upto(d, p, names, k),
    decreases j - k,
{
    if k < j {
        lemma_structs_error_persists(d, p, names, k, (j - 1) as nat);
    }
}

/// The struct table at `p`: a 32-bit count, then the records.
pub open spec fn struct_table_at(d: Seq<u8>, p: int, names: Seq<Seq<char>>) -> Result<
    (Seq<StructModel>, int),
    UsmapParserError,
> {
    if !avail(d, p, 4) {
        eof()
    } else {
        structs_upto(d, p + 4, names, u32_at(d, p) as nat)
    }
}

/// Every struct resolved against the complete registry.
pub open spec fn resolve_all(ts: Seq<StructModel>) -> Seq<StructModel> {
    ts.map_values(|t: StructModel| resolve_model(t, model_names(ts)))
}

pub open spec fn types_view(ts: Seq<Struct>) -> Seq<StructModel> {
    ts.map_values(|t: Struct| t@)
}

/// Reads the struct table; a struct replaces an earlier one of the same name.
/// Super-structs are left unresolved.
pub fn read_struct_table(reader: &mut FUsmapReader, name_lut: &Vec<String>) -> (r: Result<
    Vec<Struct>,
    UsmapParserError,
>)
    ensures
        final(reader).same_source(old(reader)),
        agrees_as(
            r,
            struct_table_at(old(reader).data@, old(reader).at(), names_view(name_lut@)),
            |ts: Vec<Struct>| types_view(ts@),
            final(reader).at(),
        ),
{
    let ghost d = reader.data@;
    let ghost names = names_view(name_lut@);
    let count = match reader.read_u32() {
        Ok(c) => c,
        Err(e) => return Err(UsmapParserError::ReadError(e)),
    };
    let ghost q = reader.at();
    let mut types: Vec<Struct> = Vec::new();
    let mut i: u32 = 0;
    assert(types_view(types@) =~= Seq::<StructModel>::empty());
    while i < count
        invariant
            reader.data@ == d,
            reader.version == old(reader).version,
            d == old(reader).data@,
            q == old(reader).at() + 4,
            names == names_view(name_lut@),
            count == u32_at(d, old(reader).at()),
            avail(d, old(reader).at(), 4),
            i <= count,
            structs_upto(d, q, names, i as nat) == Ok::<(Seq<StructModel>, int), UsmapParserError>(
                (types_view(types@), reader.at()),
            ),
        decreases count - i,
    {
        let ghost before = types_view(types@);
        let ghost p0 = reader.at();
        let res = Struct::parse(reader, name_lut);
        assert(agrees(res, parse_struct_at(d, p0, names), reader.at()));
        let t = match res {
            Ok(t) => t,
            Err(e) => {
                proof {
                    assert(structs_upto(d, q, names, (i + 1) as nat) == Err::<
                        (Seq<StructModel>, int),
                        UsmapParserError,
                    >(UsmapParserError::ReadError(e)));
                    lemma_structs_error_persists(d, q, names, (i + 1) as nat, count as nat);
                }
                return Err(UsmapParserError::ReadError(e));
            },
        };
        let ghost tv = t@;
        proof {
            lemma_last_index_of(model_names(before), tv.name);
            assert(model_names(before) =~= struct_names(types@));
        }
        match find_struct(&types, &t.name) {
            Some(k) => {
                types.set(k, t);
                assert(types_view(types@) =~= before.update(k as int, tv));
            },
            None => {
                types.push(t);
                assert(types_view(types@) =~= before.push(tv));
            },
        }
        assert(types_view(types@) == upsert_struct(before, tv));
        i = i + 1;
    }
    Ok(types)
}

/// Second pass: links every struct to its super-struct in the complete registry.
/// A super-type name that no struct carries leaves the link empty.
pub fn resolve_supers(types: &mut Vec<Struct>)
    ensures
        types_view(final(types)@) == resolve_all(types_view(old(types)@)),
{
    let ghost names = model_names(types_view(types@));
    let ghost orig = types_view(types@);
    let mut i: usize = 0;
    while i < types.len()
        invariant
            types@.len() == orig.len(),
            names == model_names(orig),
            orig == types_view(old(types)@),
            i <= types@.len(),
            forall|j: int| 0 <= j < i ==> #[trigger] types@[j]@ == resolve_model(orig[j], names),
            forall|j: int| i <= j < types@.len() ==> #[trigger] types@[j]@ == orig[j],
        decreases types@.len() - i,
    {
        assert(model_names(types_view(types@)) =~= names) by {
            assert forall|j: int| 0 <= j < names.len() implies model_names(types_view(types@))[j]
                == names[j] by {
                assert(types@[j]@.name == orig[j].name);
            }
        }
        assert(struct_names(types@) =~= model_names(types_view(types@)));
        let ghost cur = types@;
        assert(types@[i as int]@ == orig[i as int]);
        if types[i].super_struct.is_none() {
            let found = match &types[i].super_type {
                Some(n) => find_struct(types, n),
                None => None,
            };
            assert(link_view(Some(found)) == Some(super_index(orig[i as int].super_type, names)));
            types[i].super_struct = Some(found);
        }
        assert(types@[i as int]@ == resolve_model(orig[i as int], names));
        assert(forall|j: int| 0 <= j < types@.len() && j != i ==> types@[j] == cur[j]);
        i = i + 1;
    }
    assert(types_view(types@) =~= resolve_all(orig));
}

/// Abstract value of [`TypeMappings`].
pub struct TypeMappingsModel {
    pub types: Seq<StructModel>,
    pub enums: Seq<EnumModel>,
}

impl TypeMappingsModel {
    /// Names are unique in both tables, and every struct is resolved: a link
    /// points inside the table at the struct its super-type name names.
    pub open spec fn wf(&self) -> bool {
        &&& unique_names(model_names(self.types))
        &&& unique_names(enum_names(self.enums))
        &&& forall|i: int|
            0 <= i < self.types.len() ==> match #[trigger] self.types[i].super_struct {
                Some(Some(k)) => 0 <= k < self.types.len() && self.types[i].super_type == Some(
                    self.types[k].name,
                ),
                Some(None) => true,
                None => false,
            }
    }
}

/// The decoded schema: structs in registration order (names unique, super-structs
/// linked by position) and enums with their member names by ordinal.
#[derive(Debug)]
pub struct TypeMappings {
    pub types: Vec<Struct>,
    pub enums: Vec<(String, Vec<String>)>,
}

impl View for TypeMappings {
    type V = TypeMappingsModel;

    open spec fn view(&self) -> TypeMappingsModel {
        TypeMappingsModel { types: types_view(self.types@), enums: enums_view(self.enums@) }
    }
}

/// The schema that a decompressed payload describes: name table, enum table and
/// struct table in that order, then super-structs resolved over all structs.
pub open spec fn mappings_of(d: Seq<u8>, v: EUsmapVersion) -> Result<TypeMappingsModel, UsmapParserError> {
    match name_table_at(d, 0, v) {
        Err(e) => Err(e),
        Ok((names, q1)) => match enum_table_at(d, q1, names, v) {
            Err(e) => Err(e),
            Ok((es, q2)) => match struct_table_at(d, q2, names) {
                Err(e) => Err(e),
                Ok((ts, _)) => Ok(TypeMappingsModel { types: resolve_all(ts), enums: es }),
            },
        },
    }
}

impl TypeMappings {
    pub fn new(types: Vec<Struct>, enums: Vec<(String, Vec<String>)>) -> (r: Self)
        ensures
            r.types == types,
            r.enums == enums,
    {
        TypeMappings { types, enums }
    }

    /// Decodes a decompressed payload written in format version `version`.
    pub fn from_payload(data: Vec<u8>, version: EUsmapVersion) -> (r: Result<Self, UsmapParserError>)
        ensures
            match mappings_of(data@, version) {
                Ok(m) => r is Ok && r->Ok_0@ == m,
                Err(e) => r is Err && r->Err_0 == e,
            },
            r matches Ok(t) ==> t@.wf(),
    {
        proof {
            lemma_mappings_well_formed(data@, version);
        }
        let mut reader = FUsmapReader::new(data, version);
        let name_lut = read_name_table(&mut reader)?;
        let enums = read_enum_table(&mut reader, &name_lut)?;
        let mut types = read_struct_table(&mut reader, &name_lut)?;
        resolve_supers(&mut types);
        Ok(TypeMappings { types, enums })
    }

    /// Position of the struct named `name`.
    pub fn find_struct(&self, name: &String) -> (r: Option<usize>)
        ensures
            match r {
                Some(k) => k < self.types@.len() && last_index_of(model_names(self@.types), name@)
                    == Some(k as int),
                None => last_index_of(model_names(self@.types), name@) is None,
            },
    {
        proof {
            assert(model_names(self@.types) =~= struct_names(self.types@));
        }
        find_struct(&self.types, name)
    }

    /// Position of the enum named `name`.
    pub fn find_enum(&self, name: &String) -> (r: Option<usize>)
        ensures
            match r {
                Some(k) => k < self.enums@.len() && last_index_of(enum_names(self@.enums), name@)
                    == Some(k as int),
                None => last_index_of(enum_names(self@.enums), name@) is None,
            },
    {
        find_enum(&self.enums, name)
    }
}

/// Every struct table holds each name once, and leaves every link unresolved.
pub proof fn lemma_structs_registry(d: Seq<u8>, p: int, names: Seq<Seq<char>>, k: nat)
    ensures
        structs_upto(d, p, names, k) matches Ok((ts, _)) ==> unique_names(model_names(ts)) && forall|
            i: int,
        | 0 <= i < ts.len() ==> (#[trigger] ts[i]).super_struct is None,
    decreases k,
{
    if k > 0 {
        lemma_structs_registry(d, p, names, (k - 1) as nat);
        if let Ok((ts, q)) = structs_upto(d, p, names, (k - 1) as nat) {
            if let Ok((t, _)) = parse_struct_at(d, q, names) {
                let ns = model_names(ts);
                lemma_last_index_of(ns, t.name);
                let us = upsert_struct(ts, t);
                match last_index_of(ns, t.name) {
                    Some(i) => {
                        assert(model_names(us) =~= ns.update(i, t.name));
                    },
                    None => {
                        assert(model_names(us) =~= ns.push(t.name));
                    },
                }
            }
        }
    }
}

/// Every enum table holds each name once.
pub proof fn lemma_enums_registry(
    d: Seq<u8>,
    p: int,
    names: Seq<Seq<char>>,
    v: EUsmapVersion,
    k: nat,
)
    ensures
        enums_upto(d, p, names, v, k) matches Ok((es, _)) ==> unique_names(enum_names(es)),
    decreases k,
{
    if k > 0 {
        lemma_enums_registry(d, p, names, v, (k - 1) as nat);
        if let Ok((es, q)) = enums_upto(d, p, names, v, (k - 1) as nat) {
            if let Ok((e, _)) = enum_entry_at(d, q, names, v) {
                let ns = enum_names(es);
                lemma_last_index_of(ns, e.0);
                match last_index_of(ns, e.0) {
                    Some(i) => {
                        assert(enum_names(upsert_enum(es, e)) =~= ns.update(i, e.0));
                    },
                    None => {
                        assert(enum_names(upsert_enum(es, e)) =~= ns.push(e.0));
                    },
                }
            }
        }
    }
}

/// Every schema that decodes is well formed.
pub proof fn lemma_mappings_well_formed(d: Seq<u8>, v: EUsmapVersion)
    ensures
        mappings_of(d, v) matches Ok(m) ==> m.wf(),
{
    if let Ok(m) = mappings_of(d, v) {
        let (names, q1) = name_table_at(d, 0, v)->Ok_0;
        let (es, q2) = enum_table_at(d, q1, names, v)->Ok_0;
        let (ts, _) = struct_table_at(d, q2, names)->Ok_0;
        lemma_structs_registry(d, q2 + 4, names, u32_at(d, q2) as nat);
        lemma_enums_registry(d, q1 + 4, names, v, u32_at(d, q1) as nat);
        assert(model_names(m.types) =~= model_names(ts));
        assert forall|i: int| 0 <= i < m.types.len() implies match #[trigger] m.types[i].super_struct {
            Some(Some(k)) => 0 <= k < m.types.len() && m.types[i].super_type == Some(m.types[k].name),
            Some(None) => true,
            None => false,
        } by {
            if let Some(n) = ts[i].super_type {
                lemma_last_index_of(model_names(ts), n);
            }
        }
    }
}

/// Links a struct to the struct of the same file that its super-type name
/// names: after decoding, the link of `S` points at `T`'s own decoded node.
pub proof fn lemma_super_resolves_to_named_struct(
    d: Seq<u8>,
    v: EUsmapVersion,
    m: TypeMappingsModel,
    s: int,
    t: int,
)
    requires
        mappings_of(d, v) == Ok::<TypeMappingsModel, UsmapParserError>(m),
        0 <= s < m.types.len(),
        0 <= t < m.types.len(),
        m.types[s].super_type == Some(m.types[t].name),
    ensures
        m.types[s].super_struct == Some(Some(t)),
{
    let (names, q1) = name_table_at(d, 0, v)->Ok_0;
    let (es, q2) = enum_table_at(d, q1, names, v)->Ok_0;
    let (ts, _) = struct_table_at(d, q2, names)->Ok_0;
    lemma_structs_registry(d, q2 + 4, names, u32_at(d, q2) as nat);
    assert(model_names(m.types) =~= model_names(ts));
    lemma_last_index_unique(model_names(ts), t);
}

/// A super-type name that no struct of the file carries (or no super-type at
/// all) leaves the link empty, and does not make the decode fail: whenever the
/// three tables read, the schema is produced.
pub proof fn lemma_unmatched_super_is_empty(
    d: Seq<u8>,
    v: EUsmapVersion,
    names: Seq<Seq<char>>,
    q1: int,
    es: Seq<EnumModel>,
    q2: int,
    ts: Seq<StructModel>,
    q3: int,
    s: int,
)
    requires
        name_table_at(d, 0, v) == Ok::<(Seq<Seq<char>>, int), UsmapParserError>((names, q1)),
        enum_table_at(d, q1, names, v) == Ok::<(Seq<EnumModel>, int), UsmapParserError>((es, q2)),
        struct_table_at(d, q2, names) == Ok::<(Seq<StructModel>, int), UsmapParserError>((ts, q3)),
        0 <= s < ts.len(),
        ts[s].super_type matches Some(n) ==> forall|j: int| 0 <= j < ts.len() ==> ts[j].name != n,
    ensures
        mappings_of(d, v) matches Ok(m) && m.types.len() == ts.len() && m.types[s].name == ts[s].name
            && m.types[s].super_struct == Some(None::<int>),
{
    lemma_structs_registry(d, q2 + 4, names, u32_at(d, q2) as nat);
    if let Some(n) = ts[s].super_type {
        lemma_last_index_of(model_names(ts), n);
        if let Some(j) = last_index_of(model_names(ts), n) {
            assert(ts[j].name == n);
        }
    }
}

} // verus!
