//! Property categories of the mapping format, and the recursive type trees
//! built from them.
use vstd::prelude::*;

use std::collections::HashMap;

use crate::reader::{agrees, avail, name_at, names_view, u16_at, FUsmapReader, ReaderError};

verus! {

/// Category tag of a property type. Tags past the known range read as `Unknown`.
#[derive(Debug, Clone, Copy, PartialEq, Eq, Structural)]
pub enum EPropertyType {
    ByteProperty,
    BoolProperty,
    IntProperty,
    FloatProperty,
    ObjectProperty,
    NameProperty,
    DelegateProperty,
    DoubleProperty,
    ArrayProperty,
    StructProperty,
    StrProperty,
    TextProperty,
    InterfaceProperty,
    MulticastDelegateProperty,
    WeakObjectProperty,
    LazyObjectProperty,
    AssetObjectProperty,
    SoftObjectProperty,
    UInt64Property,
    UInt32Property,
    UInt16Property,
    Int64Property,
    Int16Property,
    Int8Property,
    MapProperty,
    SetProperty,
    EnumProperty,
    FieldPathProperty,
    OptionalProperty,
    Utf8StrProperty,
    AnsiStrProperty,
    Unknown,
}

/// The category that a tag byte stands for.
pub open spec fn property_kind_of(b: u8) -> EPropertyType {
    if b == 0 {
        EPropertyType::ByteProperty
    } else if b == 1 {
        EPropertyType::BoolProperty
    } else if b == 2 {
        EPropertyType::IntProperty
    } else if b == 3 {
        EPropertyType::FloatProperty
    } else if b == 4 {
        EPropertyType::ObjectProperty
    } else if b == 5 {
        EPropertyType::NameProperty
    } else if b == 6 {
        EPropertyType::DelegateProperty
    } else if b == 7 {
        EPropertyType::DoubleProperty
    } else if b == 8 {
        EPropertyType::ArrayProperty
    } else if b == 9 {
        EPropertyType::StructProperty
    } else if b == 10 {
        EPropertyType::StrProperty
    } else if b == 11 {
        EPropertyType::TextProperty
    } else if b == 12 {
        EPropertyType::InterfaceProperty
    } else if b == 13 {
        EPropertyType::MulticastDelegateProperty
    } else if b == 14 {
        EPropertyType::WeakObjectProperty
    } else if b == 15 {
        EPropertyType::LazyObjectProperty
    } else if b == 16 {
        EPropertyType::AssetObjectProperty
    } else if b == 17 {
        EPropertyType::SoftObjectProperty
    } else if b == 18 {
        EPropertyType::UInt64Property
    } else if b == 19 {
        EPropertyType::UInt32Property
    } else if b == 20 {
        EPropertyType::UInt16Property
    } else if b == 21 {
        EPropertyType::Int64Property
    } else if b == 22 {
        EPropertyType::Int16Property
    } else if b == 23 {
        EPropertyType::Int8Property
    } else if b == 24 {
        EPropertyType::MapProperty
    } else if b == 25 {
        EPropertyType::SetProperty
    } else if b == 26 {
        EPropertyType::EnumProperty
    } else if b == 27 {
        EPropertyType::FieldPathProperty
    } else if b == 28 {
        EPropertyType::OptionalProperty
    } else if b == 29 {
        EPropertyType::Utf8StrProperty
    } else if b == 30 {
        EPropertyType::AnsiStrProperty
    } else {
        EPropertyType::Unknown
    }
}

/// The name under which a category is written out.
pub open spec fn property_kind_name(k: EPropertyType) -> Seq<char> {
    match k {
        EPropertyType::ByteProperty => "ByteProperty"@,
        EPropertyType::BoolProperty => "BoolProperty"@,
        EPropertyType::IntProperty => "IntProperty"@,
        EPropertyType::FloatProperty => "FloatProperty"@,
        EPropertyType::ObjectProperty => "ObjectProperty"@,
        EPropertyType::NameProperty => "NameProperty"@,
        EPropertyType::DelegateProperty => "DelegateProperty"@,
        EPropertyType::DoubleProperty => "DoubleProperty"@,
        EPropertyType::ArrayProperty => "ArrayProperty"@,
        EPropertyType::StructProperty => "StructProperty"@,
        EPropertyType::StrProperty => "StrProperty"@,
        EPropertyType::TextProperty => "TextProperty"@,
        EPropertyType::InterfaceProperty => "InterfaceProperty"@,
        EPropertyType::MulticastDelegateProperty => "MulticastDelegateProperty"@,
        EPropertyType::WeakObjectProperty => "WeakObjectProperty"@,
        EPropertyType::LazyObjectProperty => "LazyObjectProperty"@,
        EPropertyType::AssetObjectProperty => "AssetObjectProperty"@,
        EPropertyType::SoftObjectProperty => "SoftObjectProperty"@,
        EPropertyType::UInt64Property => "UInt64Property"@,
        EPropertyType::UInt32Property => "UInt32Property"@,
        EPropertyType::UInt16Property => "UInt16Property"@,
        EPropertyType::Int64Property => "Int64Property"@,
        EPropertyType::Int16Property => "Int16Property"@,
        EPropertyType::Int8Property => "Int8Property"@,
        EPropertyType::MapProperty => "MapProperty"@,
        EPropertyType::SetProperty => "SetProperty"@,
        EPropertyType::EnumProperty => "EnumProperty"@,
        EPropertyType::FieldPathProperty => "FieldPathProperty"@,
        EPropertyType::OptionalProperty => "OptionalProperty"@,
        EPropertyType::Utf8StrProperty => "Utf8StrProperty"@,
        EPropertyType::AnsiStrProperty => "AnsiStrProperty"@,
        EPropertyType::Unknown => "Unknown"@,
    }
}

impl EPropertyType {
    pub fn from_u8(b: u8) -> (r: EPropertyType)
        ensures
            r == property_kind_of(b),
    {
        match b {
            0 => EPropertyType::ByteProperty,
            1 => EPropertyType::BoolProperty,
            2 => EPropertyType::IntProperty,
            3 => EPropertyType::FloatProperty,
            4 => EPropertyType::ObjectProperty,
            5 => EPropertyType::NameProperty,
            6 => EPropertyType::DelegateProperty,
            7 => EPropertyType::DoubleProperty,
            8 => EPropertyType::ArrayProperty,
            9 => EPropertyType::StructProperty,
            10 => EPropertyType::StrProperty,
            11 => EPropertyType::TextProperty,
            12 => EPropertyType::InterfaceProperty,
            13 => EPropertyType::MulticastDelegateProperty,
            14 => EPropertyType::WeakObjectProperty,
            15 => EPropertyType::LazyObjectProperty,
            16 => EPropertyType::AssetObjectProperty,
            17 => EPropertyType::SoftObjectProperty,
            18 => EPropertyType::UInt64Property,
            19 => EPropertyType::UInt32Property,
            20 => EPropertyType::UInt16Property,
            21 => EPropertyType::Int64Property,
            22 => EPropertyType::Int16Property,
            23 => EPropertyType::Int8Property,
            24 => EPropertyType::MapProperty,
            25 => EPropertyType::SetProperty,
            26 => EPropertyType::EnumProperty,
            27 => EPropertyType::FieldPathProperty,
            28 => EPropertyType::OptionalProperty,
            29 => EPropertyType::Utf8StrProperty,
            30 => EPropertyType::AnsiStrProperty,
            _ => EPropertyType::Unknown,
        }
    }

    pub fn name(&self) -> (r: String)
        ensures
            r@ == property_kind_name(*self),
    {
        match self {
            EPropertyType::ByteProperty => "ByteProperty".to_owned(),
            EPropertyType::BoolProperty => "BoolProperty".to_owned(),
            EPropertyType::IntProperty => "IntProperty".to_owned(),
            EPropertyType::FloatProperty => "FloatProperty".to_owned(),
            EPropertyType::ObjectProperty => "ObjectProperty".to_owned(),
            EPropertyType::NameProperty => "NameProperty".to_owned(),
            EPropertyType::DelegateProperty => "DelegateProperty".to_owned(),
            EPropertyType::DoubleProperty => "DoubleProperty".to_owned(),
            EPropertyType::ArrayProperty => "ArrayProperty".to_owned(),
            EPropertyType::StructProperty => "StructProperty".to_owned(),
            EPropertyType::StrProperty => "StrProperty".to_owned(),
            EPropertyType::TextProperty => "TextProperty".to_owned(),
            EPropertyType::InterfaceProperty => "InterfaceProperty".to_owned(),
            EPropertyType::MulticastDelegateProperty => "MulticastDelegateProperty".to_owned(),
            EPropertyType::WeakObjectProperty => "WeakObjectProperty".to_owned(),
            EPropertyType::LazyObjectProperty => "LazyObjectProperty".to_owned(),
            EPropertyType::AssetObjectProperty => "AssetObjectProperty".to_owned(),
            EPropertyType::SoftObjectProperty => "SoftObjectProperty".to_owned(),
            EPropertyType::UInt64Property => "UInt64Property".to_owned(),
            EPropertyType::UInt32Property => "UInt32Property".to_owned(),
            EPropertyType::UInt16Property => "UInt16Property".to_owned(),
            EPropertyType::Int64Property => "Int64Property".to_owned(),
            EPropertyType::Int16Property => "Int16Property".to_owned(),
            EPropertyType::Int8Property => "Int8Property".to_owned(),
            EPropertyType::MapProperty => "MapProperty".to_owned(),
            EPropertyType::SetProperty => "SetProperty".to_owned(),
            EPropertyType::EnumProperty => "EnumProperty".to_owned(),
            EPropertyType::FieldPathProperty => "FieldPathProperty".to_owned(),
            EPropertyType::OptionalProperty => "OptionalProperty".to_owned(),
            EPropertyType::Utf8StrProperty => "Utf8StrProperty".to_owned(),
            EPropertyType::AnsiStrProperty => "AnsiStrProperty".to_owned(),
            EPropertyType::Unknown => "Unknown".to_owned(),
        }
    }
}

/// Abstract value of a [`PropertyType`].
pub struct PropertyTypeModel {
    pub f_type: Seq<char>,
    pub struct_type: Option<Seq<char>>,
    pub inner_type: Option<Box<PropertyTypeModel>>,
    pub value_type: Option<Box<PropertyTypeModel>>,
    pub enum_name: Option<Seq<char>>,
    pub is_enum_as_byte: Option<bool>,
    pub f_bool: Option<bool>,
}

/// Abstract value of a [`PropertyInfo`].
pub struct PropertyInfoModel {
    pub index: i32,
    pub name: Seq<char>,
    pub array_size: Option<u8>,
    pub mapping_type: PropertyTypeModel,
}

pub open spec fn opt_str(s: Option<String>) -> Option<Seq<char>> {
    match s {
        Some(x) => Some(x@),
        None => None,
    }
}

/// A recursive type descriptor of a property.
#[derive(Debug)]
pub struct PropertyType {
    pub f_type: String,
    pub struct_type: Option<String>,
    pub inner_type: Option<Box<PropertyType>>,
    pub value_type: Option<Box<PropertyType>>,
    pub enum_name: Option<String>,
    pub is_enum_as_byte: Option<bool>,
    pub f_bool: Option<bool>,
}

pub open spec fn type_view(t: PropertyType) -> PropertyTypeModel
    decreases t,
{
    PropertyTypeModel {
        f_type: t.f_type@,
        struct_type: opt_str(t.struct_type),
        inner_type: match t.inner_type {
            Some(b) => Some(Box::new(type_view(*b))),
            None => None,
        },
        value_type: match t.value_type {
            Some(b) => Some(Box::new(type_view(*b))),
            None => None,
        },
        enum_name: opt_str(t.enum_name),
        is_enum_as_byte: t.is_enum_as_byte,
        f_bool: t.f_bool,
    }
}

impl View for PropertyType {
    type V = PropertyTypeModel;

    open spec fn view(&self) -> PropertyTypeModel {
        type_view(*self)
    }
}

/// A type tree of category `k` with no trailing structure.
pub open spec fn leaf_model(k: EPropertyType) -> PropertyTypeModel {
    PropertyTypeModel {
        f_type: property_kind_name(k),
        struct_type: None,
        inner_type: None,
        value_type: None,
        enum_name: None,
        is_enum_as_byte: None,
        f_bool: None,
    }
}

/// The type tree encoded at `p` and the position after it: a tag byte, then
/// for an enum an inner tree and an enum name, for a struct a struct name,
/// for a set, array or optional one inner tree, and for a map a key tree
/// followed by a value tree.
pub open spec fn parse_type_at(d: Seq<u8>, p: int, names: Seq<Seq<char>>) -> Result<
    (PropertyTypeModel, int),
    ReaderError,
>
    decreases d.len() - p,
{
    if !avail(d, p, 1) {
        Err(ReaderError::UnexpectedEof)
    } else {
        let k = property_kind_of(d[p]);
        let base = leaf_model(k);
        let q = p + 1;
        match k {
            EPropertyType::EnumProperty => match parse_type_at(d, q, names) {
                Err(e) => Err(e),
                Ok((inner, q2)) => match name_at(d, q2, names) {
                    Err(e) => Err(e),
                    Ok((n, q3)) => Ok(
                        (
                            PropertyTypeModel {
                                inner_type: Some(Box::new(inner)),
                                enum_name: Some(n),
                                ..base
                            },
                            q3,
                        ),
                    ),
                },
            },
            EPropertyType::StructProperty => match name_at(d, q, names) {
                Err(e) => Err(e),
                Ok((n, q2)) => Ok((PropertyTypeModel { struct_type: Some(n), ..base }, q2)),
            },
            EPropertyType::SetProperty
            | EPropertyType::ArrayProperty
            | EPropertyType::OptionalProperty => match parse_type_at(d, q, names) {
                Err(e) => Err(e),
                Ok((inner, q2)) => Ok(
                    (PropertyTypeModel { inner_type: Some(Box::new(inner)), ..base }, q2),
                ),
            },
            EPropertyType::MapProperty => match parse_type_at(d, q, names) {
                Err(e) => Err(e),
                Ok((key, q2)) => if p < q2 <= d.len() {
                    match parse_type_at(d, q2, names) {
                        Err(e) => Err(e),
                        Ok((value, q3)) => Ok(
                            (
                                PropertyTypeModel {
                                    inner_type: Some(Box::new(key)),
                                    value_type: Some(Box::new(value)),
                                    ..base
                                },
                                q3,
                            ),
                        ),
                    }
                } else {
                    Err(ReaderError::UnexpectedEof)
                },
            },
            _ => Ok((base, q)),
        }
    }
}

/// A map type reads exactly two nested trees after its tag, key first, and
/// ends where the value tree ends.
pub proof fn lemma_map_reads_key_then_value(d: Seq<u8>, p: int, names: Seq<Seq<char>>)
    requires
        avail(d, p, 1),
        property_kind_of(d[p]) == EPropertyType::MapProperty,
        parse_type_at(d, p, names) is Ok,
    ensures
        ({
            let (key, q) = parse_type_at(d, p + 1, names)->Ok_0;
            let (value, e) = parse_type_at(d, q, names)->Ok_0;
            &&& parse_type_at(d, p + 1, names) is Ok
            &&& parse_type_at(d, q, names) is Ok
            &&& parse_type_at(d, p, names)->Ok_0.0.inner_type == Some(Box::new(key))
            &&& parse_type_at(d, p, names)->Ok_0.0.value_type == Some(Box::new(value))
            &&& parse_type_at(d, p, names)->Ok_0.1 == e
        }),
{
    lemma_type_extent(d, p + 1, names);
}

/// A type tree always occupies at least its tag byte and never runs past the data.
pub proof fn lemma_type_extent(d: Seq<u8>, p: int, names: Seq<Seq<char>>)
    ensures
        parse_type_at(d, p, names) matches Ok((_, e)) ==> p < e <= d.len(),
    decreases d.len() - p,
{
    if avail(d, p, 1) {
        let q = p + 1;
        lemma_type_extent(d, q, names);
        if let Ok((_, q2)) = parse_type_at(d, q, names) {
            if p < q2 <= d.len() {
                lemma_type_extent(d, q2, names);
            }
        }
    }
}

impl PropertyType {
    pub fn new(
        f_type: String,
        struct_type: Option<String>,
        inner_type: Option<Box<PropertyType>>,
        value_type: Option<Box<PropertyType>>,
        enum_name: Option<String>,
        is_enum_as_byte: Option<bool>,
        f_bool: Option<bool>,
    ) -> (r: Self)
        ensures
            r == (PropertyType {
                f_type,
                struct_type,
                inner_type,
                value_type,
                enum_name,
                is_enum_as_byte,
                f_bool,
            }),
    {
        PropertyType {
            f_type,
            struct_type,
            inner_type,
            value_type,
            enum_name,
            is_enum_as_byte,
            f_bool,
        }
    }

    /// Reads one type tree, recursing into its nested trees.
    pub fn parse(reader: &mut FUsmapReader, name_lut: &Vec<String>) -> (r: Result<Self, ReaderError>)
        ensures
            final(reader).same_source(old(reader)),
            agrees(
                r,
                parse_type_at(old(reader).data@, old(reader).at(), names_view(name_lut@)),
                final(reader).at(),
            ),
        decreases old(reader).data@.len() - old(reader).at(),
    {
        let ghost d = reader.data@;
        let ghost p = reader.at();
        let ghost names = names_view(name_lut@);
        let tag = reader.read_u8()?;
        let kind = EPropertyType::from_u8(tag);
        let f_type = kind.name();
        match kind {
            EPropertyType::EnumProperty => {
                let inner = PropertyType::parse(reader, name_lut)?;
                let enum_name = reader.read_name(name_lut)?;
                Ok(PropertyType::new(f_type, None, Some(Box::new(inner)), None, Some(enum_name), None, None))
            },
            EPropertyType::StructProperty => {
                let struct_type = reader.read_name(name_lut)?;
                Ok(PropertyType::new(f_type, Some(struct_type), None, None, None, None, None))
            },
            EPropertyType::SetProperty
            | EPropertyType::ArrayProperty
            | EPropertyType::OptionalProperty => {
                let inner = PropertyType::parse(reader, name_lut)?;
                Ok(PropertyType::new(f_type, None, Some(Box::new(inner)), None, None, None, None))
            },
            EPropertyType::MapProperty => {
                proof {
                    lemma_type_extent(d, p + 1, names);
                }
                let key = PropertyType::parse(reader, name_lut)?;
                let value = PropertyType::parse(reader, name_lut)?;
                Ok(PropertyType::new(f_type, None, Some(Box::new(key)), Some(Box::new(value)), None, None, None))
            },
            _ => Ok(PropertyType::new(f_type, None, None, None, None, None, None)),
        }
    }
}

impl Clone for PropertyType {
    fn clone(&self) -> (r: Self)
        ensures
            r@ == self@,
        decreases self,
    {
        let inner_type = match &self.inner_type {
            Some(b) => Some(Box::new((&**b).clone())),
            None => None,
        };
        let value_type = match &self.value_type {
            Some(b) => Some(Box::new((&**b).clone())),
            None => None,
        };
        let struct_type = match &self.struct_type {
            Some(s) => Some(s.clone()),
            None => None,
        };
        let enum_name = match &self.enum_name {
            Some(s) => Some(s.clone()),
            None => None,
        };
        PropertyType {
            f_type: self.f_type.clone(),
            struct_type,
            inner_type,
            value_type,
            enum_name,
            is_enum_as_byte: self.is_enum_as_byte,
            f_bool: self.f_bool,
        }
    }
}

/// One property slot: its index, name, static array dimension and type.
#[derive(Debug)]
pub struct PropertyInfo {
    pub index: i32,
    pub name: String,
    pub array_size: Option<u8>,
    pub mapping_type: PropertyType,
}

impl View for PropertyInfo {
    type V = PropertyInfoModel;

    open spec fn view(&self) -> PropertyInfoModel {
        PropertyInfoModel {
            index: self.index,
            name: self.name@,
            array_size: self.array_size,
            mapping_type: self.mapping_type@,
        }
    }
}

impl Clone for PropertyInfo {
    fn clone(&self) -> (r: Self)
        ensures
            r@ == self@,
    {
        PropertyInfo {
            index: self.index,
            name: self.name.clone(),
            array_size: self.array_size,
            mapping_type: self.mapping_type.clone(),
        }
    }
}

/// The property encoded at `p`: a 16-bit slot index, an 8-bit array dimension,
/// a name index and a type tree.
pub open spec fn parse_info_at(d: Seq<u8>, p: int, names: Seq<Seq<char>>) -> Result<
    (PropertyInfoModel, int),
    ReaderError,
> {
    if !avail(d, p, 3) {
        Err(ReaderError::UnexpectedEof)
    } else {
        match name_at(d, p + 3, names) {
            Err(e) => Err(e),
            Ok((name, q)) => match parse_type_at(d, q, names) {
                Err(e) => Err(e),
                Ok((t, q2)) => Ok(
                    (
                        PropertyInfoModel {
                            index: u16_at(d, p) as i32,
                            name,
                            array_size: Some(d[p + 2]),
                            mapping_type: t,
                        },
                        q2,
                    ),
                ),
            },
        }
    }
}

/// Number of slots that a property occupies.
pub open spec fn slot_count(a: Option<u8>) -> int {
    match a {
        Some(n) => n as int,
        None => 0,
    }
}

/// `props` with the first `n` slots of `info` written over it: slot `info.index + i`
/// holds `info` with that slot as its index.
pub open spec fn expand_n(
    props: Map<i32, PropertyInfoModel>,
    info: PropertyInfoModel,
    n: int,
) -> Map<i32, PropertyInfoModel> {
    Map::new(
        |k: i32| props.contains_key(k) || (info.index <= k < info.index + n),
        |k: i32|
            if info.index <= k < info.index + n {
                PropertyInfoModel { index: k, ..info }
            } else {
                props[k]
            },
    )
}

/// A property of array dimension `n` at base slot `b` fills exactly the slots
/// `b .. b + n - 1`; each holds a copy with the same name, dimension and type that
/// carries its own slot as index, and every other slot is left as it was.
pub proof fn lemma_array_expansion(props: Map<i32, PropertyInfoModel>, info: PropertyInfoModel, k: i32)
    ensures
        info.index <= k < info.index + slot_count(info.array_size) ==> expand(props, info).contains_key(k)
            && expand(props, info)[k] == (PropertyInfoModel { index: k, ..info }),
        !(info.index <= k < info.index + slot_count(info.array_size)) ==> (expand(
            props,
            info,
        ).contains_key(k) == props.contains_key(k) && (props.contains_key(k) ==> expand(
            props,
            info,
        )[k] == props[k])),
{
}

/// `props` with every slot of `info` written over it.
pub open spec fn expand(props: Map<i32, PropertyInfoModel>, info: PropertyInfoModel) -> Map<
    i32,
    PropertyInfoModel,
> {
    expand_n(props, info, slot_count(info.array_size))
}

pub open spec fn props_view(m: Map<i32, PropertyInfo>) -> Map<i32, PropertyInfoModel> {
    m.map_values(|p: PropertyInfo| p@)
}

impl PropertyInfo {
    pub fn new(index: i32, name: String, mapping_type: PropertyType, array_size: Option<u8>) -> (r:
        Self)
        ensures
            r == (PropertyInfo { index, name, array_size, mapping_type }),
    {
        PropertyInfo { index, name, array_size, mapping_type }
    }

    pub fn parse(reader: &mut FUsmapReader, name_lut: &Vec<String>) -> (r: Result<Self, ReaderError>)
        ensures
            final(reader).same_source(old(reader)),
            agrees(
                r,
                parse_info_at(old(reader).data@, old(reader).at(), names_view(name_lut@)),
                final(reader).at(),
            ),
    {
        if !reader.has_remaining(3) {
            return Err(ReaderError::UnexpectedEof);
        }
        let index = reader.read_u16()?;
        let arraydim = reader.read_u8()?;
        let name = reader.read_name(name_lut)?;
        let p_type = PropertyType::parse(reader, name_lut)?;
        Ok(PropertyInfo::new(index as i32, name, p_type, Some(arraydim)))
    }

    /// Writes one entry per array slot into `properties`, keyed by slot, each a copy
    /// of this property that carries its own slot as index.
    pub fn expand_into(&self, properties: &mut HashMap<i32, PropertyInfo>)
        requires
            self.index <= i32::MAX - 255,
        ensures
            props_view(final(properties)@) == expand(props_view(old(properties)@), self@),
    {
        let n: u8 = match self.array_size {
            Some(k) => k,
            None => 0,
        };
        let mut i: u8 = 0;
        assert(expand_n(props_view(properties@), self@, 0) =~= props_view(properties@));
        while i < n
            invariant
                i <= n,
                n as int == slot_count(self.array_size),
                self.index <= i32::MAX - 255,
                props_view(properties@) == expand_n(props_view(old(properties)@), self@, i as int),
            decreases n - i,
        {
            let slot: i32 = self.index + i as i32;
            let mut copy = self.clone();
            copy.index = slot;
            let ghost before = props_view(properties@);
            properties.insert(slot, copy);
            proof {
                assert(props_view(properties@) =~= before.insert(slot, copy@));
                assert(expand_n(props_view(old(properties)@), self@, i + 1) =~= before.insert(
                    slot,
                    copy@,
                ));
            }
            i = i + 1;
        }
    }
}

/// Abstract value of a [`Struct`].
pub struct StructModel {
    pub name: Seq<char>,
    pub super_type: Option<Seq<char>>,
    pub properties: Map<i32, PropertyInfoModel>,
    pub property_count: i32,
    pub super_struct: Option<Option<int>>,
}

pub open spec fn link_view(l: Option<Option<usize>>) -> Option<Option<int>> {
    match l {
        Some(Some(k)) => Some(Some(k as int)),
        Some(None) => Some(None),
        None => None,
    }
}

/// A named schema node. `super_struct` is `None` until resolution, and then
/// holds the position of the super-struct in the registry, if one was found.
#[derive(Debug)]
pub struct Struct {
    pub name: String,
    pub super_type: Option<String>,
    pub properties: HashMap<i32, PropertyInfo>,
    pub property_count: i32,
    pub super_struct: Option<Option<usize>>,
}

impl View for Struct {
    type V = StructModel;

    open spec fn view(&self) -> StructModel {
        StructModel {
            name: self.name@,
            super_type: opt_str(self.super_type),
            properties: props_view(self.properties@),
            property_count: self.property_count,
            super_struct: link_view(self.super_struct),
        }
    }
}

/// Position of the last name in `names` equal to `n`.
pub open spec fn last_index_of(names: Seq<Seq<char>>, n: Seq<char>) -> Option<int>
    decreases names.len(),
{
    if names.len() == 0 {
        None
    } else if names.last() == n {
        Some(names.len() - 1)
    } else {
        last_index_of(names.drop_last(), n)
    }
}

/// Whether no name occurs twice.
pub open spec fn unique_names(names: Seq<Seq<char>>) -> bool {
    forall|i: int, j: int| 0 <= i < names.len() && 0 <= j < names.len() && i != j ==> names[i] != names[j]
}

/// In a table without repeated names, the position found is the only one that
/// holds the name.
pub proof fn lemma_last_index_unique(names: Seq<Seq<char>>, j: int)
    requires
        unique_names(names),
        0 <= j < names.len(),
    ensures
        last_index_of(names, names[j]) == Some(j),
{
    lemma_last_index_of(names, names[j]);
}

/// A found position is in range and holds the name searched for.
pub proof fn lemma_last_index_of(names: Seq<Seq<char>>, n: Seq<char>)
    ensures
        last_index_of(names, n) matches Some(i) ==> 0 <= i < names.len() && names[i] == n,
        last_index_of(names, n) is None ==> forall|i: int| 0 <= i < names.len() ==> names[i] != n,
    decreases names.len(),
{
    if names.len() > 0 && names.last() != n {
        lemma_last_index_of(names.drop_last(), n);
        assert forall|i: int| 0 <= i < names.len() - 1 implies names[i] == names.drop_last()[i] by {}
    }
}

pub open spec fn struct_names(types: Seq<Struct>) -> Seq<Seq<char>> {
    types.map_values(|s: Struct| s.name@)
}

/// Registry position of the super-struct named by `super_type`, if any.
pub open spec fn super_index(super_type: Option<Seq<char>>, names: Seq<Seq<char>>) -> Option<int> {
    match super_type {
        Some(n) => last_index_of(names, n),
        None => None,
    }
}

/// A struct after resolution against a registry with the given names; one that
/// was resolved already stays as it is.
pub open spec fn resolve_model(s: StructModel, names: Seq<Seq<char>>) -> StructModel {
    if s.super_struct is None {
        StructModel { super_struct: Some(super_index(s.super_type, names)), ..s }
    } else {
        s
    }
}

/// The properties of the first `k` property records from `p`, each expanded over
/// the ones before it, and the position after them.
pub open spec fn props_upto(d: Seq<u8>, p: int, names: Seq<Seq<char>>, k: nat) -> Result<
    (Map<i32, PropertyInfoModel>, int),
    ReaderError,
>
    decreases k,
{
    if k == 0 {
        Ok((Map::empty(), p))
    } else {
        match props_upto(d, p, names, (k - 1) as nat) {
            Err(e) => Err(e),
            Ok((m, q)) => match parse_info_at(d, q, names) {
                Err(e) => Err(e),
                Ok((info, q2)) => Ok((expand(m, info), q2)),
            },
        }
    }
}

/// Once a prefix of records fails, every longer prefix fails the same way.
pub proof fn lemma_props_error_persists(d: Seq<u8>, p: int, names: Seq<Seq<char>>, k: nat, j: nat)
    requires
        k <= j,
        props_upto(d, p, names, k) is Err,
    ensures
        props_upto(d, p, names, j) == props_upto(d, p, names, k),
    decreases j - k,
{
    if k < j {
        lemma_props_error_persists(d, p, names, k, (j - 1) as nat);
    }
}

/// The struct record at `p`: name, super-type name (empty for none), declared
/// property count, serializable property count, then that many property records.
pub open spec fn parse_struct_at(d: Seq<u8>, p: int, names: Seq<Seq<char>>) -> Result<
    (StructModel, int),
    ReaderError,
> {
    match name_at(d, p, names) {
        Err(e) => Err(e),
        Ok((name, q1)) => match name_at(d, q1, names) {
            Err(e) => Err(e),
            Ok((sup, q2)) => if !avail(d, q2, 4) {
                Err(ReaderError::UnexpectedEof)
            } else {
                match props_upto(d, q2 + 4, names, u16_at(d, q2 + 2) as nat) {
                    Err(e) => Err(e),
                    Ok((m, q3)) => Ok(
                        (
                            StructModel {
                                name,
                                super_type: if sup.len() == 0 {
                                    None
                                } else {
                                    Some(sup)
                                },
                                properties: m,
                                property_count: u16_at(d, q2) as i32,
                                super_struct: None,
                            },
                            q3,
                        ),
                    ),
                }
            },
        },
    }
}

/// Finds the registry position of the struct named `name` (the last one, should
/// the name occur twice).
pub fn find_struct(types: &Vec<Struct>, name: &String) -> (r: Option<usize>)
    ensures
        match r {
            Some(k) => k < types@.len() && last_index_of(struct_names(types@), name@) == Some(
                k as int,
            ),
            None => last_index_of(struct_names(types@), name@) is None,
        },
{
    let ghost names = struct_names(types@);
    let mut j: usize = types.len();
    assert(names.take(j as int) =~= names);
    while j > 0
        invariant
            j <= types@.len(),
            names == struct_names(types@),
            last_index_of(names.take(j as int), name@) == last_index_of(names, name@),
        decreases j,
    {
        assert(names.take(j as int).drop_last() =~= names.take(j - 1));
        if types[j - 1].name == *name {
            return Some(j - 1);
        }
        j = j - 1;
    }
    None
}

/// Reads `count` property records, expanding each over its array slots.
fn read_properties(reader: &mut FUsmapReader, name_lut: &Vec<String>, count: u16) -> (r: Result<
    HashMap<i32, PropertyInfo>,
    ReaderError,
>)
    ensures
        final(reader).same_source(old(reader)),
        match props_upto(old(reader).data@, old(reader).at(), names_view(name_lut@), count as nat) {
            Ok((m, e)) => r is Ok && props_view(r->Ok_0@) == m && final(reader).at() == e,
            Err(x) => r == Err::<HashMap<i32, PropertyInfo>, ReaderError>(x),
        },
{
    let ghost d = reader.data@;
    let ghost names = names_view(name_lut@);
    let ghost q = reader.at();
    let mut properties: HashMap<i32, PropertyInfo> = HashMap::new();
    let mut i: u16 = 0;
    assert(props_view(properties@) =~= Map::<i32, PropertyInfoModel>::empty());
    while i < count
        invariant
            reader.data@ == d,
            reader.version == old(reader).version,
            d == old(reader).data@,
            q == old(reader).at(),
            names == names_view(name_lut@),
            i <= count,
            props_upto(d, q, names, i as nat) == Ok::<(Map<i32, PropertyInfoModel>, int), ReaderError>(
                (props_view(properties@), reader.at()),
            ),
        decreases count - i,
    {
        let ghost m0 = props_view(properties@);
        let ghost p0 = reader.at();
        let res = PropertyInfo::parse(reader, name_lut);
        assert(agrees(res, parse_info_at(d, p0, names), reader.at()));
        let info = match res {
            Ok(info) => info,
            Err(e) => {
                proof {
                    assert(props_upto(d, q, names, (i + 1) as nat) == Err::<
                        (Map<i32, PropertyInfoModel>, int),
                        ReaderError,
                    >(e));
                    lemma_props_error_persists(
                        d,
                        q,
                        names,
                        (i + 1) as nat,
                        count as nat,
                    );
                }
                return Err(e);
            },
        };
        assert(parse_info_at(d, p0, names) == Ok::<(PropertyInfoModel, int), ReaderError>(
            (info@, reader.at()),
        ));
        info.expand_into(&mut properties);
        assert(props_upto(d, q, names, (i + 1) as nat) == Ok::<
            (Map<i32, PropertyInfoModel>, int),
            ReaderError,
        >((expand(m0, info@), reader.at())));
        i = i + 1;
    }
    Ok(properties)
}

impl Struct {
    pub fn new(name: String, property_count: i32) -> (r: Self)
        ensures
            r.name == name,
            r.super_type is None,
            r.properties@ == Map::<i32, PropertyInfo>::empty(),
            r.property_count == property_count,
            r.super_struct is None,
    {
        Struct {
            name,
            super_type: None,
            properties: HashMap::new(),
            property_count,
            super_struct: None,
        }
    }

    pub fn new_with_super(
        name: String,
        super_type: Option<String>,
        properties: HashMap<i32, PropertyInfo>,
        property_count: i32,
    ) -> (r: Self)
        ensures
            r == (Struct { name, super_type, properties, property_count, super_struct: None }),
    {
        Struct { name, super_type, properties, property_count, super_struct: None }
    }

    /// Resolves the super-struct against a registry, once: a struct that was
    /// resolved already keeps its link.
    pub fn init_super(&mut self, types: &Vec<Struct>)
        ensures
            final(self)@ == resolve_model(old(self)@, struct_names(types@)),
    {
        if self.super_struct.is_none() {
            let found = match &self.super_type {
                Some(n) => find_struct(types, n),
                None => None,
            };
            self.super_struct = Some(found);
        }
    }

    /// Reads one struct record, expanding each property over its array slots.
    pub fn parse(reader: &mut FUsmapReader, name_lut: &Vec<String>) -> (r: Result<Self, ReaderError>)
        ensures
            final(reader).same_source(old(reader)),
            agrees(
                r,
                parse_struct_at(old(reader).data@, old(reader).at(), names_view(name_lut@)),
                final(reader).at(),
            ),
    {
        let name = reader.read_name(name_lut)?;
        let sup = reader.read_name(name_lut)?;
        let super_type = if sup.as_str().is_empty() {
            None
        } else {
            Some(sup)
        };
        if !reader.has_remaining(4) {
            return Err(ReaderError::UnexpectedEof);
        }
        let property_count = reader.read_u16()?;
        let serializable_property_count = reader.read_u16()?;
        let properties = read_properties(reader, name_lut, serializable_property_count)?;
        Ok(Struct::new_with_super(name, super_type, properties, property_count as i32))
    }
}

} // verus!
