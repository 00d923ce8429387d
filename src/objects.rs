//! Engine object descriptions that accompany the schema.
use vstd::prelude::*;

use std::collections::HashMap;

verus! {

/// How an enum was declared in C++.
#[derive(Debug, Clone, Copy, PartialEq, Eq, Structural)]
pub enum ECppForm {
    Regular,
    Namespaced,
    EnumClass,
}

/// A serialized name entry.
#[derive(Debug)]
pub struct FNameEntrySerialized {
    pub name: String,
    pub pubg_name_map: HashMap<String, String>,
}

} // verus!
