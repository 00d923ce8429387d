//! Decoder for type-mapping ("usmap") schema files: a versioned, compressed
//! container whose payload lists names, enums and structs with their property
//! types. Every function is specified against a spec-level reading of the bytes
//! and verified.
use vstd::prelude::*;

pub mod aes;
pub mod compression;
pub mod files;
pub mod guid;
pub mod io_store;
pub mod mappings;
pub mod objects;
pub mod parser;
pub mod properties;
pub mod reader;
pub mod versions;

verus! {

} // verus!
