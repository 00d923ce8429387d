//! AES keys given as hexadecimal text or as raw bytes.
use vstd::prelude::*;
use vstd::string::StringSliceAdditionalSpecFns;
use vstd::utf8::{decode_utf8, valid_utf8};

use crate::reader::string_from_utf8;

verus! {

/// Declares `hex::FromHexError`, which is handed back unchanged.
#[verifier::external_type_specification]
#[verifier::external_body]
pub struct ExFromHexError(hex::FromHexError);

/// Value of a hexadecimal digit byte of either case.
pub open spec fn nibble(b: u8) -> Option<int> {
    if 0x30 <= b <= 0x39 {
        Some(b - 0x30)
    } else if 0x61 <= b <= 0x66 {
        Some(b - 0x61 + 10)
    } else if 0x41 <= b <= 0x46 {
        Some(b - 0x41 + 10)
    } else {
        None
    }
}

/// Whether the bytes are an even number of hexadecimal digits.
pub open spec fn is_hex_text(b: Seq<u8>) -> bool {
    b.len() % 2 == 0 && forall|i: int| 0 <= i < b.len() ==> (#[trigger] nibble(b[i])) is Some
}

/// The bytes that pairs of hexadecimal digits spell, high digit first.
pub open spec fn hex_bytes(b: Seq<u8>) -> Seq<u8> {
    Seq::new(
        b.len() / 2,
        |i: int| (nibble(b[2 * i])->Some_0 * 16 + nibble(b[2 * i + 1])->Some_0) as u8,
    )
}

/// Relies on `hex::decode`: it succeeds exactly on an even number of hexadecimal
/// digits (either case) and then yields one byte per pair, high digit first.
#[verifier::external_body]
fn hex_decode(text: &[u8]) -> (r: Result<Vec<u8>, hex::FromHexError>)
    ensures
        r is Ok == is_hex_text(text@),
        r matches Ok(v) ==> v@ == hex_bytes(text@),
{
    hex::decode(text)
}

/// An AES key, with the text it was given as (always with a `0x` prefix).
pub struct FAesKey {
    pub key: Vec<u8>,
    pub key_string: String,
}

/// Whether the text opens with `0x`.
pub open spec fn has_0x(s: Seq<char>) -> bool {
    s.len() >= 2 && s[0] == '0' && s[1] == 'x'
}

/// The key text with a `0x` prefix, added when missing.
pub open spec fn prefixed_key(s: Seq<char>) -> Seq<char> {
    if has_0x(s) {
        s
    } else {
        "0x"@ + s
    }
}

/// The digits of the key text, without the `0x` prefix.
pub open spec fn key_digits(s: Seq<char>) -> Seq<char> {
    if has_0x(s) {
        s.subrange(2, s.len() as int)
    } else {
        s
    }
}

impl FAesKey {
    /// Reads a key from hexadecimal text, with or without a `0x` prefix.
    pub fn from_str(key: &str) -> (r: Result<Self, hex::FromHexError>)
        ensures
            r is Ok == is_hex_text(vstd::utf8::encode_utf8(key_digits(key@))),
            r matches Ok(k) ==> k.key@ == hex_bytes(vstd::utf8::encode_utf8(key_digits(key@)))
                && k.key_string@ == prefixed_key(key@),
    {
        let n = key.unicode_len();
        let prefixed = n >= 2 && key.get_char(0) == '0' && key.get_char(1) == 'x';
        let digits: &str = if prefixed {
            key.substring_char(2, n)
        } else {
            key
        };
        let new_key = if prefixed {
            key.to_owned()
        } else {
            let mut s = String::from_str("0x");
            s.append(key);
            s
        };
        proof {
            reveal_strlit("0x");
        }
        let key_bytes = hex_decode(digits.as_bytes())?;
        Ok(FAesKey { key: key_bytes, key_string: new_key })
    }

    /// Takes a key whose bytes are UTF-8 text; the text, prefixed with `0x`,
    /// becomes the key string.
    pub fn from_bytes(key: Vec<u8>) -> (r: Result<Self, std::string::FromUtf8Error>)
        ensures
            r is Ok == valid_utf8(key@),
            r matches Ok(k) ==> k.key@ == key@ && k.key_string@ == "0x"@ + decode_utf8(key@),
    {
        let copy = key.clone();
        let text = string_from_utf8(copy)?;
        let mut key_string = String::from_str("0x");
        key_string.append(text.as_str());
        Ok(FAesKey { key, key_string })
    }
}

} // verus!
