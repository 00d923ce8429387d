//! Globally unique identifiers: four 32-bit words, with a dashed and a plain
//! hexadecimal text form.
use vstd::prelude::*;

use crate::reader::{avail, u32_at, FUsmapReader, ReaderError};

verus! {

#[derive(Debug, Clone, Copy, PartialEq, Eq, Hash, Structural)]
pub struct FGuid {
    pub a: u32,
    pub b: u32,
    pub c: u32,
    pub d: u32,
}

/// The GUID stored at `p` as four little-endian words.
pub open spec fn guid_at(d: Seq<u8>, p: int) -> FGuid {
    FGuid { a: u32_at(d, p), b: u32_at(d, p + 4), c: u32_at(d, p + 8), d: u32_at(d, p + 12) }
}

/// Upper-case hexadecimal digit of a value below 16.
pub open spec fn hex_digit(n: int) -> Seq<char> {
    if n == 0 {
        "0"@
    } else if n == 1 {
        "1"@
    } else if n == 2 {
        "2"@
    } else if n == 3 {
        "3"@
    } else if n == 4 {
        "4"@
    } else if n == 5 {
        "5"@
    } else if n == 6 {
        "6"@
    } else if n == 7 {
        "7"@
    } else if n == 8 {
        "8"@
    } else if n == 9 {
        "9"@
    } else if n == 10 {
        "A"@
    } else if n == 11 {
        "B"@
    } else if n == 12 {
        "C"@
    } else if n == 13 {
        "D"@
    } else if n == 14 {
        "E"@
    } else {
        "F"@
    }
}

pub(crate) fn hex_digit_str(n: u32) -> (r: &'static str)
    requires
        n < 16,
    ensures
        r@ == hex_digit(n as int),
{
    match n {
        0 => "0",
        1 => "1",
        2 => "2",
        3 => "3",
        4 => "4",
        5 => "5",
        6 => "6",
        7 => "7",
        8 => "8",
        9 => "9",
        10 => "A",
        11 => "B",
        12 => "C",
        13 => "D",
        14 => "E",
        _ => "F",
    }
}

/// `x` as exactly `w` upper-case hexadecimal digits (its low `4 * w` bits).
pub open spec fn hex_fixed(x: nat, w: nat) -> Seq<char>
    decreases w,
{
    if w == 0 {
        Seq::empty()
    } else {
        hex_fixed(x / 16, (w - 1) as nat) + hex_digit((x % 16) as int)
    }
}

fn hex_fixed_string(x: u32, w: u32) -> (r: String)
    ensures
        r@ == hex_fixed(x as nat, w as nat),
    decreases w,
{
    if w == 0 {
        String::new()
    } else {
        let mut s = hex_fixed_string(x / 16, w - 1);
        s.append(hex_digit_str(x % 16));
        s
    }
}

/// Value of a hexadecimal digit of either case.
pub open spec fn hex_value(c: char) -> Option<int> {
    let u = c as u32;
    if 0x30 <= u <= 0x39 {
        Some(u - 0x30)
    } else if 0x61 <= u <= 0x66 {
        Some(u - 0x61 + 10)
    } else if 0x41 <= u <= 0x46 {
        Some(u - 0x41 + 10)
    } else {
        None
    }
}

/// Value of a non-empty run of hexadecimal digits.
pub open spec fn hex_run(s: Seq<char>) -> Option<int>
    decreases s.len(),
{
    if s.len() == 0 {
        None
    } else if s.len() == 1 {
        hex_value(s[0])
    } else {
        match (hex_run(s.drop_last()), hex_value(s.last())) {
            (Some(h), Some(l)) => Some(h * 16 + l),
            _ => None,
        }
    }
}

/// A field in base 16 as integer parsing reads it: an optional `+`, then digits.
pub open spec fn radix16(s: Seq<char>) -> Option<int> {
    if s.len() > 1 && s[0] == '+' {
        hex_run(s.drop_first())
    } else {
        hex_run(s)
    }
}

pub open spec fn pow16(n: nat) -> int
    decreases n,
{
    if n == 0 {
        1
    } else {
        16 * pow16((n - 1) as nat)
    }
}

pub proof fn lemma_hex_run_bound(s: Seq<char>)
    ensures
        hex_run(s) matches Some(v) ==> 0 <= v < pow16(s.len()),
    decreases s.len(),
{
    reveal_with_fuel(pow16, 2);
    if s.len() > 1 {
        lemma_hex_run_bound(s.drop_last());
        let n = (s.len() - 1) as nat;
        if let (Some(h), Some(l)) = (hex_run(s.drop_last()), hex_value(s.last())) {
            let p = pow16(n);
            assert(h * 16 + l < 16 * p) by (nonlinear_arith)
                requires
                    0 <= h < p,
                    0 <= l < 16,
            ;
        }
    }
}

fn hex_digit_value(c: char) -> (r: Option<u32>)
    ensures
        match hex_value(c) {
            Some(v) => r == Some(v as u32),
            None => r is None,
        },
{
    let u = c as u32;
    if 0x30 <= u && u <= 0x39 {
        Some(u - 0x30)
    } else if 0x61 <= u && u <= 0x66 {
        Some(u - 0x61 + 10)
    } else if 0x41 <= u && u <= 0x46 {
        Some(u - 0x41 + 10)
    } else {
        None
    }
}

fn hex_run_value(s: &Vec<char>, from: usize, to: usize) -> (r: Option<u32>)
    requires
        from <= to <= s@.len(),
        to - from <= 8,
    ensures
        match hex_run(s@.subrange(from as int, to as int)) {
            Some(v) => r == Some(v as u32),
            None => r is None,
        },
    decreases to - from,
{
    let ghost seg = s@.subrange(from as int, to as int);
    if from == to {
        None
    } else if to - from == 1 {
        hex_digit_value(s[from])
    } else {
        assert(seg.drop_last() =~= s@.subrange(from as int, to - 1));
        let high = hex_run_value(s, from, to - 1);
        let low = hex_digit_value(s[to - 1]);
        match (high, low) {
            (Some(h), Some(l)) => {
                proof {
                    lemma_hex_run_bound(seg.drop_last());
                    reveal_with_fuel(pow16, 8);
                    assert(pow16(7) == 0x1000_0000);
                    lemma_pow16_mono(seg.drop_last().len(), 7);
                }
                Some(h * 16 + l)
            },
            _ => None,
        }
    }
}

pub proof fn lemma_pow16_mono(a: nat, b: nat)
    requires
        a <= b,
    ensures
        1 <= pow16(a) <= pow16(b),
    decreases b,
{
    if b > 0 {
        if a < b {
            lemma_pow16_mono(a, (b - 1) as nat);
        } else {
            lemma_pow16_mono((a - 1) as nat, (b - 1) as nat);
        }
    }
}

fn radix16_value(s: &Vec<char>, from: usize, to: usize) -> (r: Option<u32>)
    requires
        from <= to <= s@.len(),
        to - from <= 8,
    ensures
        match radix16(s@.subrange(from as int, to as int)) {
            Some(v) => r == Some(v as u32),
            None => r is None,
        },
{
    let ghost seg = s@.subrange(from as int, to as int);
    assert(to - from > 1 ==> seg[0] == s@[from as int]);
    if to - from > 1 && s[from] == '+' {
        assert(seg.drop_first() =~= s@.subrange(from + 1, to as int));
        hex_run_value(s, from + 1, to)
    } else {
        hex_run_value(s, from, to)
    }
}

/// The characters of `s` other than dashes, in order.
pub open spec fn dash_free(s: Seq<char>) -> Seq<char> {
    s.filter(|c: char| c != '-')
}

pub proof fn lemma_radix16_bound(s: Seq<char>)
    ensures
        radix16(s) matches Some(v) ==> 0 <= v < pow16(s.len()),
{
    if s.len() > 1 && s[0] == '+' {
        lemma_hex_run_bound(s.drop_first());
        lemma_pow16_mono(s.drop_first().len(), s.len());
    } else {
        lemma_hex_run_bound(s);
    }
}

pub open spec fn field(s: Seq<char>, from: int, to: int) -> Option<int> {
    radix16(s.subrange(from, to))
}

/// The GUID that 32 hexadecimal characters spell out, eight per word.
pub open spec fn guid_of_hex(s: Seq<char>) -> Option<FGuid> {
    if s.len() != 32 {
        None
    } else {
        match (field(s, 0, 8), field(s, 8, 16), field(s, 16, 24), field(s, 24, 32)) {
        (Some(a), Some(b), Some(c), Some(d)) => Some(
                FGuid { a: a as u32, b: b as u32, c: c as u32, d: d as u32 },
            ),
            _ => None,
        }
    }
}

/// The GUID of the dashed form: dashes are dropped, and the first 32 characters
/// left are read as a word, four half-words and a word.
pub open spec fn guid_of_dashed(s: Seq<char>) -> Option<FGuid> {
    let t = dash_free(s);
    if t.len() < 32 {
        None
    } else {
        match (
            field(t, 0, 8),
            field(t, 8, 12),
            field(t, 12, 16),
            field(t, 16, 20),
            field(t, 20, 24),
            field(t, 24, 32),
        ) {
            (Some(a), Some(b1), Some(b2), Some(c1), Some(c2), Some(d)) => Some(
                FGuid {
                    a: a as u32,
                    b: (b1 * 0x10000 + b2) as u32,
                    c: (c1 * 0x10000 + c2) as u32,
                    d: d as u32,
                },
            ),
            _ => None,
        }
    }
}

/// The plain text form: four words of eight upper-case digits.
pub open spec fn guid_hex_text(g: FGuid) -> Seq<char> {
    hex_fixed(g.a as nat, 8) + hex_fixed(g.b as nat, 8) + hex_fixed(g.c as nat, 8) + hex_fixed(
        g.d as nat,
        8,
    )
}

/// The dashed text form: 8-4-4-4-12 upper-case digits.
pub open spec fn guid_dashed_text(g: FGuid) -> Seq<char> {
    hex_fixed(g.a as nat, 8) + "-"@ + hex_fixed(g.b as nat / 0x10000, 4) + "-"@ + hex_fixed(
        g.b as nat % 0x10000,
        4,
    ) + "-"@ + hex_fixed(g.c as nat / 0x10000, 4) + "-"@ + hex_fixed(g.c as nat % 0x10000, 4)
        + hex_fixed(g.d as nat, 8)
}

fn chars_of(s: &str) -> (r: Vec<char>)
    ensures
        r@ == s@,
{
    let n = s.unicode_len();
    let mut out: Vec<char> = Vec::new();
    let mut i: usize = 0;
    while i < n
        invariant
            n == s@.len(),
            i <= n,
            out@ == s@.subrange(0, i as int),
        decreases n - i,
    {
        out.push(s.get_char(i));
        i = i + 1;
        assert(out@ =~= s@.subrange(0, i as int));
    }
    assert(out@ =~= s@);
    out
}

impl FGuid {
    pub fn new(a: u32, b: u32, c: u32, d: u32) -> (r: Self)
        ensures
            r == (FGuid { a, b, c, d }),
    {
        FGuid { a, b, c, d }
    }

    /// Parses the plain form of 32 hexadecimal digits (in bytes).
    pub fn from_hex(hex: &str) -> (r: Result<Self, &'static str>)
        ensures
            hex.len() != 32 ==> (r matches Err(m) && m@ == "Hex string must be 32 characters long"@),
            hex.len() == 32 ==> match guid_of_hex(hex@) {
                Some(g) => r == Ok::<FGuid, &'static str>(g),
                None => r matches Err(m) && m@ == "Invalid hex format"@,
            },
    {
        if hex.len() != 32 {
            return Err("Hex string must be 32 characters long");
        }
        let s = chars_of(hex);
        if s.len() != 32 {
            return Err("Invalid hex format");
        }
        let a = radix16_value(&s, 0, 8);
        let b = radix16_value(&s, 8, 16);
        let c = radix16_value(&s, 16, 24);
        let d = radix16_value(&s, 24, 32);
        match (a, b, c, d) {
            (Some(a), Some(b), Some(c), Some(d)) => Ok(FGuid::new(a, b, c, d)),
            _ => Err("Invalid hex format"),
        }
    }

    /// Parses the dashed form; dashes may stand anywhere, and what follows the
    /// first 32 other characters is ignored.
    pub fn from_str(s: &str) -> (r: Result<Self, &'static str>)
        ensures
            match guid_of_dashed(s@) {
                Some(g) => r == Ok::<FGuid, &'static str>(g),
                None => r matches Err(m) && m@ == "Invalid hex format"@,
            },
    {
        let all = chars_of(s);
        let mut clean: Vec<char> = Vec::new();
        let mut i: usize = 0;
        proof {
            reveal(Seq::filter);
        }
        assert(dash_free(all@.subrange(0, 0)) =~= Seq::<char>::empty());
        while i < all.len()
            invariant
                i <= all@.len(),
                clean@ == dash_free(all@.subrange(0, i as int)),
            decreases all@.len() - i,
        {
            proof {
                reveal(Seq::filter);
                assert(all@.subrange(0, i + 1).drop_last() =~= all@.subrange(0, i as int));
            }
            if all[i] != '-' {
                clean.push(all[i]);
            }
            i = i + 1;
        }
        assert(all@.subrange(0, i as int) =~= s@);
        if clean.len() < 32 {
            return Err("Invalid hex format");
        }
        let a = radix16_value(&clean, 0, 8);
        let b1 = radix16_value(&clean, 8, 12);
        let b2 = radix16_value(&clean, 12, 16);
        let c1 = radix16_value(&clean, 16, 20);
        let c2 = radix16_value(&clean, 20, 24);
        let d = radix16_value(&clean, 24, 32);
        match (a, b1, b2, c1, c2, d) {
            (Some(a), Some(b1), Some(b2), Some(c1), Some(c2), Some(d)) => {
                proof {
                    reveal_with_fuel(pow16, 5);
                    lemma_radix16_bound(clean@.subrange(8, 12));
                    lemma_radix16_bound(clean@.subrange(12, 16));
                    lemma_radix16_bound(clean@.subrange(16, 20));
                    lemma_radix16_bound(clean@.subrange(20, 24));
                }
                Ok(FGuid { a, b: b1 * 0x10000 + b2, c: c1 * 0x10000 + c2, d })
            },
            _ => Err("Invalid hex format"),
        }
    }

    pub fn from_reader(reader: &mut FUsmapReader) -> (r: Result<Self, ReaderError>)
        ensures
            final(reader).same_source(old(reader)),
            avail(old(reader).data@, old(reader).at(), 16) ==> r == Ok::<FGuid, ReaderError>(
                guid_at(old(reader).data@, old(reader).at()),
            ) && final(reader).pos == old(reader).pos + 16,
            !avail(old(reader).data@, old(reader).at(), 16) ==> r == Err::<FGuid, ReaderError>(
                ReaderError::UnexpectedEof,
            ),
    {
        if !reader.has_remaining(16) {
            return Err(ReaderError::UnexpectedEof);
        }
        let a = reader.read_u32()?;
        let b = reader.read_u32()?;
        let c = reader.read_u32()?;
        let d = reader.read_u32()?;
        Ok(FGuid { a, b, c, d })
    }

    /// The dashed text form.
    pub fn to_str(&self) -> (r: String)
        ensures
            r@ == guid_dashed_text(*self),
    {
        let mut s = hex_fixed_string(self.a, 8);
        s.append("-");
        s.append(hex_fixed_string(self.b / 0x10000, 4).as_str());
        s.append("-");
        s.append(hex_fixed_string(self.b % 0x10000, 4).as_str());
        s.append("-");
        s.append(hex_fixed_string(self.c / 0x10000, 4).as_str());
        s.append("-");
        s.append(hex_fixed_string(self.c % 0x10000, 4).as_str());
        s.append(hex_fixed_string(self.d, 8).as_str());
        s
    }

    /// The plain text form.
    pub fn to_hex(&self) -> (r: String)
        ensures
            r@ == guid_hex_text(*self),
    {
        let mut s = hex_fixed_string(self.a, 8);
        s.append(hex_fixed_string(self.b, 8).as_str());
        s.append(hex_fixed_string(self.c, 8).as_str());
        s.append(hex_fixed_string(self.d, 8).as_str());
        s
    }
}

} // verus!
