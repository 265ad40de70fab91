//! Big-endian integers of two, three and four bytes.

use vstd::prelude::*;
use crate::u24::{lemma_u24_from_bytes, u24};

verus! {

/// The 16-bit number whose two bytes stand at offset `at` of `s`, most
/// significant byte first.
pub open spec fn spec_u16_at(s: Seq<u8>, at: int) -> int
    recommends
        0 <= at && at + 2 <= s.len(),
{
    s[at] as int * 0x100 + s[at + 1] as int
}

/// The 24-bit number whose three bytes stand at offset `at` of `s`, most
/// significant byte first.
pub open spec fn spec_u24_at(s: Seq<u8>, at: int) -> int
    recommends
        0 <= at && at + 3 <= s.len(),
{
    s[at] as int * 0x1_0000 + s[at + 1] as int * 0x100 + s[at + 2] as int
}

/// The 32-bit number whose four bytes stand at offset `at` of `s`, most
/// significant byte first.
pub open spec fn spec_u32_at(s: Seq<u8>, at: int) -> int
    recommends
        0 <= at && at + 4 <= s.len(),
{
    s[at] as int * 0x100_0000 + s[at + 1] as int * 0x1_0000 + s[at + 2] as int * 0x100 + s[at
        + 3] as int
}

/// The number that two bytes spell, most significant byte first.
pub open spec fn spec_be_u16(s: Seq<u8>) -> int
    recommends
        s.len() == 2,
{
    spec_u16_at(s, 0)
}

/// The number that three bytes spell, most significant byte first.
pub open spec fn spec_be_u24(s: Seq<u8>) -> int
    recommends
        s.len() == 3,
{
    spec_u24_at(s, 0)
}

/// The number that four bytes spell, most significant byte first.
pub open spec fn spec_be_u32(s: Seq<u8>) -> int
    recommends
        s.len() == 4,
{
    spec_u32_at(s, 0)
}

/// Decodes a 16-bit unsigned integer from exactly two bytes.
pub fn decode_u16(bytes: &[u8]) -> (r: Option<u16>)
    ensures
        r.is_some() <==> bytes@.len() == 2,
        r matches Some(v) ==> v as int == spec_be_u16(bytes@),
{
    if bytes.len() != 2 {
        return None;
    }
    let hi: u16 = bytes[0] as u16;
    let lo: u16 = bytes[1] as u16;
    Some(hi * 0x100 + lo)
}

/// Decodes a 24-bit unsigned integer from exactly three bytes.
pub fn decode_u24(bytes: &[u8]) -> (r: Option<u24>)
    ensures
        r.is_some() <==> bytes@.len() == 3,
        r matches Some(v) ==> v@ == spec_be_u24(bytes@) && v.bytes() == bytes@,
{
    if bytes.len() != 3 {
        return None;
    }
    let value: [u8; 3] = [bytes[0], bytes[1], bytes[2]];
    proof {
        lemma_u24_from_bytes(value);
    }
    Some(u24::from(value))
}

/// Decodes a 32-bit unsigned integer from exactly four bytes.
pub fn decode_u32(bytes: &[u8]) -> (r: Option<u32>)
    ensures
        r.is_some() <==> bytes@.len() == 4,
        r matches Some(v) ==> v as int == spec_be_u32(bytes@),
{
    if bytes.len() != 4 {
        return None;
    }
    let b0: u32 = bytes[0] as u32;
    let b1: u32 = bytes[1] as u32;
    let b2: u32 = bytes[2] as u32;
    let b3: u32 = bytes[3] as u32;
    Some(b0 * 0x100_0000 + b1 * 0x1_0000 + b2 * 0x100 + b3)
}

/// Decodes the 16-bit unsigned integer at offset `at` of `bytes`.
pub fn u16_at(bytes: &[u8], at: usize) -> (v: u16)
    requires
        at + 2 <= bytes@.len(),
    ensures
        v as int == spec_u16_at(bytes@, at as int),
{
    let _len: usize = bytes.len();
    match decode_u16(&bytes[at..at + 2]) {
        Some(v) => v,
        None => 0,
    }
}

/// Decodes the 24-bit unsigned integer at offset `at` of `bytes`.
pub fn u24_at(bytes: &[u8], at: usize) -> (v: u24)
    requires
        at + 3 <= bytes@.len(),
    ensures
        v@ == spec_u24_at(bytes@, at as int),
{
    let _len: usize = bytes.len();
    match decode_u24(&bytes[at..at + 3]) {
        Some(v) => v,
        None => u24::from_u32(0),
    }
}

/// Decodes the 32-bit unsigned integer at offset `at` of `bytes`.
pub fn u32_at(bytes: &[u8], at: usize) -> (v: u32)
    requires
        at + 4 <= bytes@.len(),
    ensures
        v as int == spec_u32_at(bytes@, at as int),
{
    let _len: usize = bytes.len();
    match decode_u32(&bytes[at..at + 4]) {
        Some(v) => v,
        None => 0,
    }
}

} // verus!
