//! A 24-bit unsigned integer held as three bytes, most significant first.

use vstd::prelude::*;
use vstd::std_specs::convert::FromSpecImpl;
use crate::codec::spec_be_u24;

verus! {

/// Three bytes that spell a number below 2^24, most significant byte first.
#[derive(Copy, Clone, Debug)]
#[allow(non_camel_case_types)]
pub struct u24([u8; 3]);

impl View for u24 {
    type V = int;

    /// The number that the three bytes spell.
    closed spec fn view(&self) -> int {
        spec_be_u24(self.0@)
    }
}

impl u24 {
    /// The three bytes, most significant first.
    pub closed spec fn bytes(self) -> Seq<u8> {
        self.0@
    }

    /// Widens to 32 bits; the top byte of the result is zero.
    pub fn to_u32(self) -> (r: u32)
        ensures
            r as int == self@,
            r < 0x100_0000,
    {
        let a: u32 = self.0[0] as u32;
        let b: u32 = self.0[1] as u32;
        let c: u32 = self.0[2] as u32;
        a * 0x1_0000 + b * 0x100 + c
    }

    /// Keeps the low 24 bits of `n`.
    pub fn from_u32(n: u32) -> (r: Self)
        ensures
            r@ == n as int % 0x100_0000,
            n < 0x100_0000 ==> r@ == n as int,
    {
        let a: u8 = ((n / 0x1_0000) % 0x100) as u8;
        let b: u8 = ((n / 0x100) % 0x100) as u8;
        let c: u8 = (n % 0x100) as u8;
        u24([a, b, c])
    }
}

impl From<[u8; 3]> for u24 {
    /// Takes three bytes as they stand in the stream.
    fn from(value: [u8; 3]) -> (r: Self) {
        u24(value)
    }
}

impl FromSpecImpl<[u8; 3]> for u24 {
    open spec fn obeys_from_spec() -> bool {
        true
    }

    open spec fn from_spec(value: [u8; 3]) -> Self {
        spec_from_bytes(value)
    }
}

/// The 24-bit value whose bytes are `value`, most significant first.
pub closed spec fn spec_from_bytes(value: [u8; 3]) -> u24 {
    u24(value)
}

/// The value made of three bytes spells them most significant first.
pub proof fn lemma_u24_from_bytes(value: [u8; 3])
    ensures
        spec_from_bytes(value).bytes() == value@,
        spec_from_bytes(value)@ == spec_be_u24(value@),
{
}

/// A 24-bit value never has more than 24 significant bits.
pub proof fn lemma_u24_range(x: u24)
    ensures
        0 <= x@ < 0x100_0000,
{
}

} // verus!
