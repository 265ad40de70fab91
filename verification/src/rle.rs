//! The run-length scheme that stores an object's bitmap.
//!
//! A stream is a sequence of units. A non-zero byte is a unit of its own and
//! stands for one pixel of that colour. A zero byte opens an escape: the next
//! byte is a control byte. A zero control byte ends a line and stands for no
//! pixel. Any other control byte describes a run: bit 7 says that a colour
//! byte follows (else the colour is 0), bit 6 says that the length is 14 bits
//! wide and continues in one more byte (else it is the low 6 bits alone).

use vstd::prelude::*;
use byteorder::{BigEndian, ByteOrder};
use crate::error::Error;

verus! {

/// Bit 7 of a control byte: the run names its colour.
pub open spec fn spec_is_color(byte: u8) -> bool {
    byte & 0x80 != 0
}

/// Bit 6 of a control byte: the run length takes a second byte.
pub open spec fn spec_is_long(byte: u8) -> bool {
    byte & 0x40 != 0
}

/// The number of bytes that the unit at `i` occupies, as far as the bytes
/// present tell: an escape cut off after its zero byte counts as two.
pub open spec fn unit_size(s: Seq<u8>, i: int) -> int {
    if s[i] != 0 {
        1
    } else if i + 1 >= s.len() || s[i + 1] == 0 {
        2
    } else {
        2 + (if spec_is_long(s[i + 1]) { 1int } else { 0 })
          + (if spec_is_color(s[i + 1]) { 1int } else { 0 })
    }
}

/// A unit begins at `i` and all of its bytes are present.
pub open spec fn unit_complete(s: Seq<u8>, i: int) -> bool {
    0 <= i < s.len() && i + unit_size(s, i) <= s.len()
}

/// The number of pixels that the complete unit at `i` stands for.
pub open spec fn unit_length(s: Seq<u8>, i: int) -> int {
    if s[i] != 0 {
        1
    } else if s[i + 1] == 0 {
        0
    } else if spec_is_long(s[i + 1]) {
        (s[i + 1] & 0x3f) as int * 0x100 + s[i + 2] as int
    } else {
        (s[i + 1] & 0x3f) as int
    }
}

/// The colour of the pixels that the complete unit at `i` stands for.
pub open spec fn unit_color(s: Seq<u8>, i: int) -> u8 {
    if s[i] != 0 {
        s[i]
    } else if s[i + 1] != 0 && spec_is_color(s[i + 1]) {
        if spec_is_long(s[i + 1]) { s[i + 3] } else { s[i + 2] }
    } else {
        0
    }
}

/// The pixels of the complete unit at `i`.
pub open spec fn unit_pixels(s: Seq<u8>, i: int) -> Seq<u8> {
    Seq::new(unit_length(s, i) as nat, |k: int| unit_color(s, i))
}

/// Where a scan that starts at `i` stops: at the end of the stream, or at the
/// first unit that the stream cuts short.
pub open spec fn scan_end(s: Seq<u8>, i: int) -> int
    decreases s.len() - i,
{
    if unit_complete(s, i) {
        scan_end(s, i + unit_size(s, i))
    } else {
        i
    }
}

/// The pixels of all complete units from `i` up to where the scan stops.
pub open spec fn pixels_from(s: Seq<u8>, i: int) -> Seq<u8>
    decreases s.len() - i,
{
    if unit_complete(s, i) {
        unit_pixels(s, i) + pixels_from(s, i + unit_size(s, i))
    } else {
        Seq::empty()
    }
}

/// Every unit of the stream is complete.
pub open spec fn well_formed(s: Seq<u8>) -> bool {
    scan_end(s, 0) == s.len()
}

/// The pixels that a well-formed stream stands for.
pub open spec fn spec_decode_rle(s: Seq<u8>) -> Seq<u8> {
    pixels_from(s, 0)
}

/// From any offset on, a stream without a zero byte stands for itself.
pub proof fn lemma_literals_from(s: Seq<u8>, i: int)
    requires
        0 <= i <= s.len(),
        forall|k: int| 0 <= k < s.len() ==> s[k] != 0,
    ensures
        scan_end(s, i) == s.len(),
        pixels_from(s, i) == s.skip(i),
    decreases s.len() - i,
{
    if i < s.len() {
        lemma_literals_from(s, i + 1);
    }
}

/// A stream without a zero byte is well formed and decodes to itself: each
/// byte is one pixel of its own colour.
pub proof fn lemma_literals_decode_to_themselves(s: Seq<u8>)
    requires
        forall|k: int| 0 <= k < s.len() ==> s[k] != 0,
    ensures
        well_formed(s),
        spec_decode_rle(s) == s,
{
    lemma_literals_from(s, 0);
}

/// A stream that is one complete unit decodes to the pixels of that unit.
pub proof fn lemma_single_unit(s: Seq<u8>)
    requires
        unit_complete(s, 0),
        unit_size(s, 0) == s.len(),
    ensures
        well_formed(s),
        spec_decode_rle(s) == unit_pixels(s, 0),
{
    assert(scan_end(s, s.len() as int) == s.len());
    assert(pixels_from(s, s.len() as int) == Seq::<u8>::empty());
}

/// The end-of-line marker is two bytes and stands for no pixel.
pub proof fn lemma_end_of_line()
    ensures
        unit_size(seq![0u8, 0u8], 0) == 2,
        well_formed(seq![0u8, 0u8]),
        spec_decode_rle(seq![0u8, 0u8]) == Seq::<u8>::empty(),
{
    let s = seq![0u8, 0u8];
    lemma_single_unit(s);
}

/// A short run that names its colour is three bytes: the escape, a control
/// byte with bit 7 set and bit 6 clear, and the colour. It stands for as
/// many pixels of that colour as the low six bits of the control byte say.
pub proof fn lemma_short_run_with_color(control: u8, color: u8)
    requires
        spec_is_color(control),
        !spec_is_long(control),
    ensures
        well_formed(seq![0u8, control, color]),
        spec_decode_rle(seq![0u8, control, color]) == Seq::new(
            (control & 0x3f) as nat,
            |k: int| color,
        ),
{
    let s = seq![0u8, control, color];
    assert(control != 0) by (bit_vector)
        requires
            control & 0x80 != 0,
    ;
    lemma_single_unit(s);
}

/// A long run of the default colour is three bytes: the escape, a control
/// byte with bit 7 clear and bit 6 set, and the low byte of the length. It
/// stands for pixels of colour 0, as many as the low six bits of the control
/// byte followed by the third byte spell.
pub proof fn lemma_long_run_default_color(control: u8, low: u8)
    requires
        !spec_is_color(control),
        spec_is_long(control),
    ensures
        well_formed(seq![0u8, control, low]),
        spec_decode_rle(seq![0u8, control, low]) == Seq::new(
            ((control & 0x3f) as int * 0x100 + low as int) as nat,
            |k: int| 0u8,
        ),
{
    let s = seq![0u8, control, low];
    assert(control != 0) by (bit_vector)
        requires
            control & 0x40 != 0,
    ;
    lemma_single_unit(s);
}

/// One decoded unit.
#[derive(Clone, Copy, Debug, PartialEq, Eq, Structural)]
pub struct RleUnit {
    /// The number of pixels.
    pub length: u16,
    /// Their colour index.
    pub color: u8,
    /// The number of bytes that the unit occupies in the stream.
    pub consumed: usize,
}

/// Whether a control byte says that a colour byte follows.
pub fn is_color(byte: u8) -> (r: bool)
    ensures
        r == spec_is_color(byte),
{
    assert((byte >> 7 == 1) == (byte & 0x80 != 0)) by (bit_vector);
    byte >> 7 == 1
}

/// Whether a control byte says that the run length takes a second byte.
pub fn is_long(byte: u8) -> (r: bool)
    ensures
        r == spec_is_long(byte),
{
    assert(((byte >> 6) & 0b1 == 1) == (byte & 0x40 != 0)) by (bit_vector);
    (byte >> 6) & 0b1 == 1
}

/// `byteorder::BigEndian::read_u16` on the two bytes `[hi, lo]`: the 16-bit
/// number with `hi` as its upper and `lo` as its lower byte.
#[verifier::external_body]
fn big_endian_pair(hi: u8, lo: u8) -> (r: u16)
    ensures
        r as int == hi as int * 0x100 + lo as int,
{
    let buf = [hi, lo];
    BigEndian::read_u16(&buf)
}

/// Decodes the unit that begins at `pos`. Fails when the stream holds no
/// byte at `pos` or ends inside the unit.
pub fn read_unit(data: &[u8], pos: usize) -> (r: Result<RleUnit, Error>)
    ensures
        match r {
            Ok(u) => {
                &&& unit_complete(data@, pos as int)
                &&& u.length as int == unit_length(data@, pos as int)
                &&& u.color == unit_color(data@, pos as int)
                &&& u.consumed as int == unit_size(data@, pos as int)
            },
            Err(e) => {
                &&& !unit_complete(data@, pos as int)
                &&& e == (Error::Truncated { offset: pos })
            },
        },
{
    let n: usize = data.len();
    if pos >= n {
        return Err(Error::Truncated { offset: pos });
    }
    let first: u8 = data[pos];
    if first != 0 {
        return Ok(RleUnit { length: 1, color: first, consumed: 1 });
    }
    if n - pos < 2 {
        return Err(Error::Truncated { offset: pos });
    }
    let info: u8 = data[pos + 1];
    if info == 0 {
        return Ok(RleUnit { length: 0, color: 0, consumed: 2 });
    }
    let explicit_color: bool = is_color(info);
    let big_len: bool = is_long(info);
    let consumed: usize = 2 + (if big_len { 1 } else { 0 }) + (if explicit_color { 1 } else { 0 });
    if n - pos < consumed {
        return Err(Error::Truncated { offset: pos });
    }
    let len_u8: u8 = info & 0b0011_1111;
    assert(info & 0b0011_1111 < 0x40) by (bit_vector);
    let length: u16 = if big_len {
        big_endian_pair(len_u8, data[pos + 2])
    } else {
        len_u8 as u16
    };
    let color: u8 = if explicit_color {
        data[pos + consumed - 1]
    } else {
        0
    };
    Ok(RleUnit { length, color, consumed })
}

/// Decodes a whole stream. Fails at the first unit that the stream cuts
/// short, with that unit's offset.
pub fn try_decode_rle(data: &[u8]) -> (r: Result<Vec<u8>, Error>)
    ensures
        match r {
            Ok(pixels) => well_formed(data@) && pixels@ == spec_decode_rle(data@),
            Err(e) => {
                &&& !well_formed(data@)
                &&& e == (Error::Truncated { offset: scan_end(data@, 0) as usize })
                &&& 0 <= scan_end(data@, 0) < data@.len()
            },
        },
{
    let n: usize = data.len();
    let mut output: Vec<u8> = Vec::with_capacity(n);
    let mut pos: usize = 0;
    while pos < n
        invariant
            n == data@.len(),
            0 <= pos <= n,
            scan_end(data@, pos as int) == scan_end(data@, 0),
            output@ + pixels_from(data@, pos as int) == pixels_from(data@, 0),
        decreases n - pos,
    {
        let unit = match read_unit(data, pos) {
            Ok(unit) => unit,
            Err(e) => {
                return Err(e);
            },
        };
        let ghost before = output@;
        let mut emitted: u16 = 0;
        while emitted < unit.length
            invariant
                emitted <= unit.length,
                output@ == before + Seq::new(emitted as nat, |k: int| unit.color),
            decreases unit.length - emitted,
        {
            output.push(unit.color);
            emitted = emitted + 1;
        }
        pos = pos + unit.consumed;
    }
    Ok(output)
}

/// Decodes a whole stream of complete units into its pixels.
pub fn decode_rle(data: &[u8]) -> (pixels: Vec<u8>)
    requires
        well_formed(data@),
    ensures
        pixels@ == spec_decode_rle(data@),
{
    match try_decode_rle(data) {
        Ok(pixels) => pixels,
        Err(_) => Vec::new(),
    }
}

} // verus!
