//! The palette definition segment: the colours that palette indices name.

use vstd::prelude::*;
use crate::error::{Error, ErrorKind};
use crate::reader::Reader;
use crate::table::Keyed;

verus! {

/// The number of bytes of a palette definition before its entries.
pub const PDS_LEN: usize = 2;

/// The number of bytes of one palette entry.
pub const PALETTE_ENTRY_LEN: usize = 5;

/// One colour of a palette.
#[derive(Clone, Copy, Debug, PartialEq, Eq, Structural)]
pub struct PaletteEntry {
    /// The index that bitmaps name the colour by.
    pub palette_entry_id: u8,
    /// Luminance (Y).
    pub luminance: u8,
    /// Colour difference red (Cr).
    pub color_difference_red: u8,
    /// Colour difference blue (Cb).
    pub color_difference_blue: u8,
    /// Transparency (alpha).
    pub transparency: u8,
}

/// A palette definition segment.
#[derive(Clone, Debug)]
pub struct PaletteDefinitionSegment {
    /// The id under which compositions name the palette.
    pub palette_id: u8,
    /// The version of the palette within its epoch.
    pub palette_version_number: u8,
    /// The colours, in the order of the stream.
    pub palette_entries: Vec<PaletteEntry>,
}

/// A palette definition as a mathematical value.
pub struct PaletteView {
    pub palette_id: u8,
    pub palette_version_number: u8,
    pub palette_entries: Seq<PaletteEntry>,
}

impl View for PaletteDefinitionSegment {
    type V = PaletteView;

    open spec fn view(&self) -> PaletteView {
        PaletteView {
            palette_id: self.palette_id,
            palette_version_number: self.palette_version_number,
            palette_entries: self.palette_entries@,
        }
    }
}

impl Keyed for PaletteDefinitionSegment {
    open spec fn id_of(v: PaletteView) -> int {
        v.palette_id as int
    }

    fn id(&self) -> (id: u16) {
        self.palette_id as u16
    }
}

/// The palette entry whose five bytes stand at offset `at` of `s`.
pub open spec fn spec_palette_entry(s: Seq<u8>, at: int) -> PaletteEntry
    recommends
        0 <= at && at + PALETTE_ENTRY_LEN <= s.len(),
{
    PaletteEntry {
        palette_entry_id: s[at],
        luminance: s[at + 1],
        color_difference_red: s[at + 2],
        color_difference_blue: s[at + 3],
        transparency: s[at + 4],
    }
}

/// The palette definition that the payload `s` spells: two bytes, then
/// entries of five bytes each up to the end of the payload. A payload that
/// does not end with a whole entry is refused.
pub open spec fn spec_pds(s: Seq<u8>) -> Result<PaletteView, ErrorKind> {
    if s.len() < PDS_LEN {
        Err(ErrorKind::Truncated)
    } else if (s.len() - PDS_LEN) % (PALETTE_ENTRY_LEN as int) != 0 {
        Err(ErrorKind::ArithmeticInconsistency)
    } else {
        Ok(
            PaletteView {
                palette_id: s[0],
                palette_version_number: s[1],
                palette_entries: Seq::new(
                    ((s.len() - PDS_LEN) / (PALETTE_ENTRY_LEN as int)) as nat,
                    |i: int| spec_palette_entry(s, PDS_LEN + PALETTE_ENTRY_LEN * i),
                ),
            },
        )
    }
}

/// A payload of two bytes and `k` whole entries decodes into `k` entries.
/// One with `r` bytes more, `r` between one and four, is refused as
/// inconsistent.
pub proof fn lemma_palette_entry_count(s: Seq<u8>, k: nat, r: nat)
    requires
        s.len() == PDS_LEN + PALETTE_ENTRY_LEN * k + r,
        r < PALETTE_ENTRY_LEN,
    ensures
        r == 0 ==> spec_pds(s) is Ok && spec_pds(s)->Ok_0.palette_entries.len() == k,
        r > 0 ==> spec_pds(s) == Err::<PaletteView, _>(ErrorKind::ArithmeticInconsistency),
{
    assert((5 * k + r) % 5 == r && (5 * k + r) / 5 == k) by (nonlinear_arith)
        requires
            r < 5,
    ;
}

/// Decodes the payload of a palette definition segment.
pub fn parse_pds(payload: &[u8]) -> (r: Result<PaletteDefinitionSegment, ErrorKind>)
    ensures
        match r {
            Ok(pds) => spec_pds(payload@) == Ok::<_, ErrorKind>(pds@),
            Err(kind) => spec_pds(payload@) == Err::<PaletteView, _>(kind),
        },
{
    let segments_size: usize = payload.len();
    if segments_size < PDS_LEN {
        return Err(ErrorKind::Truncated);
    }
    let palette_id: u8 = payload[0];
    let palette_version_number: u8 = payload[1];
    let nb_palette_entry: usize = (segments_size - PDS_LEN) / PALETTE_ENTRY_LEN;
    if nb_palette_entry * PALETTE_ENTRY_LEN + PDS_LEN != segments_size {
        return Err(ErrorKind::ArithmeticInconsistency);
    }
    let mut palette_entries: Vec<PaletteEntry> = Vec::with_capacity(nb_palette_entry);
    let mut idx: usize = 0;
    while idx < nb_palette_entry
        invariant
            idx <= nb_palette_entry,
            segments_size == payload@.len(),
            nb_palette_entry * 5 + 2 == segments_size,
            palette_entries@.len() == idx,
            forall|i: int|
                0 <= i < idx ==> palette_entries@[i] == spec_palette_entry(
                    payload@,
                    PDS_LEN + PALETTE_ENTRY_LEN * i,
                ),
        decreases nb_palette_entry - idx,
    {
        let offset: usize = PDS_LEN + idx * PALETTE_ENTRY_LEN;
        palette_entries.push(
            PaletteEntry {
                palette_entry_id: payload[offset],
                luminance: payload[offset + 1],
                color_difference_red: payload[offset + 2],
                color_difference_blue: payload[offset + 3],
                transparency: payload[offset + 4],
            },
        );
        idx = idx + 1;
    }
    let pds = PaletteDefinitionSegment { palette_id, palette_version_number, palette_entries };
    proof {
        assert(pds@.palette_entries =~= spec_pds(payload@)->Ok_0.palette_entries);
    }
    Ok(pds)
}

/// Reads a palette definition segment's payload of `segments_size` bytes.
///
/// With fewer bytes left the cursor stays and the failure is `Truncated`.
/// Otherwise the cursor moves past the whole payload, whether its content
/// decodes or not, and a failure carries that position.
pub fn read_pds(reader: &mut Reader, segments_size: usize) -> (r: Result<
    PaletteDefinitionSegment,
    Error,
>)
    ensures
        final(reader).bytes() == old(reader).bytes(),
        match r {
            Ok(pds) => {
                &&& segments_size <= old(reader).rest().len()
                &&& spec_pds(old(reader).rest().take(segments_size as int)) == Ok::<_, ErrorKind>(
                    pds@,
                )
                &&& final(reader).position() == old(reader).position() + segments_size
            },
            Err(e) => {
                &&& e.offset() == final(reader).position()
                &&& if segments_size > old(reader).rest().len() {
                    e.kind() == ErrorKind::Truncated && final(reader).position() == old(
                        reader,
                    ).position()
                } else {
                    &&& spec_pds(old(reader).rest().take(segments_size as int)) == Err::<
                        PaletteView,
                        _,
                    >(e.kind())
                    &&& final(reader).position() == old(reader).position() + segments_size
                }
            },
        },
{
    let payload = match reader.read_exact(segments_size) {
        Ok(bytes) => bytes,
        Err(e) => {
            return Err(e);
        },
    };
    match parse_pds(payload) {
        Ok(pds) => Ok(pds),
        Err(kind) => Err(kind.at(reader.stream_position())),
    }
}

} // verus!
