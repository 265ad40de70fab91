//! Segment headers and the dispatch on a header's type code.

use vstd::prelude::*;
use vstd::std_specs::convert::{FromSpecImpl, TryFromSpecImpl};
use crate::codec::{spec_u16_at, spec_u32_at, u16_at, u32_at};
use crate::composition::{read_pcs, spec_pcs, CompositionView, PresentationCompositionSegment};
use crate::error::{Error, ErrorKind};
use crate::object::{read_ods, spec_ods, ObjectDefinitionSegment, ObjectView};
use crate::palette::{read_pds, spec_pds, PaletteDefinitionSegment, PaletteView};
use crate::reader::Reader;
use crate::window::{read_wds, spec_wds, WindowDefinitionSegment};

verus! {

/// The number of bytes of a segment header.
pub const HEADER_LEN: usize = 13;

/// The first marker byte of a header, `P`.
pub const MAGIC_0: u8 = 0x50;

/// The second marker byte of a header, `G`.
pub const MAGIC_1: u8 = 0x47;

/// Type code of a palette definition segment.
pub const CODE_PDS: u8 = 0x14;

/// Type code of an object definition segment.
pub const CODE_ODS: u8 = 0x15;

/// Type code of a presentation composition segment.
pub const CODE_PCS: u8 = 0x16;

/// Type code of a window definition segment.
pub const CODE_WDS: u8 = 0x17;

/// Type code of the segment that ends a display set.
pub const CODE_END: u8 = 0x80;

/// The type code of a header as it stands in the stream, valid or not.
#[derive(Clone, Copy, Debug, PartialEq, Eq, Structural)]
pub struct SegmentTypeCode(pub u8);

impl From<u8> for SegmentTypeCode {
    fn from(value: u8) -> (r: Self) {
        SegmentTypeCode(value)
    }
}

impl FromSpecImpl<u8> for SegmentTypeCode {
    open spec fn obeys_from_spec() -> bool {
        true
    }

    open spec fn from_spec(value: u8) -> Self {
        SegmentTypeCode(value)
    }
}

/// The five kinds of segment.
#[derive(Clone, Copy, Debug, PartialEq, Eq, Structural)]
pub enum SegmentKind {
    Palette,
    Object,
    Composition,
    Window,
    End,
}

/// The kind that a type code names, or `InvalidSegmentType`.
pub open spec fn spec_segment_kind(value: u8) -> Result<SegmentKind, ErrorKind> {
    if value == CODE_PDS {
        Ok(SegmentKind::Palette)
    } else if value == CODE_ODS {
        Ok(SegmentKind::Object)
    } else if value == CODE_PCS {
        Ok(SegmentKind::Composition)
    } else if value == CODE_WDS {
        Ok(SegmentKind::Window)
    } else if value == CODE_END {
        Ok(SegmentKind::End)
    } else {
        Err(ErrorKind::InvalidSegmentType)
    }
}

impl TryFrom<u8> for SegmentKind {
    type Error = ErrorKind;

    fn try_from(value: u8) -> (r: Result<Self, ErrorKind>) {
        if value == CODE_PDS {
            Ok(SegmentKind::Palette)
        } else if value == CODE_ODS {
            Ok(SegmentKind::Object)
        } else if value == CODE_PCS {
            Ok(SegmentKind::Composition)
        } else if value == CODE_WDS {
            Ok(SegmentKind::Window)
        } else if value == CODE_END {
            Ok(SegmentKind::End)
        } else {
            Err(ErrorKind::InvalidSegmentType)
        }
    }
}

impl TryFromSpecImpl<u8> for SegmentKind {
    open spec fn obeys_try_from_spec() -> bool {
        true
    }

    open spec fn try_from_spec(value: u8) -> Result<Self, ErrorKind> {
        spec_segment_kind(value)
    }
}

impl SegmentTypeCode {
    /// The short name of the code's kind of segment.
    pub open spec fn spec_name(self) -> Seq<char> {
        if self.0 == CODE_PDS {
            "PDS"@
        } else if self.0 == CODE_ODS {
            "ODS"@
        } else if self.0 == CODE_PCS {
            "PCS"@
        } else if self.0 == CODE_WDS {
            "WDS"@
        } else if self.0 == CODE_END {
            "END"@
        } else {
            "<Invalid>"@
        }
    }

    /// The short name of the code's kind of segment, for messages.
    pub fn name(self) -> (friendly: &'static str)
        ensures
            friendly@ == self.spec_name(),
    {
        if self.0 == CODE_PDS {
            "PDS"
        } else if self.0 == CODE_ODS {
            "ODS"
        } else if self.0 == CODE_PCS {
            "PCS"
        } else if self.0 == CODE_WDS {
            "WDS"
        } else if self.0 == CODE_END {
            "END"
        } else {
            "<Invalid>"
        }
    }

    /// The kind that the code names, if it names one.
    pub open spec fn spec_kind(self) -> Result<SegmentKind, ErrorKind> {
        spec_segment_kind(self.0)
    }

    /// The kind that the code names, or `InvalidSegmentType`.
    #[verifier::when_used_as_spec(spec_kind)]
    pub fn kind(self) -> (r: Result<SegmentKind, ErrorKind>)
        ensures
            r == self.spec_kind(),
    {
        SegmentKind::try_from(self.0)
    }
}

/// The header that every segment begins with.
#[derive(Clone, Copy, Debug, PartialEq, Eq, Structural)]
pub struct SegmentHeader {
    /// Presentation timestamp, in ticks of a 90 kHz clock.
    pub pts: u32,
    /// Decoding timestamp, in the same ticks.
    pub dts: u32,
    /// The type code as read.
    pub type_code: SegmentTypeCode,
    /// The number of payload bytes that follow the header.
    pub size: u16,
}

impl SegmentHeader {
    /// The presentation time in milliseconds: ticks divided by 90, rounded
    /// down.
    pub open spec fn spec_presentation_time(&self) -> u32 {
        (self.pts / 90) as u32
    }

    /// The presentation time in milliseconds: ticks divided by 90, rounded
    /// down.
    #[verifier::when_used_as_spec(spec_presentation_time)]
    pub fn presentation_time(&self) -> (time_ms: u32)
        ensures
            time_ms == self.spec_presentation_time(),
            time_ms as int == self.pts as int / 90,
    {
        let time_ms: u32 = self.pts / 90;
        time_ms
    }

    /// The type code as read.
    pub fn type_code(&self) -> (code: SegmentTypeCode)
        ensures
            code == self.type_code,
    {
        self.type_code
    }

    /// The number of payload bytes that follow the header.
    pub fn size(&self) -> (size: u16)
        ensures
            size == self.size,
    {
        self.size
    }
}

/// Whether `s` begins with the two marker bytes.
pub open spec fn has_magic(s: Seq<u8>) -> bool {
    s.len() >= 2 && s[0] == MAGIC_0 && s[1] == MAGIC_1
}

/// The header that the first thirteen bytes of `s` spell.
pub open spec fn spec_header(s: Seq<u8>) -> SegmentHeader
    recommends
        s.len() >= HEADER_LEN,
{
    SegmentHeader {
        pts: spec_u32_at(s, 2) as u32,
        dts: spec_u32_at(s, 6) as u32,
        type_code: SegmentTypeCode(s[10]),
        size: spec_u16_at(s, 11) as u16,
    }
}

/// What reading a header from `s` gives, without the place of a failure.
pub open spec fn spec_read_header(s: Seq<u8>) -> Result<SegmentHeader, ErrorKind> {
    if s.len() < HEADER_LEN {
        Err(ErrorKind::Truncated)
    } else if !has_magic(s) {
        Err(ErrorKind::InvalidMagic)
    } else {
        Ok(spec_header(s))
    }
}

/// Reads the thirteen bytes of a segment header and moves past them.
///
/// With fewer than thirteen bytes left the cursor stays and the failure is
/// `Truncated`. Where the marker bytes are wrong the failure is
/// `InvalidMagic`. Its offset is the stream position once the thirteen
/// bytes have been consumed. The type code is stored as read.
pub fn read_header(reader: &mut Reader) -> (r: Result<SegmentHeader, Error>)
    ensures
        final(reader).bytes() == old(reader).bytes(),
        match r {
            Ok(header) => {
                &&& spec_read_header(old(reader).rest()) == Ok::<_, ErrorKind>(header)
                &&& final(reader).position() == old(reader).position() + HEADER_LEN
            },
            Err(e) => {
                &&& spec_read_header(old(reader).rest()) == Err::<SegmentHeader, _>(e.kind())
                &&& e.offset() == final(reader).position()
                &&& final(reader).position() == if e.kind() == ErrorKind::Truncated {
                    old(reader).position()
                } else {
                    old(reader).position() + HEADER_LEN
                }
            },
        },
{
    let header_buf = match reader.read_exact(HEADER_LEN) {
        Ok(bytes) => bytes,
        Err(e) => {
            return Err(e);
        },
    };
    if header_buf[0] != MAGIC_0 || header_buf[1] != MAGIC_1 {
        let file_idx: usize = reader.stream_position();
        return Err(Error::InvalidMagic { offset: file_idx });
    }
    let pts: u32 = u32_at(header_buf, 2);
    let dts: u32 = u32_at(header_buf, 6);
    let type_code = SegmentTypeCode::from(header_buf[10]);
    let size: u16 = u16_at(header_buf, 11);
    Ok(SegmentHeader { pts, dts, type_code, size })
}

/// A decoded segment.
#[derive(Debug)]
pub enum SegmentType {
    Pds(PaletteDefinitionSegment),
    Ods(ObjectDefinitionSegment),
    Pcs(PresentationCompositionSegment),
    Wds(WindowDefinitionSegment),
    End,
}

/// A decoded segment as a mathematical value.
pub enum SegmentView {
    Pds(PaletteView),
    Ods(ObjectView),
    Pcs(CompositionView),
    Wds(WindowDefinitionSegment),
    End,
}

impl View for SegmentType {
    type V = SegmentView;

    open spec fn view(&self) -> SegmentView {
        match self {
            SegmentType::Pds(pds) => SegmentView::Pds(pds@),
            SegmentType::Ods(ods) => SegmentView::Ods(ods@),
            SegmentType::Pcs(pcs) => SegmentView::Pcs(pcs@),
            SegmentType::Wds(wds) => SegmentView::Wds(*wds),
            SegmentType::End => SegmentView::End,
        }
    }
}

impl SegmentType {
    /// The name of the segment's kind.
    pub open spec fn spec_name(self) -> Seq<char> {
        match self {
            SegmentType::Pds(_) => "Pds"@,
            SegmentType::Ods(_) => "Ods"@,
            SegmentType::Pcs(_) => "Pcs"@,
            SegmentType::Wds(_) => "Wds"@,
            SegmentType::End => "End"@,
        }
    }

    /// The name of the segment's kind, for messages.
    pub fn name(&self) -> (info: &'static str)
        ensures
            info@ == self.spec_name(),
    {
        match self {
            SegmentType::Pds(_) => "Pds",
            SegmentType::Ods(_) => "Ods",
            SegmentType::Pcs(_) => "Pcs",
            SegmentType::Wds(_) => "Wds",
            SegmentType::End => "End",
        }
    }
}

/// What the payload `payload` of a segment of kind `kind` decodes to, where
/// the payload begins at offset `base` of its stream. The payload of an End
/// segment is passed over.
pub open spec fn spec_segment_body(kind: SegmentKind, payload: Seq<u8>, base: int) -> Result<
    SegmentView,
    ErrorKind,
> {
    match kind {
        SegmentKind::Palette => match spec_pds(payload) {
            Ok(pds) => Ok(SegmentView::Pds(pds)),
            Err(e) => Err(e),
        },
        SegmentKind::Object => match spec_ods(payload, base) {
            Ok(ods) => Ok(SegmentView::Ods(ods)),
            Err(e) => Err(e),
        },
        SegmentKind::Composition => match spec_pcs(payload) {
            Ok(pcs) => Ok(SegmentView::Pcs(pcs)),
            Err(e) => Err(e),
        },
        SegmentKind::Window => match spec_wds(payload) {
            Ok(wds) => Ok(SegmentView::Wds(wds)),
            Err(e) => Err(e),
        },
        SegmentKind::End => Ok(SegmentView::End),
    }
}

/// A segment found in a stream: its header, its content, and the offset
/// behind its last byte.
pub struct SegmentRecord {
    pub header: SegmentHeader,
    pub body: SegmentView,
    pub end: int,
}

/// The segment that begins at offset `pos` of `bytes`, or the failure of
/// reading it.
///
/// A failure carries the offset at which the cursor is left. A header or a
/// payload that the stream cuts short leaves the cursor where the header or
/// the payload begins. A header with wrong marker bytes or an unknown type
/// code leaves it behind the header, and a payload whose content does not
/// decode leaves it behind the payload.
pub open spec fn spec_segment_at(bytes: Seq<u8>, pos: int) -> Result<SegmentRecord, Error> {
    let body_at = pos + HEADER_LEN;
    match spec_read_header(bytes.skip(pos)) {
        Err(ErrorKind::Truncated) => Err(Error::Truncated { offset: pos as usize }),
        Err(kind) => Err(kind.at(body_at as usize)),
        Ok(header) => match header.type_code.kind() {
            Err(kind) => Err(kind.at(body_at as usize)),
            Ok(kind) => if header.size > bytes.len() - body_at {
                Err(Error::Truncated { offset: body_at as usize })
            } else {
                let end = body_at + header.size;
                match spec_segment_body(
                    kind,
                    bytes.skip(body_at).take(header.size as int),
                    body_at,
                ) {
                    Err(kind) => Err(kind.at(end as usize)),
                    Ok(body) => Ok(SegmentRecord { header, body, end }),
                }
            },
        },
    }
}

/// Reads one segment: its header, then the payload that its type code
/// calls for. An unknown type code fails with `InvalidSegmentType`.
pub fn read_segment(reader: &mut Reader) -> (r: Result<(SegmentHeader, SegmentType), Error>)
    ensures
        final(reader).bytes() == old(reader).bytes(),
        match r {
            Ok((header, segment)) => spec_segment_at(old(reader).bytes(), old(reader).position())
                == Ok::<_, Error>(
                SegmentRecord { header, body: segment@, end: final(reader).position() },
            ),
            Err(e) => {
                &&& spec_segment_at(old(reader).bytes(), old(reader).position()) == Err::<
                    SegmentRecord,
                    _,
                >(e)
                &&& e.offset() == final(reader).position()
            },
        },
        final(reader).position() >= old(reader).position(),
{
    let start: usize = reader.stream_position();
    let header = match read_header(reader) {
        Ok(header) => header,
        Err(e) => {
            return Err(e);
        },
    };
    let body_at: usize = reader.stream_position();
    let kind = match header.type_code().kind() {
        Ok(kind) => kind,
        Err(kind) => {
            return Err(kind.at(body_at));
        },
    };
    let size: usize = header.size() as usize;
    let _left: usize = reader.remaining();
    let decoded = match kind {
        SegmentKind::Palette => match read_pds(reader, size) {
            Ok(pds) => Ok(SegmentType::Pds(pds)),
            Err(e) => Err(e),
        },
        SegmentKind::Object => match read_ods(reader, size) {
            Ok(ods) => Ok(SegmentType::Ods(ods)),
            Err(e) => Err(e),
        },
        SegmentKind::Composition => match read_pcs(reader, size) {
            Ok(pcs) => Ok(SegmentType::Pcs(pcs)),
            Err(e) => Err(e),
        },
        SegmentKind::Window => match read_wds(reader, size) {
            Ok(wds) => Ok(SegmentType::Wds(wds)),
            Err(e) => Err(e),
        },
        SegmentKind::End => match reader.read_exact(size) {
            Ok(_) => Ok(SegmentType::End),
            Err(e) => Err(e),
        },
    };
    match decoded {
        Ok(segment) => Ok((header, segment)),
        Err(e) => Err(e),
    }
}

} // verus!
