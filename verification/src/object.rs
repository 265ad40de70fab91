//! The object definition segment: a bitmap, or one fragment of a bitmap
//! that is too large for a single segment.

use vstd::prelude::*;
use vstd::slice::slice_to_vec;
use vstd::std_specs::convert::TryFromSpecImpl;
use crate::codec::{spec_u16_at, spec_u24_at, u16_at, u24_at};
use crate::error::{Error, ErrorKind};
use crate::reader::Reader;
use crate::u24::u24;

verus! {

/// The number of bytes of an object definition before its bitmap data.
pub const ODS_HEADER: usize = 11;

/// The part of the declared data length that is not bitmap data.
pub const DATA_LENGTH_OVERHEAD: u32 = 4;

/// Where a segment stands among the fragments of its object.
#[derive(Clone, Copy, Debug, PartialEq, Eq, Structural)]
pub enum LastInSequenceFlag {
    /// The last fragment of an object that an earlier segment began.
    LastInSequence,
    /// The first fragment of an object that later segments continue.
    FirstInSequence,
    /// The only fragment: the segment holds the whole object.
    FirstAndLastInSequence,
}

/// The place that a flag byte names, or `InvalidFlag`.
pub open spec fn spec_sequence_flag(value: u8) -> Result<LastInSequenceFlag, ErrorKind> {
    if value == 0x40 {
        Ok(LastInSequenceFlag::LastInSequence)
    } else if value == 0x80 {
        Ok(LastInSequenceFlag::FirstInSequence)
    } else if value == 0xC0 {
        Ok(LastInSequenceFlag::FirstAndLastInSequence)
    } else {
        Err(ErrorKind::InvalidFlag)
    }
}

impl TryFrom<u8> for LastInSequenceFlag {
    type Error = ErrorKind;

    fn try_from(value: u8) -> (r: Result<Self, ErrorKind>) {
        match value {
            0x40 => Ok(LastInSequenceFlag::LastInSequence),
            0x80 => Ok(LastInSequenceFlag::FirstInSequence),
            0xC0 => Ok(LastInSequenceFlag::FirstAndLastInSequence),
            _ => Err(ErrorKind::InvalidFlag),
        }
    }
}

impl TryFromSpecImpl<u8> for LastInSequenceFlag {
    open spec fn obeys_try_from_spec() -> bool {
        true
    }

    open spec fn try_from_spec(value: u8) -> Result<Self, ErrorKind> {
        spec_sequence_flag(value)
    }
}

/// An object definition segment.
#[derive(Clone, Debug)]
pub struct ObjectDefinitionSegment {
    /// The id under which compositions name the object.
    pub object_id: u16,
    /// The version of the object.
    pub object_version_number: u8,
    /// Where the segment stands among the fragments of the object.
    pub last_in_sequence_flag: LastInSequenceFlag,
    /// The declared length of the whole object's data, four more than the
    /// number of its bitmap bytes.
    pub object_data_length: u24,
    /// Width of the bitmap in pixels.
    pub width: u16,
    /// Height of the bitmap in pixels.
    pub height: u16,
    /// The offset at which the segment's bitmap data begins.
    pub object_data_seek: usize,
    /// The segment's bitmap data, still run-length encoded.
    pub object_data: Vec<u8>,
}

/// An object definition as a mathematical value.
pub struct ObjectView {
    pub object_id: u16,
    pub object_version_number: u8,
    pub last_in_sequence_flag: LastInSequenceFlag,
    pub object_data_length: int,
    pub width: u16,
    pub height: u16,
    pub object_data_seek: int,
    pub object_data: Seq<u8>,
}

impl View for ObjectDefinitionSegment {
    type V = ObjectView;

    open spec fn view(&self) -> ObjectView {
        ObjectView {
            object_id: self.object_id,
            object_version_number: self.object_version_number,
            last_in_sequence_flag: self.last_in_sequence_flag,
            object_data_length: self.object_data_length@,
            width: self.width,
            height: self.height,
            object_data_seek: self.object_data_seek as int,
            object_data: self.object_data@,
        }
    }
}

impl ObjectDefinitionSegment {
    /// The number of bitmap bytes that the segment holds.
    pub fn object_data_len(&self) -> (len: usize)
        ensures
            len == self@.object_data.len(),
    {
        self.object_data.len()
    }
}

/// The object definition that the payload `s` spells, where the payload
/// begins at offset `base` of its stream: eleven bytes, then bitmap data up
/// to the end of the payload. A segment that holds a whole object is refused
/// unless its declared length is four more than the number of its bitmap
/// bytes.
pub open spec fn spec_ods(s: Seq<u8>, base: int) -> Result<ObjectView, ErrorKind> {
    if s.len() < ODS_HEADER {
        Err(ErrorKind::Truncated)
    } else if spec_sequence_flag(s[3]) is Err {
        Err(ErrorKind::InvalidFlag)
    } else if spec_sequence_flag(s[3]) == Ok::<_, ErrorKind>(
        LastInSequenceFlag::FirstAndLastInSequence,
    ) && spec_u24_at(s, 4) - DATA_LENGTH_OVERHEAD != s.len() - ODS_HEADER {
        Err(ErrorKind::ArithmeticInconsistency)
    } else {
        Ok(
            ObjectView {
                object_id: spec_u16_at(s, 0) as u16,
                object_version_number: s[2],
                last_in_sequence_flag: spec_sequence_flag(s[3])->Ok_0,
                object_data_length: spec_u24_at(s, 4),
                width: spec_u16_at(s, 7) as u16,
                height: spec_u16_at(s, 9) as u16,
                object_data_seek: base + ODS_HEADER,
                object_data: s.skip(ODS_HEADER as int),
            },
        )
    }
}

/// Decodes the payload of an object definition segment that begins at
/// offset `base` of its stream.
pub fn parse_ods(payload: &[u8], base: usize) -> (r: Result<ObjectDefinitionSegment, ErrorKind>)
    requires
        base + payload@.len() <= usize::MAX,
    ensures
        match r {
            Ok(ods) => spec_ods(payload@, base as int) == Ok::<_, ErrorKind>(ods@),
            Err(kind) => spec_ods(payload@, base as int) == Err::<ObjectView, _>(kind),
        },
{
    let segments_size: usize = payload.len();
    if segments_size < ODS_HEADER {
        return Err(ErrorKind::Truncated);
    }
    let object_id: u16 = u16_at(payload, 0);
    let object_version_number: u8 = payload[2];
    let last_in_sequence_flag = match LastInSequenceFlag::try_from(payload[3]) {
        Ok(flag) => flag,
        Err(kind) => {
            return Err(kind);
        },
    };
    let object_data_length: u24 = u24_at(payload, 4);
    let width: u16 = u16_at(payload, 7);
    let height: u16 = u16_at(payload, 9);
    let data_size: u32 = object_data_length.to_u32();
    match last_in_sequence_flag {
        LastInSequenceFlag::FirstAndLastInSequence => {
            if data_size < DATA_LENGTH_OVERHEAD || (data_size - DATA_LENGTH_OVERHEAD) as usize
                != segments_size - ODS_HEADER {
                return Err(ErrorKind::ArithmeticInconsistency);
            }
        },
        _ => {},
    }
    let object_data: Vec<u8> = slice_to_vec(&payload[ODS_HEADER..segments_size]);
    Ok(
        ObjectDefinitionSegment {
            object_id,
            object_version_number,
            last_in_sequence_flag,
            object_data_length,
            width,
            height,
            object_data_seek: base + ODS_HEADER,
            object_data,
        },
    )
}

/// Reads an object definition segment's payload of `segments_size` bytes.
///
/// With fewer bytes left the cursor stays and the failure is `Truncated`.
/// Otherwise the cursor moves past the whole payload, whether its content
/// decodes or not, and a failure carries that position.
pub fn read_ods(reader: &mut Reader, segments_size: usize) -> (r: Result<
    ObjectDefinitionSegment,
    Error,
>)
    ensures
        final(reader).bytes() == old(reader).bytes(),
        match r {
            Ok(ods) => {
                &&& segments_size <= old(reader).rest().len()
                &&& spec_ods(
                    old(reader).rest().take(segments_size as int),
                    old(reader).position(),
                ) == Ok::<_, ErrorKind>(ods@)
                &&& final(reader).position() == old(reader).position() + segments_size
            },
            Err(e) => {
                &&& e.offset() == final(reader).position()
                &&& if segments_size > old(reader).rest().len() {
                    e.kind() == ErrorKind::Truncated && final(reader).position() == old(
                        reader,
                    ).position()
                } else {
                    &&& spec_ods(
                        old(reader).rest().take(segments_size as int),
                        old(reader).position(),
                    ) == Err::<ObjectView, _>(e.kind())
                    &&& final(reader).position() == old(reader).position() + segments_size
                }
            },
        },
{
    let data_cursor: usize = reader.stream_position();
    let payload = match reader.read_exact(segments_size) {
        Ok(bytes) => bytes,
        Err(e) => {
            return Err(e);
        },
    };
    let end: usize = reader.stream_position();
    match parse_ods(payload, data_cursor) {
        Ok(ods) => Ok(ods),
        Err(kind) => Err(kind.at(end)),
    }
}

} // verus!
