//! The window definition segment: a rectangle of the screen in which
//! objects are shown.

use vstd::prelude::*;
use crate::codec::{spec_u16_at, u16_at};
use crate::error::{Error, ErrorKind};
use crate::reader::Reader;
use crate::table::Keyed;

verus! {

/// The number of bytes of a window definition: the count byte and one
/// window record.
pub const WDS_LEN: usize = 10;

/// A window definition segment.
#[derive(Clone, Copy, Debug, PartialEq, Eq, Structural)]
pub struct WindowDefinitionSegment {
    /// The number of windows that the segment announces.
    pub number_of_windows: u8,
    /// The id under which compositions name the window.
    pub window_id: u8,
    /// Horizontal offset of the window on the screen.
    pub window_horizontal_position: u16,
    /// Vertical offset of the window on the screen.
    pub window_vertical_position: u16,
    /// Width of the window.
    pub window_width: u16,
    /// Height of the window.
    pub window_height: u16,
}

impl View for WindowDefinitionSegment {
    type V = WindowDefinitionSegment;

    open spec fn view(&self) -> WindowDefinitionSegment {
        *self
    }
}

impl Keyed for WindowDefinitionSegment {
    open spec fn id_of(v: WindowDefinitionSegment) -> int {
        v.window_id as int
    }

    fn id(&self) -> (id: u16) {
        self.window_id as u16
    }
}

/// The window definition that the payload `s` spells: ten bytes. Bytes that
/// follow them are passed over.
pub open spec fn spec_wds(s: Seq<u8>) -> Result<WindowDefinitionSegment, ErrorKind> {
    if s.len() < WDS_LEN {
        Err(ErrorKind::Truncated)
    } else {
        Ok(
            WindowDefinitionSegment {
                number_of_windows: s[0],
                window_id: s[1],
                window_horizontal_position: spec_u16_at(s, 2) as u16,
                window_vertical_position: spec_u16_at(s, 4) as u16,
                window_width: spec_u16_at(s, 6) as u16,
                window_height: spec_u16_at(s, 8) as u16,
            },
        )
    }
}

/// Decodes the payload of a window definition segment.
pub fn parse_wds(payload: &[u8]) -> (r: Result<WindowDefinitionSegment, ErrorKind>)
    ensures
        r == spec_wds(payload@),
{
    if payload.len() < WDS_LEN {
        return Err(ErrorKind::Truncated);
    }
    let number_of_windows: u8 = payload[0];
    let window_id: u8 = payload[1];
    let window_horizontal_position: u16 = u16_at(payload, 2);
    let window_vertical_position: u16 = u16_at(payload, 4);
    let window_width: u16 = u16_at(payload, 6);
    let window_height: u16 = u16_at(payload, 8);
    Ok(
        WindowDefinitionSegment {
            number_of_windows,
            window_id,
            window_horizontal_position,
            window_vertical_position,
            window_width,
            window_height,
        },
    )
}

/// Reads a window definition segment's payload of `segments_size` bytes.
///
/// With fewer bytes left the cursor stays and the failure is `Truncated`.
/// Otherwise the cursor moves past the whole payload, whether its content
/// decodes or not, and a failure carries that position.
pub fn read_wds(reader: &mut Reader, segments_size: usize) -> (r: Result<
    WindowDefinitionSegment,
    Error,
>)
    ensures
        final(reader).bytes() == old(reader).bytes(),
        match r {
            Ok(wds) => {
                &&& segments_size <= old(reader).rest().len()
                &&& spec_wds(old(reader).rest().take(segments_size as int)) == Ok::<_, ErrorKind>(
                    wds,
                )
                &&& final(reader).position() == old(reader).position() + segments_size
            },
            Err(e) => {
                &&& e.offset() == final(reader).position()
                &&& if segments_size > old(reader).rest().len() {
                    e.kind() == ErrorKind::Truncated && final(reader).position() == old(
                        reader,
                    ).position()
                } else {
                    &&& spec_wds(old(reader).rest().take(segments_size as int)) == Err::<
                        WindowDefinitionSegment,
                        _,
                    >(e.kind())
                    &&& final(reader).position() == old(reader).position() + segments_size
                }
            },
        },
{
    let payload = match reader.read_exact(segments_size) {
        Ok(bytes) => bytes,
        Err(e) => {
            return Err(e);
        },
    };
    match parse_wds(payload) {
        Ok(wds) => Ok(wds),
        Err(kind) => Err(kind.at(reader.stream_position())),
    }
}

} // verus!
