//! The presentation composition segment: the screen, the state of the
//! display set that it opens, and the objects that it places in windows.

use vstd::prelude::*;
use vstd::std_specs::convert::TryFromSpecImpl;
use crate::codec::{spec_u16_at, u16_at};
use crate::error::{Error, ErrorKind};
use crate::reader::Reader;

verus! {

/// The number of bytes of a composition before its object records.
pub const PCS_LEN: usize = 11;

/// The number of bytes of an object record without a cropping rectangle.
pub const WIN_INFO_LEN: usize = 8;

/// The number of bytes of a cropping rectangle.
pub const CROPPING_INFO_LEN: usize = 8;

/// The frame rate byte that every composition carries.
pub const FRAME_RATE: u8 = 0x10;

/// The cropped flag of an object record with a cropping rectangle.
pub const CROPPED: u8 = 0x40;

/// The palette update flag of a composition that only changes the palette.
pub const PALETTE_UPDATE: u8 = 0x80;

/// What a composition says of the display set that it belongs to.
#[derive(Clone, Copy, Debug, PartialEq, Eq, Structural)]
pub enum CompositionState {
    /// A change within the running epoch.
    Normal,
    /// A refresh within the running epoch.
    AcquisitionPoint,
    /// The start of a new epoch.
    EpochStart,
}

/// The state that a byte names, or `InvalidFlag`.
pub open spec fn spec_composition_state(value: u8) -> Result<CompositionState, ErrorKind> {
    if value == 0x00 {
        Ok(CompositionState::Normal)
    } else if value == 0x40 {
        Ok(CompositionState::AcquisitionPoint)
    } else if value == 0x80 {
        Ok(CompositionState::EpochStart)
    } else {
        Err(ErrorKind::InvalidFlag)
    }
}

impl CompositionState {
    /// The name of the state.
    pub open spec fn spec_name(self) -> Seq<char> {
        match self {
            CompositionState::Normal => "Normal"@,
            CompositionState::AcquisitionPoint => "AcquisitionPoint"@,
            CompositionState::EpochStart => "EpochStart"@,
        }
    }

    /// The name of the state, for messages.
    pub fn name(&self) -> (str: &'static str)
        ensures
            str@ == self.spec_name(),
    {
        match self {
            CompositionState::Normal => "Normal",
            CompositionState::AcquisitionPoint => "AcquisitionPoint",
            CompositionState::EpochStart => "EpochStart",
        }
    }
}

impl TryFrom<u8> for CompositionState {
    type Error = ErrorKind;

    fn try_from(value: u8) -> (r: Result<Self, ErrorKind>) {
        match value {
            0x00 => Ok(CompositionState::Normal),
            0x40 => Ok(CompositionState::AcquisitionPoint),
            0x80 => Ok(CompositionState::EpochStart),
            _ => Err(ErrorKind::InvalidFlag),
        }
    }
}

impl TryFromSpecImpl<u8> for CompositionState {
    open spec fn obeys_try_from_spec() -> bool {
        true
    }

    open spec fn try_from_spec(value: u8) -> Result<Self, ErrorKind> {
        spec_composition_state(value)
    }
}

/// The part of an object that a composition shows.
#[derive(Clone, Copy, Debug, PartialEq, Eq, Structural)]
pub struct ObjectCroppingInfo {
    /// Horizontal offset of the part from the object's left edge.
    pub object_cropping_horizontal_position: u16,
    /// Vertical offset of the part from the object's top edge.
    pub object_cropping_vertical_position: u16,
    /// Width of the part.
    pub object_cropping_width: u16,
    /// Height of the part.
    pub object_cropping_height_position: u16,
}

/// One object placed on the screen by a composition.
#[derive(Clone, Copy, Debug, PartialEq, Eq, Structural)]
pub struct WindowInformationObject {
    /// The object whose bitmap is shown.
    pub object_id: u16,
    /// The window in which it is shown.
    pub window_id: u8,
    /// `0x40` where a cropping rectangle follows, else `0x00`.
    pub object_cropped_flag: u8,
    /// Horizontal offset of the object on the screen.
    pub object_horizontal_position: u16,
    /// Vertical offset of the object on the screen.
    pub object_vertical_position: u16,
    /// The cropping rectangle, where the flag is set.
    pub object_cropping_info: Option<ObjectCroppingInfo>,
}

/// A presentation composition segment.
#[derive(Clone, Debug)]
pub struct PresentationCompositionSegment {
    /// Video width in pixels.
    pub width: u16,
    /// Video height in pixels.
    pub height: u16,
    /// Always `0x10`.
    pub frame_rate: u8,
    /// Counts the compositions of a stream.
    pub composition_number: u16,
    /// Whether the composition opens an epoch.
    pub composition_state: CompositionState,
    /// `0x80` where only the palette changes, else `0x00`.
    pub palette_update_flag: u8,
    /// The palette that the composition is shown with.
    pub palette_id: u8,
    /// The objects shown, in the order of the stream.
    pub composition_objects: Vec<WindowInformationObject>,
}

/// A composition as a mathematical value.
pub struct CompositionView {
    pub width: u16,
    pub height: u16,
    pub frame_rate: u8,
    pub composition_number: u16,
    pub composition_state: CompositionState,
    pub palette_update_flag: u8,
    pub palette_id: u8,
    pub composition_objects: Seq<WindowInformationObject>,
}

impl View for PresentationCompositionSegment {
    type V = CompositionView;

    open spec fn view(&self) -> CompositionView {
        CompositionView {
            width: self.width,
            height: self.height,
            frame_rate: self.frame_rate,
            composition_number: self.composition_number,
            composition_state: self.composition_state,
            palette_update_flag: self.palette_update_flag,
            palette_id: self.palette_id,
            composition_objects: self.composition_objects@,
        }
    }
}

/// The cropping rectangle that the first eight bytes of `s` spell.
pub open spec fn spec_cropping_info(s: Seq<u8>) -> ObjectCroppingInfo
    recommends
        s.len() >= CROPPING_INFO_LEN,
{
    ObjectCroppingInfo {
        object_cropping_horizontal_position: spec_u16_at(s, 0) as u16,
        object_cropping_vertical_position: spec_u16_at(s, 2) as u16,
        object_cropping_width: spec_u16_at(s, 4) as u16,
        object_cropping_height_position: spec_u16_at(s, 6) as u16,
    }
}

/// The object record at the start of `s`: eight bytes, and eight more where
/// the cropped flag is `0x40`. Any flag but `0x00` and `0x40` is refused.
pub open spec fn spec_window_info(s: Seq<u8>) -> Result<WindowInformationObject, ErrorKind> {
    if s.len() < WIN_INFO_LEN {
        Err(ErrorKind::Truncated)
    } else if s[3] != 0x00 && s[3] != CROPPED {
        Err(ErrorKind::InvalidFlag)
    } else if s[3] == CROPPED && s.len() < WIN_INFO_LEN + CROPPING_INFO_LEN {
        Err(ErrorKind::Truncated)
    } else {
        Ok(
            WindowInformationObject {
                object_id: spec_u16_at(s, 0) as u16,
                window_id: s[2],
                object_cropped_flag: s[3],
                object_horizontal_position: spec_u16_at(s, 4) as u16,
                object_vertical_position: spec_u16_at(s, 6) as u16,
                object_cropping_info: if s[3] == CROPPED {
                    Some(spec_cropping_info(s.skip(WIN_INFO_LEN as int)))
                } else {
                    None
                },
            },
        )
    }
}

/// The number of bytes that reading the object record at the start of `s`
/// consumes, whether it succeeds or not.
pub open spec fn spec_window_info_consumed(s: Seq<u8>) -> int {
    if s.len() < WIN_INFO_LEN {
        0
    } else if s[3] == CROPPED && s.len() >= WIN_INFO_LEN + CROPPING_INFO_LEN {
        WIN_INFO_LEN + CROPPING_INFO_LEN
    } else {
        WIN_INFO_LEN as int
    }
}

/// The first `count` object records of `s`, one after the other.
pub open spec fn spec_window_infos(s: Seq<u8>, count: nat) -> Result<
    Seq<WindowInformationObject>,
    ErrorKind,
>
    decreases count,
{
    if count == 0 {
        Ok(Seq::empty())
    } else {
        match spec_window_info(s) {
            Err(kind) => Err(kind),
            Ok(first) => match spec_window_infos(
                s.skip(spec_window_info_consumed(s)),
                (count - 1) as nat,
            ) {
                Err(kind) => Err(kind),
                Ok(others) => Ok(seq![first] + others),
            },
        }
    }
}

/// The composition that the payload `s` spells: eleven bytes, then as many
/// object records as the eleventh byte says. Bytes that follow the last
/// record are passed over.
pub open spec fn spec_pcs(s: Seq<u8>) -> Result<CompositionView, ErrorKind> {
    if s.len() < PCS_LEN {
        Err(ErrorKind::Truncated)
    } else if s[4] != FRAME_RATE {
        Err(ErrorKind::InvalidFlag)
    } else if spec_composition_state(s[7]) is Err {
        Err(ErrorKind::InvalidFlag)
    } else if s[8] != 0x00 && s[8] != PALETTE_UPDATE {
        Err(ErrorKind::InvalidFlag)
    } else {
        match spec_window_infos(s.skip(PCS_LEN as int), s[10] as nat) {
            Err(kind) => Err(kind),
            Ok(objects) => Ok(
                CompositionView {
                    width: spec_u16_at(s, 0) as u16,
                    height: spec_u16_at(s, 2) as u16,
                    frame_rate: s[4],
                    composition_number: spec_u16_at(s, 5) as u16,
                    composition_state: spec_composition_state(s[7])->Ok_0,
                    palette_update_flag: s[8],
                    palette_id: s[9],
                    composition_objects: objects,
                },
            ),
        }
    }
}

/// Reads one object record and moves past it.
///
/// A failure carries the position at which the cursor is left: where it
/// stood if the first eight bytes are not there, behind them otherwise.
pub fn read_window_info(reader: &mut Reader) -> (r: Result<WindowInformationObject, Error>)
    ensures
        final(reader).bytes() == old(reader).bytes(),
        final(reader).position() == old(reader).position() + spec_window_info_consumed(
            old(reader).rest(),
        ),
        final(reader).rest() == old(reader).rest().skip(
            spec_window_info_consumed(old(reader).rest()),
        ),
        match r {
            Ok(info) => spec_window_info(old(reader).rest()) == Ok::<_, ErrorKind>(info),
            Err(e) => {
                &&& spec_window_info(old(reader).rest()) == Err::<WindowInformationObject, _>(
                    e.kind(),
                )
                &&& e.offset() == final(reader).position()
            },
        },
{
    let ghost s = reader.rest();
    let win_info_buf = match reader.read_exact(WIN_INFO_LEN) {
        Ok(bytes) => bytes,
        Err(e) => {
            return Err(e);
        },
    };
    let object_id: u16 = u16_at(win_info_buf, 0);
    let window_id: u8 = win_info_buf[2];
    let object_cropped_flag: u8 = win_info_buf[3];
    if object_cropped_flag != 0x00 && object_cropped_flag != CROPPED {
        return Err(Error::InvalidFlag { offset: reader.stream_position() });
    }
    let object_horizontal_position: u16 = u16_at(win_info_buf, 4);
    let object_vertical_position: u16 = u16_at(win_info_buf, 6);
    let object_cropping_info = if object_cropped_flag == CROPPED {
        let cropping_info_buf = match reader.read_exact(CROPPING_INFO_LEN) {
            Ok(bytes) => bytes,
            Err(e) => {
                return Err(e);
            },
        };
        Some(
            ObjectCroppingInfo {
                object_cropping_horizontal_position: u16_at(cropping_info_buf, 0),
                object_cropping_vertical_position: u16_at(cropping_info_buf, 2),
                object_cropping_width: u16_at(cropping_info_buf, 4),
                object_cropping_height_position: u16_at(cropping_info_buf, 6),
            },
        )
    } else {
        None
    };
    Ok(
        WindowInformationObject {
            object_id,
            window_id,
            object_cropped_flag,
            object_horizontal_position,
            object_vertical_position,
            object_cropping_info,
        },
    )
}

/// `tail` with `head` put in front of what it holds.
spec fn prepend(
    head: Seq<WindowInformationObject>,
    tail: Result<Seq<WindowInformationObject>, ErrorKind>,
) -> Result<Seq<WindowInformationObject>, ErrorKind> {
    match tail {
        Ok(others) => Ok(head + others),
        Err(kind) => Err(kind),
    }
}

/// Reading `count` records is reading one and then the others.
proof fn lemma_window_infos_step(head: Seq<WindowInformationObject>, s: Seq<u8>, count: nat)
    requires
        count > 0,
    ensures
        match spec_window_info(s) {
            Err(kind) => prepend(head, spec_window_infos(s, count)) == Err::<
                Seq<WindowInformationObject>,
                _,
            >(kind),
            Ok(first) => prepend(head, spec_window_infos(s, count)) == prepend(
                head.push(first),
                spec_window_infos(s.skip(spec_window_info_consumed(s)), (count - 1) as nat),
            ),
        },
{
    match spec_window_info(s) {
        Err(kind) => {},
        Ok(first) => {
            match spec_window_infos(s.skip(spec_window_info_consumed(s)), (count - 1) as nat) {
                Err(kind) => {},
                Ok(others) => {
                    assert(head + (seq![first] + others) =~= head.push(first) + others);
                },
            }
        },
    }
}

/// Decodes the payload of a composition segment.
#[verifier::loop_isolation(false)]
pub fn parse_pcs(payload: &[u8]) -> (r: Result<PresentationCompositionSegment, ErrorKind>)
    ensures
        match r {
            Ok(pcs) => spec_pcs(payload@) == Ok::<_, ErrorKind>(pcs@),
            Err(kind) => spec_pcs(payload@) == Err::<CompositionView, _>(kind),
        },
{
    let mut reader = Reader::new(payload);
    let pcs_buf = match reader.read_exact(PCS_LEN) {
        Ok(bytes) => bytes,
        Err(e) => {
            return Err(e.kind());
        },
    };
    let width: u16 = u16_at(pcs_buf, 0);
    let height: u16 = u16_at(pcs_buf, 2);
    let frame_rate: u8 = pcs_buf[4];
    if frame_rate != FRAME_RATE {
        return Err(ErrorKind::InvalidFlag);
    }
    let composition_number: u16 = u16_at(pcs_buf, 5);
    let composition_state = match CompositionState::try_from(pcs_buf[7]) {
        Ok(state) => state,
        Err(kind) => {
            return Err(kind);
        },
    };
    let palette_update_flag: u8 = pcs_buf[8];
    if palette_update_flag != 0x00 && palette_update_flag != PALETTE_UPDATE {
        return Err(ErrorKind::InvalidFlag);
    }
    let palette_id: u8 = pcs_buf[9];
    let number_of_composition_objects: u8 = pcs_buf[10];
    let ghost all = spec_window_infos(
        payload@.skip(PCS_LEN as int),
        number_of_composition_objects as nat,
    );
    let mut composition_objects: Vec<WindowInformationObject> = Vec::new();
    let mut read: u8 = 0;
    assert(prepend(composition_objects@, all) == all) by {
        if let Ok(objects) = all {
            assert(Seq::<WindowInformationObject>::empty() + objects =~= objects);
        }
    }
    while read < number_of_composition_objects
        invariant
            read <= number_of_composition_objects,
            reader.bytes() == payload@,
            all == prepend(
                composition_objects@,
                spec_window_infos(reader.rest(), (number_of_composition_objects - read) as nat),
            ),
        decreases number_of_composition_objects - read,
    {
        proof {
            lemma_window_infos_step(
                composition_objects@,
                reader.rest(),
                (number_of_composition_objects - read) as nat,
            );
        }
        let info = match read_window_info(&mut reader) {
            Ok(info) => info,
            Err(e) => {
                return Err(e.kind());
            },
        };
        composition_objects.push(info);
        read = read + 1;
    }
    Ok(
        PresentationCompositionSegment {
            width,
            height,
            frame_rate,
            composition_number,
            composition_state,
            palette_update_flag,
            palette_id,
            composition_objects,
        },
    )
}

/// Reads a composition segment's payload of `segments_size` bytes.
///
/// With fewer bytes left the cursor stays and the failure is `Truncated`.
/// Otherwise the cursor moves past the whole payload, whether its content
/// decodes or not, and a failure carries that position.
pub fn read_pcs(reader: &mut Reader, segments_size: usize) -> (r: Result<
    PresentationCompositionSegment,
    Error,
>)
    ensures
        final(reader).bytes() == old(reader).bytes(),
        match r {
            Ok(pcs) => {
                &&& segments_size <= old(reader).rest().len()
                &&& spec_pcs(old(reader).rest().take(segments_size as int)) == Ok::<_, ErrorKind>(
                    pcs@,
                )
                &&& final(reader).position() == old(reader).position() + segments_size
            },
            Err(e) => {
                &&& e.offset() == final(reader).position()
                &&& if segments_size > old(reader).rest().len() {
                    e.kind() == ErrorKind::Truncated && final(reader).position() == old(
                        reader,
                    ).position()
                } else {
                    &&& spec_pcs(old(reader).rest().take(segments_size as int)) == Err::<
                        CompositionView,
                        _,
                    >(e.kind())
                    &&& final(reader).position() == old(reader).position() + segments_size
                }
            },
        },
{
    let payload = match reader.read_exact(segments_size) {
        Ok(bytes) => bytes,
        Err(e) => {
            return Err(e);
        },
    };
    match parse_pcs(payload) {
        Ok(pcs) => Ok(pcs),
        Err(kind) => Err(kind.at(reader.stream_position())),
    }
}

} // verus!
