//! The state machine that folds the segments of a stream into display sets.
//!
//! Outside an epoch the machine waits for a composition that starts one.
//! Within an epoch it collects windows, palettes and objects by their ids,
//! and puts the fragments of an object together. The End segment closes the
//! epoch: what was collected leaves the machine as one display set.

use vstd::prelude::*;
use crate::composition::{
    CompositionState,
    CompositionView,
    PresentationCompositionSegment,
    WindowInformationObject,
};
use crate::error::ErrorKind;
use crate::object::{
    LastInSequenceFlag,
    ObjectDefinitionSegment,
    ObjectView,
    DATA_LENGTH_OVERHEAD,
};
use crate::palette::{PaletteDefinitionSegment, PaletteView};
use crate::rle::{spec_decode_rle, try_decode_rle, well_formed};
use crate::segment::{SegmentHeader, SegmentType, SegmentView};
use crate::table::{
    lemma_put_then_lookup,
    lookup,
    put,
    put_entry,
    take_entry,
    views,
    without,
    Keyed,
};
use crate::window::WindowDefinitionSegment;

verus! {

/// The time for which a display set stays on the screen where the stream
/// does not say: one second.
pub const PLACEHOLDER_DURATION_MS: i64 = 1000;

/// The time for which a display set is shown, in milliseconds.
#[derive(Clone, Copy, Debug, PartialEq, Eq, Structural)]
pub struct TimeSpan {
    pub start_ms: i64,
    pub end_ms: i64,
}

/// The data of an object, run-length encoded, as far as its fragments have
/// arrived.
#[derive(Debug)]
pub struct PendingObject {
    pub object_id: u16,
    /// The declared length of the whole object's data, taken from its first
    /// fragment.
    pub declared_length: u32,
    pub width: u16,
    pub height: u16,
    /// The fragments' data, in the order of arrival.
    pub data: Vec<u8>,
}

/// A pending object as a mathematical value.
pub struct PendingView {
    pub object_id: u16,
    pub declared_length: int,
    pub width: u16,
    pub height: u16,
    pub data: Seq<u8>,
}

impl View for PendingObject {
    type V = PendingView;

    open spec fn view(&self) -> PendingView {
        PendingView {
            object_id: self.object_id,
            declared_length: self.declared_length as int,
            width: self.width,
            height: self.height,
            data: self.data@,
        }
    }
}

impl Keyed for PendingObject {
    open spec fn id_of(v: PendingView) -> int {
        v.object_id as int
    }

    fn id(&self) -> (id: u16) {
        self.object_id
    }
}

/// The decoded bitmap of an object: palette indices, row after row.
#[derive(Debug)]
pub struct ObjectBitmap {
    pub object_id: u16,
    pub width: u16,
    pub height: u16,
    pub pixels: Vec<u8>,
}

/// A decoded bitmap as a mathematical value.
pub struct BitmapView {
    pub object_id: u16,
    pub width: u16,
    pub height: u16,
    pub pixels: Seq<u8>,
}

impl View for ObjectBitmap {
    type V = BitmapView;

    open spec fn view(&self) -> BitmapView {
        BitmapView {
            object_id: self.object_id,
            width: self.width,
            height: self.height,
            pixels: self.pixels@,
        }
    }
}

impl Keyed for ObjectBitmap {
    open spec fn id_of(v: BitmapView) -> int {
        v.object_id as int
    }

    fn id(&self) -> (id: u16) {
        self.object_id
    }
}

/// What one epoch shows: when, in which windows, with which palette, and
/// the bitmaps of its objects.
#[derive(Debug)]
pub struct DisplaySet {
    pub time_span: TimeSpan,
    /// The objects that the epoch's last composition places on the screen.
    pub composition_objects: Vec<WindowInformationObject>,
    /// The windows of the epoch, in the order in which their ids arrived.
    pub windows: Vec<WindowDefinitionSegment>,
    /// The palette that the epoch's last composition names, where the epoch
    /// defined it.
    pub palette: Option<PaletteDefinitionSegment>,
    /// The complete objects of the epoch, in the order in which their ids
    /// were first completed.
    pub bitmaps: Vec<ObjectBitmap>,
}

/// A display set as a mathematical value.
pub struct DisplaySetView {
    pub time_span: TimeSpan,
    pub composition_objects: Seq<WindowInformationObject>,
    pub windows: Seq<WindowDefinitionSegment>,
    pub palette: Option<PaletteView>,
    pub bitmaps: Seq<BitmapView>,
}

impl View for DisplaySet {
    type V = DisplaySetView;

    open spec fn view(&self) -> DisplaySetView {
        DisplaySetView {
            time_span: self.time_span,
            composition_objects: self.composition_objects@,
            windows: views(self.windows@),
            palette: match self.palette {
                Some(palette) => Some(palette@),
                None => None,
            },
            bitmaps: views(self.bitmaps@),
        }
    }
}

/// The state of the machine as a mathematical value.
pub struct AggregatorView {
    /// Whether an epoch is running.
    pub in_epoch: bool,
    /// The presentation time of the composition that started the epoch, in
    /// milliseconds.
    pub start_ms: u32,
    /// The palette that the epoch's last composition names.
    pub palette_id: u8,
    /// The objects that the epoch's last composition places.
    pub composition_objects: Seq<WindowInformationObject>,
    pub windows: Seq<WindowDefinitionSegment>,
    pub palettes: Seq<PaletteView>,
    pub pending: Seq<PendingView>,
    pub bitmaps: Seq<BitmapView>,
    /// The display sets of the epochs that have ended.
    pub output: Seq<DisplaySetView>,
}

/// The state before the first segment: no epoch, nothing collected.
pub open spec fn spec_initial() -> AggregatorView {
    AggregatorView {
        in_epoch: false,
        start_ms: 0,
        palette_id: 0,
        composition_objects: Seq::empty(),
        windows: Seq::empty(),
        palettes: Seq::empty(),
        pending: Seq::empty(),
        bitmaps: Seq::empty(),
        output: Seq::empty(),
    }
}

/// A composition that starts an epoch empties the tables and sets the start
/// time. Any other composition needs a running epoch. Either way the
/// composition says which palette is in force and which objects are placed.
pub open spec fn spec_on_composition(
    state: AggregatorView,
    header: SegmentHeader,
    pcs: CompositionView,
) -> Result<AggregatorView, ErrorKind> {
    if pcs.composition_state == CompositionState::EpochStart {
        Ok(
            AggregatorView {
                in_epoch: true,
                start_ms: header.presentation_time(),
                palette_id: pcs.palette_id,
                composition_objects: pcs.composition_objects,
                windows: Seq::empty(),
                palettes: Seq::empty(),
                pending: Seq::empty(),
                bitmaps: Seq::empty(),
                output: state.output,
            },
        )
    } else if !state.in_epoch {
        Err(ErrorKind::UnexpectedSegment)
    } else {
        Ok(
            AggregatorView {
                palette_id: pcs.palette_id,
                composition_objects: pcs.composition_objects,
                ..state
            },
        )
    }
}

/// An object whose data is all there is decoded and put among the bitmaps.
/// Its data must be four bytes shorter than the declared length, and every
/// unit of it must be complete.
pub open spec fn spec_complete(state: AggregatorView, object: PendingView) -> Result<
    AggregatorView,
    ErrorKind,
> {
    if object.data.len() != object.declared_length - DATA_LENGTH_OVERHEAD {
        Err(ErrorKind::ArithmeticInconsistency)
    } else if !well_formed(object.data) {
        Err(ErrorKind::Truncated)
    } else {
        Ok(
            AggregatorView {
                bitmaps: put::<ObjectBitmap>(
                    state.bitmaps,
                    BitmapView {
                        object_id: object.object_id,
                        width: object.width,
                        height: object.height,
                        pixels: spec_decode_rle(object.data),
                    },
                ),
                ..state
            },
        )
    }
}

/// Within an epoch, a first fragment is kept under its object's id, a last
/// fragment is put behind what is kept under its id and completes the
/// object, and a segment that holds a whole object completes it at once. A
/// last fragment with no first is refused. Outside an epoch objects are
/// passed over.
pub open spec fn spec_on_object(state: AggregatorView, ods: ObjectView) -> Result<
    AggregatorView,
    ErrorKind,
> {
    let arrived = PendingView {
        object_id: ods.object_id,
        declared_length: ods.object_data_length,
        width: ods.width,
        height: ods.height,
        data: ods.object_data,
    };
    if !state.in_epoch {
        Ok(state)
    } else {
        match ods.last_in_sequence_flag {
            LastInSequenceFlag::FirstInSequence => Ok(
                AggregatorView { pending: put::<PendingObject>(state.pending, arrived), ..state },
            ),
            LastInSequenceFlag::FirstAndLastInSequence => spec_complete(state, arrived),
            LastInSequenceFlag::LastInSequence => match lookup::<PendingObject>(
                state.pending,
                ods.object_id as int,
            ) {
                None => Err(ErrorKind::UnexpectedSegment),
                Some(kept) => spec_complete(
                    AggregatorView {
                        pending: without::<PendingObject>(state.pending, ods.object_id as int),
                        ..state
                    },
                    PendingView { data: kept.data + ods.object_data, ..kept },
                ),
            },
        }
    }
}

/// The End segment needs a running epoch. It ends the epoch: the placed
/// objects, the windows, the palette in force and the bitmaps leave the
/// machine as one display set that lasts from the epoch's start for the
/// placeholder duration.
pub open spec fn spec_on_end(state: AggregatorView) -> Result<AggregatorView, ErrorKind> {
    if !state.in_epoch {
        Err(ErrorKind::UnexpectedSegment)
    } else {
        Ok(
            AggregatorView {
                in_epoch: false,
                start_ms: state.start_ms,
                palette_id: state.palette_id,
                composition_objects: Seq::empty(),
                windows: Seq::empty(),
                palettes: Seq::empty(),
                pending: Seq::empty(),
                bitmaps: Seq::empty(),
                output: state.output.push(
                    DisplaySetView {
                        time_span: TimeSpan {
                            start_ms: state.start_ms as i64,
                            end_ms: (state.start_ms + PLACEHOLDER_DURATION_MS) as i64,
                        },
                        composition_objects: state.composition_objects,
                        windows: state.windows,
                        palette: lookup::<PaletteDefinitionSegment>(
                            state.palettes,
                            state.palette_id as int,
                        ),
                        bitmaps: state.bitmaps,
                    },
                ),
            },
        )
    }
}

/// The state that follows `state` when a segment arrives, or the failure
/// that ends the run. Windows and palettes go into their tables within an
/// epoch and are passed over outside one.
pub open spec fn spec_step(state: AggregatorView, header: SegmentHeader, segment: SegmentView)
    -> Result<AggregatorView, ErrorKind> {
    match segment {
        SegmentView::Pcs(pcs) => spec_on_composition(state, header, pcs),
        SegmentView::Wds(wds) => if state.in_epoch {
            Ok(AggregatorView { windows: put::<WindowDefinitionSegment>(state.windows, wds), ..state })
        } else {
            Ok(state)
        },
        SegmentView::Pds(pds) => if state.in_epoch {
            Ok(
                AggregatorView {
                    palettes: put::<PaletteDefinitionSegment>(state.palettes, pds),
                    ..state
                },
            )
        } else {
            Ok(state)
        },
        SegmentView::Ods(ods) => spec_on_object(state, ods),
        SegmentView::End => spec_on_end(state),
    }
}

/// Within an epoch, a first and a last fragment of one object are put
/// together in the order of their arrival before anything is decoded. The
/// length that counts is the one that the first fragment declares: where
/// the data of both is not four bytes shorter, the last fragment is refused
/// as inconsistent. Where it is, and its units are complete, the object's
/// bitmap is what the joined data decodes to.
pub proof fn lemma_fragments_joined(state: AggregatorView, first: ObjectView, last: ObjectView)
    requires
        state.in_epoch,
        first.last_in_sequence_flag == LastInSequenceFlag::FirstInSequence,
        last.last_in_sequence_flag == LastInSequenceFlag::LastInSequence,
        first.object_id == last.object_id,
    ensures
        spec_on_object(state, first) is Ok,
        ({
            let kept = spec_on_object(state, first)->Ok_0;
            let joined = first.object_data + last.object_data;
            let outcome = spec_on_object(kept, last);
            &&& joined.len() != first.object_data_length - DATA_LENGTH_OVERHEAD ==> outcome
                == Err::<AggregatorView, _>(ErrorKind::ArithmeticInconsistency)
            &&& joined.len() == first.object_data_length - DATA_LENGTH_OVERHEAD && !well_formed(
                joined,
            ) ==> outcome == Err::<AggregatorView, _>(ErrorKind::Truncated)
            &&& joined.len() == first.object_data_length - DATA_LENGTH_OVERHEAD && well_formed(
                joined,
            ) ==> outcome is Ok && lookup::<ObjectBitmap>(
                outcome->Ok_0.bitmaps,
                first.object_id as int,
            ) == Some(
                BitmapView {
                    object_id: first.object_id,
                    width: first.width,
                    height: first.height,
                    pixels: spec_decode_rle(joined),
                },
            )
        }),
{
    let arrived = PendingView {
        object_id: first.object_id,
        declared_length: first.object_data_length,
        width: first.width,
        height: first.height,
        data: first.object_data,
    };
    lemma_put_then_lookup::<PendingObject>(state.pending, arrived);
    let kept = spec_on_object(state, first)->Ok_0;
    let joined = first.object_data + last.object_data;
    let before = AggregatorView {
        pending: without::<PendingObject>(kept.pending, last.object_id as int),
        ..kept
    };
    lemma_put_then_lookup::<ObjectBitmap>(
        before.bitmaps,
        BitmapView {
            object_id: first.object_id,
            width: first.width,
            height: first.height,
            pixels: spec_decode_rle(joined),
        },
    );
}

/// The machine that collects the segments of one stream.
#[derive(Debug)]
pub struct Aggregator {
    in_epoch: bool,
    start_ms: u32,
    palette_id: u8,
    composition_objects: Vec<WindowInformationObject>,
    windows: Vec<WindowDefinitionSegment>,
    palettes: Vec<PaletteDefinitionSegment>,
    pending: Vec<PendingObject>,
    bitmaps: Vec<ObjectBitmap>,
    output: Vec<DisplaySet>,
}

impl View for Aggregator {
    type V = AggregatorView;

    closed spec fn view(&self) -> AggregatorView {
        AggregatorView {
            in_epoch: self.in_epoch,
            start_ms: self.start_ms,
            palette_id: self.palette_id,
            composition_objects: self.composition_objects@,
            windows: views(self.windows@),
            palettes: views(self.palettes@),
            pending: views(self.pending@),
            bitmaps: views(self.bitmaps@),
            output: views(self.output@),
        }
    }
}

impl Aggregator {
    /// A machine that has seen no segment.
    pub fn new() -> (r: Self)
        ensures
            r@ == spec_initial(),
    {
        let r = Aggregator {
            in_epoch: false,
            start_ms: 0,
            palette_id: 0,
            composition_objects: Vec::new(),
            windows: Vec::new(),
            palettes: Vec::new(),
            pending: Vec::new(),
            bitmaps: Vec::new(),
            output: Vec::new(),
        };
        proof {
            assert(r@.windows =~= Seq::empty());
            assert(r@.palettes =~= Seq::empty());
            assert(r@.pending =~= Seq::empty());
            assert(r@.bitmaps =~= Seq::empty());
            assert(r@.output =~= Seq::empty());
        }
        r
    }

    /// Whether an epoch is running.
    pub fn in_epoch(&self) -> (r: bool)
        ensures
            r == self@.in_epoch,
    {
        self.in_epoch
    }

    /// The number of display sets that have left the machine.
    pub fn emitted(&self) -> (n: usize)
        ensures
            n == self@.output.len(),
    {
        self.output.len()
    }

    /// Ends the run and hands over the display sets of the epochs that have
    /// ended, in the order in which they ended.
    pub fn finish(self) -> (sets: Vec<DisplaySet>)
        ensures
            views(sets@) == self@.output,
    {
        self.output
    }

    fn on_composition(self, header: &SegmentHeader, pcs: PresentationCompositionSegment) -> (r:
        Result<Self, ErrorKind>)
        ensures
            match r {
                Ok(next) => spec_on_composition(self@, *header, pcs@) == Ok::<_, ErrorKind>(next@),
                Err(kind) => spec_on_composition(self@, *header, pcs@) == Err::<AggregatorView, _>(
                    kind,
                ),
            },
    {
        match pcs.composition_state {
            CompositionState::EpochStart => {
                let next = Aggregator {
                    in_epoch: true,
                    start_ms: header.presentation_time(),
                    palette_id: pcs.palette_id,
                    composition_objects: pcs.composition_objects,
                    windows: Vec::new(),
                    palettes: Vec::new(),
                    pending: Vec::new(),
                    bitmaps: Vec::new(),
                    output: self.output,
                };
                proof {
                    assert(next@.windows =~= Seq::empty());
                    assert(next@.palettes =~= Seq::empty());
                    assert(next@.pending =~= Seq::empty());
                    assert(next@.bitmaps =~= Seq::empty());
                }
                Ok(next)
            },
            _ => {
                if !self.in_epoch {
                    return Err(ErrorKind::UnexpectedSegment);
                }
                let mut next = self;
                next.palette_id = pcs.palette_id;
                next.composition_objects = pcs.composition_objects;
                Ok(next)
            },
        }
    }

    fn complete(self, object: PendingObject) -> (r: Result<Self, ErrorKind>)
        ensures
            match r {
                Ok(next) => spec_complete(self@, object@) == Ok::<_, ErrorKind>(next@),
                Err(kind) => spec_complete(self@, object@) == Err::<AggregatorView, _>(kind),
            },
    {
        if object.declared_length < DATA_LENGTH_OVERHEAD || (object.declared_length
            - DATA_LENGTH_OVERHEAD) as usize != object.data.len() {
            return Err(ErrorKind::ArithmeticInconsistency);
        }
        let pixels = match try_decode_rle(object.data.as_slice()) {
            Ok(pixels) => pixels,
            Err(_) => {
                return Err(ErrorKind::Truncated);
            },
        };
        let bitmap = ObjectBitmap {
            object_id: object.object_id,
            width: object.width,
            height: object.height,
            pixels,
        };
        let mut next = self;
        put_entry(&mut next.bitmaps, bitmap);
        Ok(next)
    }

    fn on_object(self, ods: ObjectDefinitionSegment) -> (r: Result<Self, ErrorKind>)
        ensures
            match r {
                Ok(next) => spec_on_object(self@, ods@) == Ok::<_, ErrorKind>(next@),
                Err(kind) => spec_on_object(self@, ods@) == Err::<AggregatorView, _>(kind),
            },
    {
        if !self.in_epoch {
            return Ok(self);
        }
        let flag = ods.last_in_sequence_flag;
        let object_id: u16 = ods.object_id;
        let mut data: Vec<u8> = ods.object_data;
        let arrived = PendingObject {
            object_id,
            declared_length: ods.object_data_length.to_u32(),
            width: ods.width,
            height: ods.height,
            data: Vec::new(),
        };
        match flag {
            LastInSequenceFlag::FirstInSequence => {
                let mut next = self;
                put_entry(&mut next.pending, PendingObject { data, ..arrived });
                Ok(next)
            },
            LastInSequenceFlag::FirstAndLastInSequence => self.complete(
                PendingObject { data, ..arrived },
            ),
            LastInSequenceFlag::LastInSequence => {
                let mut next = self;
                match take_entry(&mut next.pending, object_id) {
                    None => Err(ErrorKind::UnexpectedSegment),
                    Some(kept) => {
                        let mut whole = kept;
                        whole.data.append(&mut data);
                        next.complete(whole)
                    },
                }
            },
        }
    }

    fn on_end(self) -> (r: Result<Self, ErrorKind>)
        ensures
            match r {
                Ok(next) => spec_on_end(self@) == Ok::<_, ErrorKind>(next@),
                Err(kind) => spec_on_end(self@) == Err::<AggregatorView, _>(kind),
            },
    {
        if !self.in_epoch {
            return Err(ErrorKind::UnexpectedSegment);
        }
        let mut state = self;
        let palette = take_entry(&mut state.palettes, state.palette_id as u16);
        let start_ms: i64 = state.start_ms as i64;
        let set = DisplaySet {
            time_span: TimeSpan { start_ms, end_ms: start_ms + PLACEHOLDER_DURATION_MS },
            composition_objects: state.composition_objects,
            windows: state.windows,
            palette,
            bitmaps: state.bitmaps,
        };
        let ghost closed = set@;
        let mut output = state.output;
        output.push(set);
        let next = Aggregator {
            in_epoch: false,
            start_ms: state.start_ms,
            palette_id: state.palette_id,
            composition_objects: Vec::new(),
            windows: Vec::new(),
            palettes: Vec::new(),
            pending: Vec::new(),
            bitmaps: Vec::new(),
            output,
        };
        proof {
            assert(next@.windows =~= Seq::empty());
            assert(next@.palettes =~= Seq::empty());
            assert(next@.pending =~= Seq::empty());
            assert(next@.bitmaps =~= Seq::empty());
            assert(next@.output =~= self@.output.push(closed));
        }
        Ok(next)
    }

    /// Takes in the next segment of the stream and gives the state that
    /// follows, or the failure that ends the run.
    pub fn step(self, header: &SegmentHeader, segment: SegmentType) -> (r: Result<Self, ErrorKind>)
        ensures
            match r {
                Ok(next) => spec_step(self@, *header, segment@) == Ok::<_, ErrorKind>(next@),
                Err(kind) => spec_step(self@, *header, segment@) == Err::<AggregatorView, _>(kind),
            },
    {
        match segment {
            SegmentType::Pcs(pcs) => self.on_composition(header, pcs),
            SegmentType::Wds(wds) => {
                let mut next = self;
                if next.in_epoch {
                    put_entry(&mut next.windows, wds);
                }
                Ok(next)
            },
            SegmentType::Pds(pds) => {
                let mut next = self;
                if next.in_epoch {
                    put_entry(&mut next.palettes, pds);
                }
                Ok(next)
            },
            SegmentType::Ods(ods) => self.on_object(ods),
            SegmentType::End => self.on_end(),
        }
    }
}

} // verus!
