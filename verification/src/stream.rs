//! Decoding a whole stream: segment after segment, from the first byte to
//! the last, into the display sets of its epochs.

use vstd::prelude::*;
use crate::display_set::{
    spec_initial,
    spec_step,
    Aggregator,
    AggregatorView,
    DisplaySet,
    DisplaySetView,
};
use crate::error::Error;
use crate::reader::Reader;
use crate::segment::{read_segment, spec_segment_at, SegmentHeader, SegmentView, HEADER_LEN};
use crate::table::views;

verus! {

/// What decoding gives from offset `pos` on, with the machine in the state
/// `state`: the display sets of all epochs that end before the stream does,
/// or the first failure. A failure of the machine carries the offset behind
/// the segment that it refused.
pub open spec fn spec_run_from(bytes: Seq<u8>, pos: int, state: AggregatorView) -> Result<
    Seq<DisplaySetView>,
    Error,
>
    decreases bytes.len() - pos,
{
    if pos < 0 || pos >= bytes.len() {
        Ok(state.output)
    } else {
        match spec_segment_at(bytes, pos) {
            Err(e) => Err(e),
            Ok(record) => match spec_step(state, record.header, record.body) {
                Err(kind) => Err(kind.at(record.end as usize)),
                Ok(next) => spec_run_from(bytes, record.end, next),
            },
        }
    }
}

/// What decoding the stream `bytes` gives.
pub open spec fn spec_run(bytes: Seq<u8>) -> Result<Seq<DisplaySetView>, Error> {
    spec_run_from(bytes, 0, spec_initial())
}

/// The number of End segments that decoding meets within an epoch from
/// offset `pos` on, with the machine in the state `state`, up to the end of
/// the stream or the first failure.
pub open spec fn spec_ends_in_epoch_from(bytes: Seq<u8>, pos: int, state: AggregatorView) -> nat
    decreases bytes.len() - pos,
{
    if pos < 0 || pos >= bytes.len() {
        0
    } else {
        match spec_segment_at(bytes, pos) {
            Err(e) => 0,
            Ok(record) => match spec_step(state, record.header, record.body) {
                Err(kind) => 0,
                Ok(next) => {
                    let here: nat = if record.body is End && state.in_epoch {
                        1
                    } else {
                        0
                    };
                    here + spec_ends_in_epoch_from(bytes, record.end, next)
                },
            },
        }
    }
}

/// The number of End segments from offset `pos` on, up to the end of the
/// stream or the first segment that does not decode.
pub open spec fn spec_end_segments_from(bytes: Seq<u8>, pos: int) -> nat
    decreases bytes.len() - pos,
{
    if pos < 0 || pos >= bytes.len() {
        0
    } else {
        match spec_segment_at(bytes, pos) {
            Err(e) => 0,
            Ok(record) => {
                let here: nat = if record.body is End {
                    1
                } else {
                    0
                };
                here + spec_end_segments_from(bytes, record.end)
            },
        }
    }
}

/// A segment that decodes takes up the thirteen bytes of its header and as
/// many bytes of payload as the header says, whatever the payload holds.
pub proof fn lemma_segment_extent(bytes: Seq<u8>, pos: int)
    requires
        spec_segment_at(bytes, pos) is Ok,
    ensures
        spec_segment_at(bytes, pos)->Ok_0.end == pos + HEADER_LEN + spec_segment_at(
            bytes,
            pos,
        )->Ok_0.header.size,
        spec_segment_at(bytes, pos)->Ok_0.end <= bytes.len(),
{
}

/// A step of the machine adds one display set where the segment is an End
/// segment, and none otherwise. An End segment is only taken within an
/// epoch.
pub proof fn lemma_step_emits(
    state: AggregatorView,
    header: SegmentHeader,
    segment: SegmentView,
)
    requires
        spec_step(state, header, segment) is Ok,
    ensures
        segment is End ==> state.in_epoch,
        spec_step(state, header, segment)->Ok_0.output.len() == state.output.len() + (if segment is End {
            1int
        } else {
            0
        }),
{
}

/// Where decoding succeeds, it gives one display set for every End segment
/// met within an epoch, and every End segment of the stream is met within
/// an epoch.
pub proof fn lemma_one_display_set_per_end(bytes: Seq<u8>, pos: int, state: AggregatorView)
    requires
        spec_run_from(bytes, pos, state) is Ok,
    ensures
        spec_run_from(bytes, pos, state)->Ok_0.len() == state.output.len()
            + spec_ends_in_epoch_from(bytes, pos, state),
        spec_ends_in_epoch_from(bytes, pos, state) == spec_end_segments_from(bytes, pos),
    decreases bytes.len() - pos,
{
    if pos < 0 || pos >= bytes.len() {
    } else {
        let record = spec_segment_at(bytes, pos)->Ok_0;
        let next = spec_step(state, record.header, record.body)->Ok_0;
        lemma_step_emits(state, record.header, record.body);
        lemma_segment_extent(bytes, pos);
        lemma_one_display_set_per_end(bytes, record.end, next);
    }
}

/// Decodes a whole stream into the display sets of its epochs, in the order
/// in which the epochs end. The first failure ends the run, and nothing of
/// what was decoded before it is handed over.
pub fn run(data: &[u8]) -> (r: Result<Vec<DisplaySet>, Error>)
    ensures
        match r {
            Ok(sets) => {
                &&& spec_run(data@) == Ok::<_, Error>(views(sets@))
                &&& sets@.len() == spec_ends_in_epoch_from(data@, 0, spec_initial())
                &&& sets@.len() == spec_end_segments_from(data@, 0)
            },
            Err(e) => spec_run(data@) == Err::<Seq<DisplaySetView>, _>(e),
        },
{
    let mut reader = Reader::new(data);
    let mut aggregator = Aggregator::new();
    while reader.remaining() > 0
        invariant
            reader.bytes() == data@,
            spec_run_from(data@, reader.position(), aggregator@) == spec_run(data@),
        decreases reader.bytes().len() - reader.position(),
    {
        let at: usize = reader.stream_position();
        proof {
            if spec_segment_at(data@, at as int) is Ok {
                lemma_segment_extent(data@, at as int);
            }
        }
        let (header, segment) = match read_segment(&mut reader) {
            Ok(read) => read,
            Err(e) => {
                return Err(e);
            },
        };
        let end: usize = reader.stream_position();
        aggregator = match aggregator.step(&header, segment) {
            Ok(next) => next,
            Err(kind) => {
                return Err(kind.at(end));
            },
        };
    }
    proof {
        lemma_one_display_set_per_end(data@, 0, spec_initial());
    }
    Ok(aggregator.finish())
}

} // verus!
