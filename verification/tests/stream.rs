use pgs_decoder::composition::WindowInformationObject;
use pgs_decoder::display_set::{Aggregator, TimeSpan, PLACEHOLDER_DURATION_MS};
use pgs_decoder::error::{Error, ErrorKind};
use pgs_decoder::reader::Reader;
use pgs_decoder::segment::{read_segment, SegmentHeader, SegmentType, SegmentTypeCode};
use pgs_decoder::stream::run;
use pgs_decoder::table::{find, put_entry, take_entry};
use pgs_decoder::window::WindowDefinitionSegment;

fn segment(pts: u32, code: u8, payload: &[u8]) -> Vec<u8> {
    let mut bytes = vec![0x50, 0x47];
    bytes.extend_from_slice(&pts.to_be_bytes());
    bytes.extend_from_slice(&[0, 0, 0, 0]);
    bytes.push(code);
    bytes.extend_from_slice(&(payload.len() as u16).to_be_bytes());
    bytes.extend_from_slice(payload);
    bytes
}

fn composition(pts: u32, state: u8, palette_id: u8) -> Vec<u8> {
    segment(
        pts,
        0x16,
        &[0x07, 0x80, 0x04, 0x38, 0x10, 0x00, 0x01, state, 0x00, palette_id, 0x00],
    )
}

fn window(id: u8, width: u16) -> Vec<u8> {
    let w = width.to_be_bytes();
    segment(0, 0x17, &[1, id, 0, 0, 0, 0, w[0], w[1], 0, 9])
}

fn palette(id: u8, version: u8, entries: &[[u8; 5]]) -> Vec<u8> {
    let mut payload = vec![id, version];
    for entry in entries {
        payload.extend_from_slice(entry);
    }
    segment(0, 0x14, &payload)
}

fn object(id: u16, flag: u8, declared: u32, width: u16, height: u16, data: &[u8]) -> Vec<u8> {
    let mut payload = Vec::new();
    payload.extend_from_slice(&id.to_be_bytes());
    payload.push(0);
    payload.push(flag);
    payload.extend_from_slice(&declared.to_be_bytes()[1..]);
    payload.extend_from_slice(&width.to_be_bytes());
    payload.extend_from_slice(&height.to_be_bytes());
    payload.extend_from_slice(data);
    segment(0, 0x15, &payload)
}

fn end() -> Vec<u8> {
    segment(0, 0x80, &[])
}

fn join(parts: &[Vec<u8>]) -> Vec<u8> {
    parts.iter().flatten().copied().collect()
}

fn win(id: u8, width: u16) -> WindowDefinitionSegment {
    WindowDefinitionSegment {
        number_of_windows: 1,
        window_id: id,
        window_horizontal_position: 0,
        window_vertical_position: 0,
        window_width: width,
        window_height: 9,
    }
}

#[test]
fn empty_stream_has_no_display_set() {
    assert!(run(&[]).unwrap().is_empty());
}

#[test]
fn one_epoch_gives_one_display_set() {
    let stream = join(&[
        composition(90 * 1000 + 89, 0x80, 3),
        window(1, 100),
        window(2, 200),
        palette(3, 0, &[[1, 16, 128, 128, 255], [9, 235, 128, 128, 255]]),
        object(7, 0xC0, 4 + 6, 6, 1, &[0x01, 0x00, 0x85, 0x09, 0x00, 0x00]),
        end(),
    ]);
    let sets = run(&stream).unwrap();
    assert_eq!(sets.len(), 1);
    let set = &sets[0];
    assert_eq!(
        set.time_span,
        TimeSpan {
            start_ms: 1000,
            end_ms: 2000
        }
    );
    assert_eq!(set.time_span.end_ms - set.time_span.start_ms, PLACEHOLDER_DURATION_MS);
    assert_eq!(set.windows, vec![win(1, 100), win(2, 200)]);
    let palette = set.palette.as_ref().unwrap();
    assert_eq!(palette.palette_id, 3);
    assert_eq!(palette.palette_entries.len(), 2);
    assert_eq!(palette.palette_entries[1].luminance, 235);
    assert_eq!(set.bitmaps.len(), 1);
    assert_eq!(set.bitmaps[0].object_id, 7);
    assert_eq!(set.bitmaps[0].width, 6);
    assert_eq!(set.bitmaps[0].height, 1);
    assert_eq!(set.bitmaps[0].pixels, vec![1, 9, 9, 9, 9, 9]);
}

#[test]
fn as_many_display_sets_as_end_segments() {
    for epochs in 0..5u32 {
        let mut parts = Vec::new();
        for i in 0..epochs {
            parts.push(composition(90 * 100 * i, 0x80, 0));
            parts.push(window(1, 10));
            parts.push(end());
        }
        let sets = run(&join(&parts)).unwrap();
        assert_eq!(sets.len() as u32, epochs);
        for (i, set) in sets.iter().enumerate() {
            assert_eq!(set.time_span.start_ms, 100 * i as i64);
            assert_eq!(set.time_span.end_ms, 100 * i as i64 + 1000);
        }
    }
}

#[test]
fn epoch_without_end_gives_no_display_set() {
    let stream = join(&[composition(0, 0x80, 0), window(1, 10)]);
    assert!(run(&stream).unwrap().is_empty());
}

#[test]
fn end_outside_an_epoch_is_unexpected() {
    assert_eq!(
        run(&end()).err(),
        Some(Error::UnexpectedSegment { offset: 13 })
    );
    let stream = join(&[composition(0, 0x80, 0), end(), end()]);
    assert_eq!(
        run(&stream).err(),
        Some(Error::UnexpectedSegment { offset: 24 + 13 + 13 })
    );
}

#[test]
fn composition_outside_an_epoch_must_start_one() {
    assert_eq!(
        run(&composition(0, 0x00, 0)).err(),
        Some(Error::UnexpectedSegment { offset: 24 })
    );
    assert_eq!(
        run(&composition(0, 0x40, 0)).err(),
        Some(Error::UnexpectedSegment { offset: 24 })
    );
    let stream = join(&[composition(0, 0x80, 0), end(), composition(0, 0x00, 0)]);
    assert_eq!(
        run(&stream).err(),
        Some(Error::UnexpectedSegment { offset: 24 + 13 + 24 })
    );
}

#[test]
fn composition_within_an_epoch_changes_the_palette_in_force() {
    let stream = join(&[
        composition(900, 0x80, 1),
        palette(1, 0, &[[1, 1, 1, 1, 1]]),
        palette(2, 0, &[[2, 2, 2, 2, 2]]),
        composition(9000, 0x00, 2),
        end(),
    ]);
    let sets = run(&stream).unwrap();
    assert_eq!(sets.len(), 1);
    assert_eq!(sets[0].time_span.start_ms, 10);
    assert_eq!(sets[0].palette.as_ref().unwrap().palette_id, 2);
    assert_eq!(sets[0].palette.as_ref().unwrap().palette_entries[0].luminance, 2);
}

#[test]
fn display_set_holds_the_objects_that_the_last_composition_places() {
    let placing = |pts: u32, state: u8, object_id: u8, x: u8| {
        segment(
            pts,
            0x16,
            &[
                0x07, 0x80, 0x04, 0x38, 0x10, 0x00, 0x01, state, 0x00, 0x00, 0x01, 0x00,
                object_id, 0x02, 0x00, 0x00, x, 0x00, 0x09,
            ],
        )
    };
    let placed = |object_id: u16, x: u16| WindowInformationObject {
        object_id,
        window_id: 2,
        object_cropped_flag: 0,
        object_horizontal_position: x,
        object_vertical_position: 9,
        object_cropping_info: None,
    };
    let stream = join(&[placing(0, 0x80, 7, 5), end()]);
    assert_eq!(run(&stream).unwrap()[0].composition_objects, vec![placed(7, 5)]);
    let stream = join(&[
        placing(0, 0x80, 7, 5),
        placing(0, 0x40, 8, 6),
        end(),
        composition(0, 0x80, 0),
        end(),
    ]);
    let sets = run(&stream).unwrap();
    assert_eq!(sets[0].composition_objects, vec![placed(8, 6)]);
    assert!(sets[1].composition_objects.is_empty());
}

#[test]
fn palette_in_force_may_be_missing() {
    let stream = join(&[
        composition(0, 0x80, 5),
        palette(1, 0, &[[1, 1, 1, 1, 1]]),
        end(),
    ]);
    let sets = run(&stream).unwrap();
    assert!(sets[0].palette.is_none());
}

#[test]
fn later_segment_replaces_the_entry_with_its_id() {
    let stream = join(&[
        composition(0, 0x80, 1),
        window(1, 10),
        window(2, 20),
        window(1, 30),
        palette(1, 0, &[[1, 1, 1, 1, 1]]),
        palette(1, 1, &[[1, 7, 1, 1, 1], [2, 8, 1, 1, 1]]),
        object(4, 0xC0, 5, 1, 1, &[0x11]),
        object(5, 0xC0, 5, 1, 1, &[0x22]),
        object(4, 0xC0, 6, 2, 1, &[0x33, 0x44]),
        end(),
    ]);
    let sets = run(&stream).unwrap();
    let set = &sets[0];
    assert_eq!(set.windows, vec![win(1, 30), win(2, 20)]);
    let palette = set.palette.as_ref().unwrap();
    assert_eq!(palette.palette_version_number, 1);
    assert_eq!(palette.palette_entries.len(), 2);
    assert_eq!(set.bitmaps.len(), 2);
    assert_eq!(set.bitmaps[0].object_id, 4);
    assert_eq!(set.bitmaps[0].pixels, vec![0x33, 0x44]);
    assert_eq!(set.bitmaps[1].object_id, 5);
    assert_eq!(set.bitmaps[1].pixels, vec![0x22]);
}

#[test]
fn epoch_start_clears_what_was_collected() {
    let stream = join(&[
        composition(0, 0x80, 1),
        window(1, 10),
        palette(1, 0, &[[1, 1, 1, 1, 1]]),
        object(4, 0xC0, 5, 1, 1, &[0x11]),
        object(6, 0x80, 6, 2, 1, &[0x11]),
        composition(450, 0x80, 1),
        window(2, 20),
        object(6, 0x40, 0, 0, 0, &[0x12]),
    ]);
    assert_eq!(
        run(&stream).err(),
        Some(Error::UnexpectedSegment { offset: stream.len() })
    );
    let stream = join(&[
        composition(0, 0x80, 1),
        window(1, 10),
        palette(1, 0, &[[1, 1, 1, 1, 1]]),
        object(4, 0xC0, 5, 1, 1, &[0x11]),
        composition(450, 0x80, 1),
        window(2, 20),
        end(),
    ]);
    let sets = run(&stream).unwrap();
    assert_eq!(sets.len(), 1);
    assert_eq!(sets[0].time_span.start_ms, 5);
    assert_eq!(sets[0].windows, vec![win(2, 20)]);
    assert!(sets[0].palette.is_none());
    assert!(sets[0].bitmaps.is_empty());
}

#[test]
fn segments_outside_an_epoch_are_passed_over() {
    let stream = join(&[
        window(1, 10),
        palette(1, 0, &[[1, 1, 1, 1, 1]]),
        object(4, 0xC0, 5, 1, 1, &[0x11]),
        object(5, 0x40, 0, 0, 0, &[0x11]),
        composition(0, 0x80, 1),
        end(),
    ]);
    let sets = run(&stream).unwrap();
    assert_eq!(sets.len(), 1);
    assert!(sets[0].windows.is_empty());
    assert!(sets[0].palette.is_none());
    assert!(sets[0].bitmaps.is_empty());
}

#[test]
fn fragments_are_joined_in_arrival_order_before_decoding() {
    // The run `00 85 09` is split between the two fragments.
    let stream = join(&[
        composition(0, 0x80, 0),
        object(7, 0x80, 4 + 5, 7, 1, &[0x01, 0x00, 0x85]),
        object(7, 0x40, 0, 0, 0, &[0x09, 0x02]),
        end(),
    ]);
    let sets = run(&stream).unwrap();
    assert_eq!(sets[0].bitmaps.len(), 1);
    assert_eq!(sets[0].bitmaps[0].object_id, 7);
    assert_eq!(sets[0].bitmaps[0].width, 7);
    assert_eq!(sets[0].bitmaps[0].height, 1);
    assert_eq!(sets[0].bitmaps[0].pixels, vec![1, 9, 9, 9, 9, 9, 2]);
}

#[test]
fn fragments_of_other_objects_may_come_between() {
    let stream = join(&[
        composition(0, 0x80, 0),
        object(7, 0x80, 4 + 2, 2, 1, &[0x0A]),
        object(8, 0x80, 4 + 2, 2, 1, &[0x0C]),
        object(7, 0x40, 0, 0, 0, &[0x0B]),
        object(8, 0x40, 0, 0, 0, &[0x0D]),
        end(),
    ]);
    let sets = run(&stream).unwrap();
    assert_eq!(sets[0].bitmaps.len(), 2);
    assert_eq!(sets[0].bitmaps[0].object_id, 7);
    assert_eq!(sets[0].bitmaps[0].pixels, vec![0x0A, 0x0B]);
    assert_eq!(sets[0].bitmaps[1].object_id, 8);
    assert_eq!(sets[0].bitmaps[1].pixels, vec![0x0C, 0x0D]);
}

#[test]
fn fragments_with_a_wrong_combined_length_are_inconsistent() {
    for declared in [4 + 4, 4 + 6, 0, 3] {
        let parts = [
            composition(0, 0x80, 0),
            object(7, 0x80, declared, 7, 1, &[0x01, 0x00, 0x85]),
            object(7, 0x40, 0, 0, 0, &[0x09, 0x02]),
        ];
        let stream = join(&parts);
        assert_eq!(
            run(&stream).err(),
            Some(Error::ArithmeticInconsistency { offset: stream.len() })
        );
    }
}

#[test]
fn last_fragment_without_a_first_is_unexpected() {
    let stream = join(&[
        composition(0, 0x80, 0),
        object(7, 0x80, 4 + 2, 2, 1, &[0x0A]),
        object(8, 0x40, 0, 0, 0, &[0x0B]),
    ]);
    assert_eq!(
        run(&stream).err(),
        Some(Error::UnexpectedSegment { offset: stream.len() })
    );
    let stream = join(&[
        composition(0, 0x80, 0),
        object(7, 0x80, 4 + 2, 2, 1, &[0x0A]),
        object(7, 0x40, 0, 0, 0, &[0x0B]),
        object(7, 0x40, 0, 0, 0, &[0x0B]),
    ]);
    assert_eq!(
        run(&stream).err(),
        Some(Error::UnexpectedSegment { offset: stream.len() })
    );
}

#[test]
fn object_whose_data_ends_inside_a_unit_is_truncated() {
    let stream = join(&[
        composition(0, 0x80, 0),
        object(7, 0xC0, 4 + 2, 2, 1, &[0x00, 0x85]),
        end(),
    ]);
    assert_eq!(
        run(&stream).err(),
        Some(Error::Truncated { offset: 24 + 13 + 13 })
    );
}

#[test]
fn incomplete_object_is_left_out() {
    let stream = join(&[
        composition(0, 0x80, 0),
        object(7, 0x80, 4 + 2, 2, 1, &[0x0A]),
        end(),
    ]);
    let sets = run(&stream).unwrap();
    assert!(sets[0].bitmaps.is_empty());
}

#[test]
fn failure_of_a_decoder_ends_the_run() {
    let mut stream = join(&[composition(0, 0x80, 0), end(), window(1, 10)]);
    stream[24 + 13] = 0x00;
    assert_eq!(
        run(&stream).err(),
        Some(Error::InvalidMagic { offset: 24 + 13 + 13 })
    );
    let stream = join(&[composition(0, 0x80, 0), end(), segment(0, 0x55, &[])]);
    assert_eq!(
        run(&stream).err(),
        Some(Error::InvalidSegmentType { offset: 24 + 13 + 13 })
    );
    let stream = join(&[composition(0, 0x80, 0), segment(0, 0x14, &[1, 2, 3]), end()]);
    assert_eq!(
        run(&stream).err(),
        Some(Error::ArithmeticInconsistency { offset: 24 + 16 })
    );
    let stream = join(&[composition(0, 0x80, 0), composition(0, 0x81, 0)]);
    assert_eq!(
        run(&stream).err(),
        Some(Error::InvalidFlag { offset: 48 })
    );
    let mut stream = join(&[composition(0, 0x80, 0), end()]);
    stream.extend_from_slice(&[0x50, 0x47, 0x00]);
    assert_eq!(
        run(&stream).err(),
        Some(Error::Truncated { offset: 24 + 13 })
    );
}

#[test]
fn machine_takes_segments_one_by_one() {
    let stream = join(&[composition(180, 0x80, 0), window(3, 30), end()]);
    let mut reader = Reader::new(&stream);
    let mut machine = Aggregator::new();
    assert!(!machine.in_epoch());
    assert_eq!(machine.emitted(), 0);
    let (header, first) = read_segment(&mut reader).unwrap();
    machine = machine.step(&header, first).unwrap();
    assert!(machine.in_epoch());
    let (header, second) = read_segment(&mut reader).unwrap();
    machine = machine.step(&header, second).unwrap();
    assert!(machine.in_epoch());
    assert_eq!(machine.emitted(), 0);
    let (header, third) = read_segment(&mut reader).unwrap();
    machine = machine.step(&header, third).unwrap();
    assert!(!machine.in_epoch());
    assert_eq!(machine.emitted(), 1);
    let sets = machine.finish();
    assert_eq!(sets[0].time_span, TimeSpan { start_ms: 2, end_ms: 1002 });
    assert_eq!(sets[0].windows, vec![win(3, 30)]);
}

#[test]
fn machine_refuses_an_end_before_any_epoch() {
    let header = SegmentHeader {
        pts: 0,
        dts: 0,
        type_code: SegmentTypeCode(0x80),
        size: 0,
    };
    assert_eq!(
        Aggregator::new().step(&header, SegmentType::End).err(),
        Some(ErrorKind::UnexpectedSegment)
    );
}

#[test]
fn table_puts_finds_and_takes_by_id() {
    let mut table: Vec<WindowDefinitionSegment> = Vec::new();
    assert_eq!(find(&table, 1), 0);
    put_entry(&mut table, win(1, 10));
    put_entry(&mut table, win(2, 20));
    put_entry(&mut table, win(3, 30));
    assert_eq!(find(&table, 1), 0);
    assert_eq!(find(&table, 3), 2);
    assert_eq!(find(&table, 4), 3);
    put_entry(&mut table, win(2, 25));
    assert_eq!(table, vec![win(1, 10), win(2, 25), win(3, 30)]);
    assert_eq!(take_entry(&mut table, 1), Some(win(1, 10)));
    assert_eq!(take_entry(&mut table, 1), None);
    assert_eq!(table, vec![win(2, 25), win(3, 30)]);
    put_entry(&mut table, win(1, 11));
    assert_eq!(table, vec![win(2, 25), win(3, 30), win(1, 11)]);
}
