use pgs_decoder::error::Error;
use pgs_decoder::rle::{decode_rle, is_color, is_long, read_unit, try_decode_rle, RleUnit};

#[test]
fn literal_byte_is_one_pixel_of_its_own_colour() {
    assert_eq!(decode_rle(&[0x07]), vec![0x07]);
    assert_eq!(try_decode_rle(&[0x07]), Ok(vec![0x07]));
    assert_eq!(
        read_unit(&[0x07], 0),
        Ok(RleUnit { length: 1, color: 0x07, consumed: 1 })
    );
}

#[test]
fn literal_bytes_decode_to_themselves() {
    let data = [0x01, 0xFF, 0x80, 0x40, 0x7F];
    assert_eq!(decode_rle(&data), data.to_vec());
}

#[test]
fn short_run_with_explicit_colour() {
    // Colour bit set, long bit clear, length bits 5.
    let data = [0x00, 0x85, 0x09];
    assert_eq!(decode_rle(&data), vec![9, 9, 9, 9, 9]);
    assert_eq!(
        read_unit(&data, 0),
        Ok(RleUnit { length: 5, color: 9, consumed: 3 })
    );
}

#[test]
fn control_byte_with_both_bits_is_a_long_colour_run() {
    // 0xC5 has bit 7 and bit 6 set: the length takes a second byte and a
    // colour byte follows, four bytes in all.
    assert!(is_color(0xC5));
    assert!(is_long(0xC5));
    assert_eq!(
        try_decode_rle(&[0x00, 0xC5, 0x09]),
        Err(Error::Truncated { offset: 0 })
    );
    let data = [0x00, 0xC5, 0x09, 0x07];
    assert_eq!(
        read_unit(&data, 0),
        Ok(RleUnit { length: 0x0509, color: 7, consumed: 4 })
    );
    assert_eq!(decode_rle(&data), vec![7u8; 0x0509]);
}

#[test]
fn long_run_with_default_colour() {
    // Colour bit clear, long bit set, high length bits 1, low byte 2.
    let data = [0x00, 0x41, 0x02];
    let pixels = decode_rle(&data);
    assert_eq!(pixels.len(), 258);
    assert!(pixels.iter().all(|&p| p == 0));
    assert_eq!(
        read_unit(&data, 0),
        Ok(RleUnit { length: 258, color: 0, consumed: 3 })
    );
}

#[test]
fn long_run_length_is_high_bits_then_low_byte() {
    assert_eq!(read_unit(&[0x00, 0x7F, 0xFF], 0).unwrap().length, 0x3FFF);
    assert_eq!(read_unit(&[0x00, 0x40, 0x01], 0).unwrap().length, 1);
    assert_eq!(read_unit(&[0x00, 0x42, 0x00], 0).unwrap().length, 0x0200);
    assert_eq!(read_unit(&[0x00, 0x42, 0x03], 0).unwrap().length, 0x0203);
}

#[test]
fn short_run_with_default_colour() {
    let data = [0x00, 0x03];
    assert_eq!(decode_rle(&data), vec![0, 0, 0]);
    assert_eq!(
        read_unit(&data, 0),
        Ok(RleUnit { length: 3, color: 0, consumed: 2 })
    );
    assert_eq!(decode_rle(&[0x00, 0x3F]).len(), 63);
}

#[test]
fn end_of_line_marker_emits_nothing_and_takes_two_bytes() {
    let data = [0x00, 0x00];
    assert_eq!(decode_rle(&data), Vec::<u8>::new());
    assert_eq!(
        read_unit(&data, 0),
        Ok(RleUnit { length: 0, color: 0, consumed: 2 })
    );
}

#[test]
fn end_of_line_marker_does_not_pad_the_row() {
    let data = [0x05, 0x00, 0x00, 0x06];
    assert_eq!(decode_rle(&data), vec![5, 6]);
}

#[test]
fn empty_stream_decodes_to_nothing() {
    assert_eq!(decode_rle(&[]), Vec::<u8>::new());
    assert_eq!(try_decode_rle(&[]), Ok(Vec::new()));
}

#[test]
fn units_follow_one_another() {
    let data = [
        0x01, // one pixel of colour 1
        0x00, 0x82, 0x0A, // two pixels of colour 10
        0x00, 0x00, // end of line
        0x00, 0x02, // two pixels of colour 0
        0x00, 0x40, 0x03, // three pixels of colour 0
        0x00, 0xC0, 0x02, 0x0B, // two pixels of colour 11
        0xFE, // one pixel of colour 254
    ];
    assert_eq!(
        decode_rle(&data),
        vec![1, 10, 10, 0, 0, 0, 0, 0, 11, 11, 254]
    );
    assert_eq!(read_unit(&data, 1).unwrap().consumed, 3);
    assert_eq!(read_unit(&data, 4).unwrap().consumed, 2);
    assert_eq!(read_unit(&data, 11).unwrap().consumed, 4);
    assert_eq!(read_unit(&data, 15).unwrap().consumed, 1);
}

#[test]
fn stream_cut_inside_a_unit_is_truncated() {
    assert_eq!(try_decode_rle(&[0x00]), Err(Error::Truncated { offset: 0 }));
    assert_eq!(
        try_decode_rle(&[0x07, 0x00]),
        Err(Error::Truncated { offset: 1 })
    );
    assert_eq!(
        try_decode_rle(&[0x07, 0x08, 0x00, 0x41]),
        Err(Error::Truncated { offset: 2 })
    );
    assert_eq!(
        try_decode_rle(&[0x00, 0x00, 0x00, 0x85]),
        Err(Error::Truncated { offset: 2 })
    );
    assert_eq!(
        try_decode_rle(&[0x00, 0xC1, 0x00]),
        Err(Error::Truncated { offset: 0 })
    );
}

#[test]
fn no_unit_begins_behind_the_stream() {
    assert_eq!(read_unit(&[], 0), Err(Error::Truncated { offset: 0 }));
    assert_eq!(read_unit(&[1, 2], 2), Err(Error::Truncated { offset: 2 }));
    assert_eq!(read_unit(&[1, 2], 9), Err(Error::Truncated { offset: 9 }));
}

#[test]
fn control_byte_bits() {
    assert!(is_color(0x80));
    assert!(is_color(0xFF));
    assert!(!is_color(0x7F));
    assert!(!is_color(0x40));
    assert!(is_long(0x40));
    assert!(is_long(0xC0));
    assert!(is_long(0x7F));
    assert!(!is_long(0x80));
    assert!(!is_long(0x3F));
    assert!(!is_long(0xBF));
}
