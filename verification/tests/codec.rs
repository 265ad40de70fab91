use pgs_decoder::codec::{decode_u16, decode_u24, decode_u32, u16_at, u24_at, u32_at};
use pgs_decoder::error::{Error, ErrorKind};
use pgs_decoder::u24::u24;

#[test]
fn u16_is_big_endian() {
    assert_eq!(decode_u16(&[0x07, 0x80]), Some(0x0780));
    assert_eq!(decode_u16(&[0xFF, 0xFF]), Some(0xFFFF));
    assert_eq!(decode_u16(&[0x00, 0x01]), Some(1));
}

#[test]
fn u16_needs_exactly_two_bytes() {
    assert_eq!(decode_u16(&[]), None);
    assert_eq!(decode_u16(&[1]), None);
    assert_eq!(decode_u16(&[1, 2, 3]), None);
}

#[test]
fn u32_is_big_endian() {
    assert_eq!(decode_u32(&[0x01, 0x02, 0x03, 0x04]), Some(0x0102_0304));
    assert_eq!(decode_u32(&[0xFF, 0xFF, 0xFF, 0xFF]), Some(u32::MAX));
    assert_eq!(decode_u32(&[0, 0, 0, 90]), Some(90));
}

#[test]
fn u32_needs_exactly_four_bytes() {
    assert_eq!(decode_u32(&[1, 2, 3]), None);
    assert_eq!(decode_u32(&[1, 2, 3, 4, 5]), None);
}

#[test]
fn u24_is_big_endian_and_needs_exactly_three_bytes() {
    assert_eq!(decode_u24(&[0x01, 0x02, 0x03]).unwrap().to_u32(), 0x01_0203);
    assert_eq!(decode_u24(&[0xFF, 0x00, 0x00]).unwrap().to_u32(), 0xFF_0000);
    assert!(decode_u24(&[1, 2]).is_none());
    assert!(decode_u24(&[1, 2, 3, 4]).is_none());
}

#[test]
fn integers_at_an_offset() {
    let bytes = [0xAA, 0x12, 0x34, 0x56, 0x78, 0xBB];
    assert_eq!(u24_at(&bytes, 0).to_u32(), 0xAA_1234);
    assert_eq!(u24_at(&bytes, 3).to_u32(), 0x56_78BB);
    assert_eq!(u16_at(&bytes, 1), 0x1234);
    assert_eq!(u16_at(&bytes, 4), 0x78BB);
    assert_eq!(u32_at(&bytes, 1), 0x1234_5678);
    assert_eq!(u32_at(&bytes, 2), 0x3456_78BB);
}

#[test]
fn u24_widens_big_endian() {
    assert_eq!(u24::from([0x01, 0x02, 0x03]).to_u32(), 0x01_0203);
    assert_eq!(u24::from([0x00, 0x00, 0x00]).to_u32(), 0);
    assert_eq!(u24::from([0xFF, 0xFF, 0xFF]).to_u32(), 0xFF_FFFF);
    assert_eq!(u24::from([0x00, 0x00, 0x1A]).to_u32(), 26);
}

#[test]
fn u24_round_trips_below_two_to_the_24() {
    for n in [0u32, 1, 255, 256, 0x01_0203, 0x80_0000, 0xFF_FFFF] {
        assert_eq!(u24::from_u32(n).to_u32(), n);
    }
}

#[test]
fn u24_keeps_the_low_24_bits() {
    assert_eq!(u24::from_u32(0x0100_0000).to_u32(), 0);
    assert_eq!(u24::from_u32(0xAB12_3456).to_u32(), 0x12_3456);
    assert_eq!(u24::from_u32(u32::MAX).to_u32(), 0xFF_FFFF);
}

#[test]
fn error_carries_kind_and_offset() {
    let e = Error::InvalidMagic { offset: 13 };
    assert_eq!(e.kind(), ErrorKind::InvalidMagic);
    assert_eq!(e.offset(), 13);
    assert_eq!(ErrorKind::Truncated.at(7), Error::Truncated { offset: 7 });
    assert_eq!(
        ErrorKind::InvalidSegmentType.at(1),
        Error::InvalidSegmentType { offset: 1 }
    );
    assert_eq!(ErrorKind::InvalidFlag.at(2), Error::InvalidFlag { offset: 2 });
    assert_eq!(
        ErrorKind::ArithmeticInconsistency.at(3),
        Error::ArithmeticInconsistency { offset: 3 }
    );
    assert_eq!(
        ErrorKind::UnexpectedSegment.at(4),
        Error::UnexpectedSegment { offset: 4 }
    );
    for kind in [
        ErrorKind::Truncated,
        ErrorKind::InvalidMagic,
        ErrorKind::InvalidSegmentType,
        ErrorKind::InvalidFlag,
        ErrorKind::ArithmeticInconsistency,
        ErrorKind::UnexpectedSegment,
    ] {
        assert_eq!(kind.at(99).kind(), kind);
        assert_eq!(kind.at(99).offset(), 99);
    }
}

#[test]
fn error_kinds_have_messages() {
    assert_eq!(ErrorKind::Truncated.message(), "stream ends inside a structure");
    assert_eq!(
        ErrorKind::InvalidMagic.message(),
        "segment header without the PG marker"
    );
    assert_eq!(ErrorKind::InvalidSegmentType.message(), "unknown segment type");
    assert_eq!(
        ErrorKind::InvalidFlag.message(),
        "flag with a value that the format does not allow"
    );
    assert_eq!(ErrorKind::ArithmeticInconsistency.message(), "lengths that disagree");
    assert_eq!(ErrorKind::UnexpectedSegment.message(), "segment out of order");
}
