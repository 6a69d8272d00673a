use midi::error::Error;
use midi::io::{BigEndian, LittleEndian, Stream, VarInt};

#[test]
fn vlq_three_bytes_with_continuation() {
    let mut stream = Stream::new(vec![0x81, 0x80, 0x00]);
    assert_eq!(stream.read_vlq(), Ok(16384));
    assert_eq!(stream.position(), 3);
}

#[test]
fn vlq_single_byte() {
    let mut stream = Stream::new(vec![0x00, 0x7F]);
    assert_eq!(stream.read_vlq(), Ok(0));
    assert_eq!(stream.position(), 1);
    assert_eq!(stream.read_vlq(), Ok(0x7F));
    assert_eq!(stream.position(), 2);
}

#[test]
fn vlq_known_values() {
    assert_eq!(Stream::new(vec![0x81, 0x00]).read_vlq(), Ok(0x80));
    assert_eq!(Stream::new(vec![0xC0, 0x00]).read_vlq(), Ok(0x2000));
    assert_eq!(Stream::new(vec![0xFF, 0x7F]).read_vlq(), Ok(0x3FFF));
    assert_eq!(Stream::new(vec![0x83, 0x60]).read_vlq(), Ok(480));
    assert_eq!(Stream::new(vec![0xFF, 0xFF, 0xFF, 0x7F]).read_vlq(), Ok(0x0FFF_FFFF));
}

#[test]
fn vlq_five_bytes_is_the_longest() {
    let mut stream = Stream::new(vec![0xFF, 0xFF, 0xFF, 0xFF, 0x7F, 0x01]);
    assert_eq!(stream.read_vlq(), Ok(0x7_FFFF_FFFF));
    assert_eq!(stream.position(), 5);
}

#[test]
fn vlq_without_end_in_five_bytes_overflows() {
    let mut stream = Stream::new(vec![0x80, 0x80, 0x80, 0x80, 0x80, 0x00]);
    assert_eq!(stream.read_vlq(), Err(Error::VlqOverflow));
    assert_eq!(stream.position(), 0);
    let mut short = Stream::new(vec![0x81, 0x82, 0x83, 0x84, 0x85]);
    assert_eq!(short.read_vlq(), Err(Error::VlqOverflow));
}

#[test]
fn vlq_cut_short_is_io() {
    let mut stream = Stream::new(vec![0x81, 0x80]);
    assert_eq!(stream.read_vlq(), Err(Error::Io));
    assert_eq!(stream.position(), 0);
    assert_eq!(Stream::new(vec![]).read_vlq(), Err(Error::Io));
    assert_eq!(Stream::new(vec![0x80, 0x80, 0x80, 0x80]).read_vlq(), Err(Error::Io));
}

#[test]
fn integers_are_big_endian() {
    let mut stream = Stream::new(vec![0x12, 0x34, 0x56, 0x78, 0x9A, 0xBC, 0xDE]);
    assert_eq!(stream.read_u8(), Ok(0x12));
    assert_eq!(stream.read_u16(), Ok(0x3456));
    assert_eq!(stream.read_u32(), Ok(0x789A_BCDE));
    assert_eq!(stream.position(), 7);
    assert_eq!(stream.remaining(), 0);
}

#[test]
fn short_reads_fail_and_stay() {
    let mut stream = Stream::new(vec![0x01, 0x02, 0x03]);
    assert_eq!(stream.read_u32(), Err(Error::Io));
    assert_eq!(stream.position(), 0);
    assert_eq!(stream.read_u16(), Ok(0x0102));
    assert_eq!(stream.read_u16(), Err(Error::Io));
    assert_eq!(stream.position(), 2);
    assert_eq!(stream.read_u8(), Ok(0x03));
    assert_eq!(stream.read_u8(), Err(Error::Io));
    assert_eq!(stream.position(), 3);
}

#[test]
fn peek_restores_the_position() {
    let mut stream = Stream::new(vec![0xAA, 0xBB]);
    assert_eq!(stream.peek::<BigEndian, u8>(), Ok(0xAA));
    assert_eq!(stream.position(), 0);
    assert_eq!(stream.peek::<BigEndian, u8>(), Ok(0xAA));
    assert_eq!(stream.read_u8(), Ok(0xAA));
    assert_eq!(stream.peek::<BigEndian, u8>(), Ok(0xBB));
    assert_eq!(stream.position(), 1);
    assert_eq!(stream.read_u8(), Ok(0xBB));
    assert_eq!(stream.peek::<BigEndian, u8>(), Err(Error::Io));
    assert_eq!(stream.position(), 2);
}

#[test]
fn readn_takes_exactly_n() {
    let mut stream = Stream::new(vec![b'M', b'T', b'h', b'd', 0x00]);
    assert_eq!(stream.readn::<4>(), Ok(*b"MThd"));
    assert_eq!(stream.position(), 4);
    assert_eq!(stream.readn::<2>(), Err(Error::Io));
    assert_eq!(stream.position(), 4);
    assert_eq!(stream.readn::<0>(), Ok([]));
    assert_eq!(stream.readn::<1>(), Ok([0x00]));
}

#[test]
fn read_into_fills_the_buffer() {
    let mut stream = Stream::new(vec![1, 2, 3, 4, 5]);
    let mut buf = [0u8; 3];
    assert_eq!(stream.read_into(&mut buf), Ok(()));
    assert_eq!(buf, [1, 2, 3]);
    assert_eq!(stream.position(), 3);
    let mut big = [9u8; 3];
    assert_eq!(stream.read_into(&mut big), Err(Error::Io));
    assert_eq!(big, [9, 9, 9]);
    assert_eq!(stream.position(), 3);
}

#[test]
fn seek_forward_moves_or_fails() {
    let mut stream = Stream::new(vec![0; 10]);
    assert_eq!(stream.seek_forward(4), Ok(()));
    assert_eq!(stream.position(), 4);
    assert_eq!(stream.seek_forward(7), Err(Error::Io));
    assert_eq!(stream.position(), 4);
    assert_eq!(stream.seek_forward(6), Ok(()));
    assert_eq!(stream.position(), 10);
    assert_eq!(stream.seek_forward(0), Ok(()));
    assert_eq!(stream.seek_forward(u64::MAX), Err(Error::Io));
}

#[test]
fn peek_works_for_every_readable_value() {
    let mut stream = Stream::new(vec![0x81, 0x00, 0x12, 0x34]);
    assert_eq!(stream.peek::<BigEndian, VarInt>(), Ok(0x80));
    assert_eq!(stream.position(), 0);
    assert_eq!(stream.peek::<BigEndian, u16>(), Ok(0x8100));
    assert_eq!(stream.peek::<LittleEndian, u16>(), Ok(0x0081));
    assert_eq!(stream.peek::<BigEndian, u32>(), Ok(0x8100_1234));
    assert_eq!(stream.position(), 0);
    assert_eq!(stream.seek_forward(2), Ok(()));
    assert_eq!(stream.peek::<BigEndian, u32>(), Err(Error::Io));
    assert_eq!(stream.position(), 2);
    assert_eq!(stream.peek::<BigEndian, u16>(), Ok(0x1234));
    assert_eq!(stream.read_u16(), Ok(0x1234));
}

#[test]
fn generic_reads_agree_with_the_named_ones() {
    let bytes = vec![0x01, 0x02, 0x03, 0x04, 0x05, 0x06, 0x07, 0x83, 0x60, 0xFE, 0xFF];
    let mut stream = Stream::new(bytes);
    assert_eq!(stream.read::<u8>(), Ok(0x01));
    assert_eq!(stream.read::<u16>(), Ok(0x0203));
    assert_eq!(stream.read::<u32>(), Ok(0x0405_0607));
    assert_eq!(stream.read::<VarInt>(), Ok(480));
    assert_eq!(stream.position(), 9);
    assert_eq!(stream.parse::<LittleEndian, i16>(), Ok(-2));
    assert_eq!(stream.position(), 11);
    assert_eq!(stream.read::<u8>(), Err(Error::Io));
    assert_eq!(stream.parse::<BigEndian, VarInt>(), Err(Error::Io));
    assert_eq!(stream.position(), 11);
}

#[test]
fn little_endian_reads() {
    let mut stream = Stream::new(vec![0x34, 0x12, 0x78, 0x56, 0x34, 0x12, 0x00, 0x80, 0xFF, 0x7F, 0xFF, 0xFF]);
    assert_eq!(stream.read_u16_le(), Ok(0x1234));
    assert_eq!(stream.read_u32_le(), Ok(0x1234_5678));
    assert_eq!(stream.read_i16_le(), Ok(i16::MIN));
    assert_eq!(stream.read_i16_le(), Ok(i16::MAX));
    assert_eq!(stream.read_i16_le(), Ok(-1));
    assert_eq!(stream.read_i16_le(), Err(Error::Io));
    assert_eq!(stream.position(), 12);
    let mut stream = Stream::new(vec![0x01, 0x02, 0x03]);
    assert_eq!(stream.parse::<LittleEndian, u32>(), Err(Error::Io));
    assert_eq!(stream.parse::<LittleEndian, u16>(), Ok(0x0201));
    assert_eq!(stream.parse::<LittleEndian, u8>(), Ok(0x03));
}
