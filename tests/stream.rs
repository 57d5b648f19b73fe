use binstream::{Error, FromData, LazyArray, Offset32, SafeStream, Stream};

#[test]
fn two_u16_values_then_end() {
    let buf = [0x00u8, 0x2A, 0x01, 0x00];
    let mut s = Stream::new(&buf);
    assert_eq!(s.read::<u16>(), Ok(42));
    assert_eq!(s.offset(), 2);
    assert_eq!(s.read::<u16>(), Ok(256));
    assert_eq!(s.offset(), 4);
    assert!(s.at_end());
}

#[test]
fn u32_with_two_bytes_left_is_out_of_bounds() {
    let buf = [1u8, 2, 3, 4, 5, 6];
    let mut s = Stream::new(&buf);
    assert_eq!(s.read::<u32>(), Ok(0x0102_0304));
    assert_eq!(s.read::<u32>(), Err(Error::ReadOutOfBounds(8, 6)));
    assert_eq!(s.offset(), 4);
    assert_eq!(s.read::<u16>(), Ok(0x0506));
}

#[test]
fn failed_read_keeps_cursor() {
    let buf = [7u8];
    let mut s = Stream::new(&buf);
    assert_eq!(s.read::<u16>(), Err(Error::ReadOutOfBounds(2, 1)));
    assert_eq!(s.offset(), 0);
    assert_eq!(s.read_bytes(2u16), Err(Error::ReadOutOfBounds(2, 1)));
    assert_eq!(s.offset(), 0);
    assert_eq!(s.read::<u8>(), Ok(7));
    assert!(s.at_end());
}

#[test]
fn read_advances_by_raw_size() {
    let buf = [0xFFu8; 16];
    let mut s = Stream::new(&buf);
    s.read::<u8>().unwrap();
    assert_eq!(s.offset(), 1);
    s.read::<i8>().unwrap();
    assert_eq!(s.offset(), 2);
    s.read::<i16>().unwrap();
    assert_eq!(s.offset(), 4);
    s.read::<u32>().unwrap();
    assert_eq!(s.offset(), 8);
    s.read::<Offset32>().unwrap();
    assert_eq!(s.offset(), 12);
    s.read::<Option<Offset32>>().unwrap();
    assert_eq!(s.offset(), 16);
}

#[test]
fn signed_values_are_twos_complement() {
    let buf = [0xFFu8, 0xFF, 0xFE, 0x80];
    let mut s = Stream::new(&buf);
    assert_eq!(s.read::<i16>(), Ok(-1));
    assert_eq!(s.read::<i8>(), Ok(-2));
    assert_eq!(s.read::<i8>(), Ok(-128));
}

#[test]
fn skip_then_read_past_end() {
    let buf = [0u8, 1, 2, 3];
    let mut s = Stream::new(&buf);
    s.skip::<u16>();
    assert_eq!(s.offset(), 2);
    s.skip_len(5u32);
    assert_eq!(s.offset(), 7);
    assert!(!s.at_end());
    assert_eq!(s.tail(), Err(Error::ReadOutOfBounds(4, 4)));
    assert_eq!(s.read::<u8>(), Err(Error::ReadOutOfBounds(8, 4)));
    assert_eq!(s.offset(), 7);
}

#[test]
fn tail_and_jump_to_end() {
    let buf = [9u8, 8, 7, 6];
    let mut s = Stream::new(&buf);
    s.skip::<u8>();
    assert_eq!(s.tail(), Ok(&buf[1..]));
    s.jump_to_end();
    assert_eq!(s.offset(), 4);
    assert!(s.at_end());
    assert_eq!(s.tail(), Ok(&buf[4..]));
}

#[test]
fn read_bytes_slices_the_next_bytes() {
    let buf = [1u8, 2, 3, 4, 5];
    let mut s = Stream::new(&buf);
    assert_eq!(s.read_bytes(3u16), Ok(&buf[0..3]));
    assert_eq!(s.offset(), 3);
    assert_eq!(s.read_bytes(3u32), Err(Error::ReadOutOfBounds(6, 5)));
    assert_eq!(s.offset(), 3);
}

#[test]
fn read_at_is_bound_checked() {
    let buf = [0u8, 0, 0x12, 0x34];
    assert_eq!(Stream::read_at::<u16>(&buf, 2), Ok(0x1234));
    assert_eq!(Stream::read_at::<u16>(&buf, 3), Err(Error::ReadOutOfBounds(5, 4)));
    assert_eq!(Stream::read_at::<u32>(&buf, 0), Ok(0x1234));
}

#[test]
fn read_array_takes_count_elements() {
    let buf = [0u8, 1, 0, 2, 0, 3, 9];
    let mut s = Stream::new(&buf);
    let arr: LazyArray<u16> = s.read_array(3u16).unwrap();
    assert_eq!(arr.len(), 3);
    assert_eq!(arr.get(2u16), Some(3));
    assert_eq!(s.offset(), 6);
    let more: Result<LazyArray<u16>, Error> = s.read_array(1u32);
    assert!(matches!(more, Err(Error::ReadOutOfBounds(8, 7))));
    assert_eq!(s.offset(), 6);
}

#[test]
fn optional_offset_zero_is_absent() {
    let buf = [0u8, 0, 0, 0, 0, 0, 0, 5];
    let mut s = Stream::new(&buf);
    assert_eq!(s.read::<Option<Offset32>>(), Ok(None));
    assert_eq!(s.offset(), 4);
    assert_eq!(s.read::<Option<Offset32>>(), Ok(Some(Offset32(5))));
    assert_eq!(s.offset(), 8);
    assert_eq!(<Option<Offset32> as FromData>::raw_size(), 4);
}

#[test]
fn offset_wraps_u32() {
    let buf = [0x00u8, 0x01, 0x00, 0x00];
    assert_eq!(Stream::read_at::<Offset32>(&buf, 0), Ok(Offset32(65536)));
}

#[test]
fn safe_stream_reads_in_sequence() {
    let buf = [0x01u8, 0x02, 0x03, 0xAB, 0xCD, 0x10];
    let mut s = SafeStream::new(&buf);
    assert_eq!(s.read_u24(), 0x010203);
    assert_eq!(s.read::<u16>(), 0xABCD);
    s.skip::<u8>();
    let mut t = SafeStream::new(&buf);
    t.skip::<u16>();
    assert_eq!(t.read::<u8>(), 3);
}
