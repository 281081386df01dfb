use ehce::byte_reader::{slice_read, slice_seek, SeekOutOfRange, SeekPosition};

#[test]
fn read_whole_and_partial() {
    let data = b"hello world";
    let mut cursor = 0usize;
    let mut buf = [0u8; 5];
    assert_eq!(slice_read(data, &mut cursor, &mut buf), 5);
    assert_eq!(&buf, b"hello");
    assert_eq!(cursor, 5);
    let mut big = [9u8; 10];
    assert_eq!(slice_read(data, &mut cursor, &mut big), 6);
    assert_eq!(&big[..6], b" world");
    assert_eq!(&big[6..], &[9, 9, 9, 9]);
    assert_eq!(cursor, 11);
    assert_eq!(slice_read(data, &mut cursor, &mut big), 0);
    assert_eq!(cursor, 11);
}

#[test]
fn read_past_end_returns_zero() {
    let data = b"abc";
    let mut cursor = 10usize;
    let mut buf = [7u8; 2];
    assert_eq!(slice_read(data, &mut cursor, &mut buf), 0);
    assert_eq!(buf, [7, 7]);
    assert_eq!(cursor, 10);
}

#[test]
fn seek_positions() {
    let data = b"0123456789";
    let mut cursor = 0usize;
    assert_eq!(slice_seek(data, &mut cursor, SeekPosition::Start(4)), Ok(4));
    assert_eq!(cursor, 4);
    assert_eq!(slice_seek(data, &mut cursor, SeekPosition::Current(3)), Ok(7));
    assert_eq!(slice_seek(data, &mut cursor, SeekPosition::Current(-7)), Ok(0));
    assert_eq!(slice_seek(data, &mut cursor, SeekPosition::End(-2)), Ok(8));
    let mut buf = [0u8; 4];
    assert_eq!(slice_read(data, &mut cursor, &mut buf), 2);
    assert_eq!(&buf[..2], b"89");
    assert_eq!(slice_seek(data, &mut cursor, SeekPosition::End(5)), Ok(15));
    assert_eq!(slice_read(data, &mut cursor, &mut buf), 0);
}

#[test]
fn seek_errors_keep_cursor() {
    let data = b"0123456789";
    let mut cursor = 3usize;
    assert_eq!(slice_seek(data, &mut cursor, SeekPosition::Current(-4)), Err(SeekOutOfRange));
    assert_eq!(cursor, 3);
    assert_eq!(slice_seek(data, &mut cursor, SeekPosition::End(-11)), Err(SeekOutOfRange));
    assert_eq!(slice_seek(data, &mut cursor, SeekPosition::Start(u64::MAX)), Err(SeekOutOfRange));
    assert_eq!(cursor, 3);
}

#[test]
fn seek_to_end_then_read_nothing() {
    let data = b"abcdef";
    let mut cursor = 2usize;
    assert_eq!(slice_seek(data, &mut cursor, SeekPosition::End(0)), Ok(6));
    let mut buf = [0u8; 3];
    assert_eq!(slice_read(data, &mut cursor, &mut buf), 0);
    assert_eq!(slice_seek(data, &mut cursor, SeekPosition::Start(1)), Ok(1));
    assert_eq!(slice_read(data, &mut cursor, &mut buf), 3);
    assert_eq!(&buf, b"bcd");
}

#[test]
fn seek_overflow_is_out_of_range() {
    let data = b"abc";
    let mut cursor = 0usize;
    assert_eq!(slice_seek(data, &mut cursor, SeekPosition::End(i64::MAX)), Err(SeekOutOfRange));
    assert_eq!(cursor, 0);
    assert_eq!(slice_seek(data, &mut cursor, SeekPosition::Current(i64::MIN)), Err(SeekOutOfRange));
    assert_eq!(cursor, 0);
}
