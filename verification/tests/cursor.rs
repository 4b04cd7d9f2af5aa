use classfile::cursor::Cursor;
use classfile::structure::DecodeError;

#[test]
fn fixed_width_reads_are_big_endian() {
    let bytes = [0x01, 0x02, 0x03, 0x04, 0x05, 0x06, 0x07];
    let mut c = Cursor::new(&bytes);
    assert_eq!(c.read_u8(), Ok(0x01));
    assert_eq!(c.read_u16_be(), Ok(0x0203));
    assert_eq!(c.read_u32_be(), Ok(0x04050607));
    assert_eq!(c.offset(), 7);
    assert_eq!(c.remaining(), 0);
}

#[test]
fn read_exact_takes_the_requested_bytes() {
    let bytes = [0x0A, 0x0B, 0x0C, 0x0D];
    let mut c = Cursor::new(&bytes);
    assert_eq!(c.read_exact(3), Ok(vec![0x0A, 0x0B, 0x0C]));
    assert_eq!(c.offset(), 3);
    assert_eq!(c.read_exact(0), Ok(vec![]));
    assert_eq!(c.read_exact(2), Err(DecodeError::Truncated));
}

#[test]
fn underrun_fails_cleanly() {
    let bytes = [0xFF];
    let mut c = Cursor::new(&bytes);
    assert_eq!(c.read_u16_be(), Err(DecodeError::Truncated));
    assert_eq!(c.read_u32_be(), Err(DecodeError::Truncated));
    assert_eq!(c.read_u8(), Ok(0xFF));
    assert_eq!(c.read_u8(), Err(DecodeError::Truncated));
}
