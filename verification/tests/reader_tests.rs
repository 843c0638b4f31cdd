use pokerus::reader::Reader;
use pokerus::DecodeError;

#[test]
fn typed_reads_are_little_endian() {
    let mut rd = Reader::new(vec![0x01, 0x02, 0x03, 0x04, 0x05, 0x06, 0x07, 0x08]);
    assert_eq!(rd.read_u8(), Ok(0x01));
    assert_eq!(rd.read_u16(), Ok(0x0302));
    assert_eq!(rd.read_u32(), Ok(0x07060504));
    assert_eq!(rd.read_u8(), Ok(0x08));
}

#[test]
fn signed_reads_reinterpret_two_complement() {
    let mut rd = Reader::new(vec![0xFF, 0xFF, 0xFF, 0xFF]);
    assert_eq!(rd.read_i32(), Ok(-1));
    let mut rd = Reader::new(vec![0xFE, 0xFF, 0xFF, 0xFF, 0xFF, 0xFF, 0xFF, 0xFF]);
    assert_eq!(rd.read_i64(), Ok(-2));
    let mut rd = Reader::new(vec![0x00, 0xCA, 0x9A, 0x3B, 0, 0, 0, 0]);
    assert_eq!(rd.read_i64(), Ok(1_000_000_000));
}

#[test]
fn absolute_seek_bounds() {
    let mut rd = Reader::new(vec![10, 20, 30, 40]);
    assert_eq!(rd.seek_abs(2), Ok(()));
    assert_eq!(rd.read_u8(), Ok(30));
    assert_eq!(rd.seek_abs(4), Ok(()));
    assert_eq!(rd.read_u8(), Err(DecodeError::Io));
    assert_eq!(rd.seek_abs(5), Err(DecodeError::Io));
}

#[test]
fn relative_seek_bounds() {
    let mut rd = Reader::new(vec![10, 20, 30, 40]);
    assert_eq!(rd.seek_rel(3), Ok(()));
    assert_eq!(rd.read_u8(), Ok(40));
    assert_eq!(rd.seek_rel(-2), Ok(()));
    assert_eq!(rd.read_u8(), Ok(30));
    assert_eq!(rd.seek_rel(-4), Err(DecodeError::Io));
    assert_eq!(rd.seek_rel(2), Err(DecodeError::Io));
}

/// A failed read reports the error and leaves the cursor where it was.
#[test]
fn failed_read_keeps_position() {
    let mut rd = Reader::new(vec![0xAB, 0xCD, 0xEF]);
    assert_eq!(rd.seek_abs(2), Ok(()));
    assert_eq!(rd.read_u16(), Err(DecodeError::Io));
    assert_eq!(rd.read_u8(), Ok(0xEF));
}

#[test]
fn raw_bytes_read() {
    let mut rd = Reader::new(vec![1, 2, 3, 4, 5]);
    assert_eq!(rd.seek_abs(1), Ok(()));
    assert_eq!(rd.read_bytes(3), Ok(vec![2, 3, 4]));
    assert_eq!(rd.read_bytes(2), Err(DecodeError::Io));
    assert_eq!(rd.read_bytes(1), Ok(vec![5]));
}

#[test]
fn unit_and_string_reads() {
    // 'G' = 0x0131, 'O' = 0x0139; then a terminator and padding.
    let mut rd = Reader::new(vec![0x31, 0x01, 0x39, 0x01, 0xFF, 0xFF, 0x00, 0x00]);
    assert_eq!(rd.read_units(2), Ok(vec![0x0131, 0x0139]));
    assert_eq!(rd.seek_abs(0), Ok(()));
    assert_eq!(rd.read_string(4), Ok("GO".to_string()));
    assert_eq!(rd.read_string(1), Err(DecodeError::Io));
}
