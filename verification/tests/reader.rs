use curlyvm::class::reader::ClassFileReader;
use curlyvm::class::{ConstPool, Const, LoadError};

#[test]
fn numbers_are_big_endian() {
    let bytes = [
        0x01, 0x02, 0x03, 0x04, 0x05, 0x06, 0x07, 0x08, 0x09, 0x0A, 0x0B, 0x0C, 0x0D, 0x0E,
        0x0F,
    ];
    let mut r = ClassFileReader::new(&bytes);
    assert_eq!(r.offset(), 0);
    assert_eq!(r.u1(), Ok(0x01));
    assert_eq!(r.u2(), Ok(0x0203));
    assert_eq!(r.u4(), Ok(0x0405_0607));
    assert_eq!(r.u8(), Ok(0x0809_0A0B_0C0D_0E0F));
    assert_eq!(r.offset(), 15);
    assert_eq!(r.u1(), Err(LoadError::Truncated));
}

#[test]
fn the_largest_numbers() {
    let bytes = [0xFF; 15];
    let mut r = ClassFileReader::new(&bytes);
    assert_eq!(r.u1(), Ok(u8::MAX));
    assert_eq!(r.u2(), Ok(u16::MAX));
    assert_eq!(r.u4(), Ok(u32::MAX));
    assert_eq!(r.u8(), Ok(u64::MAX));
}

#[test]
fn a_short_read_fails_and_stays() {
    let bytes = [1, 2, 3];
    let mut r = ClassFileReader::new(&bytes);
    assert_eq!(r.u4(), Err(LoadError::Truncated));
    assert_eq!(r.u8(), Err(LoadError::Truncated));
    assert_eq!(r.bytes(4), Err(LoadError::Truncated));
    assert_eq!(r.string(4), Err(LoadError::Truncated));
    assert_eq!(r.offset(), 0);
    assert_eq!(r.u2(), Ok(0x0102));
    assert_eq!(r.u2(), Err(LoadError::Truncated));
    assert_eq!(r.offset(), 2);
    assert_eq!(r.u1(), Ok(3));
    assert_eq!(r.u1(), Err(LoadError::Truncated));
    assert_eq!(r.bytes(0), Ok(vec![]));
    assert_eq!(r.string(0), Ok(String::new()));
}

#[test]
fn bytes_and_text() {
    let bytes = [9, 8, 7, b'h', 0xC3, 0xA9, b'!', 0xFF, 0xFE];
    let mut r = ClassFileReader::new(&bytes);
    assert_eq!(r.bytes(3), Ok(vec![9, 8, 7]));
    assert_eq!(r.string(4), Ok("h\u{e9}!".to_string()));
    assert_eq!(r.offset(), 7);
    assert_eq!(r.string(2), Err(LoadError::InvalidText));
    assert_eq!(r.offset(), 7);
    assert_eq!(r.bytes(2), Ok(vec![0xFF, 0xFE]));
}

#[test]
fn text_has_to_be_whole_characters() {
    let bytes = [0xC3, 0xA9];
    assert_eq!(ClassFileReader::new(&bytes).string(1), Err(LoadError::InvalidText));
    assert_eq!(ClassFileReader::new(&bytes).string(2), Ok("\u{e9}".to_string()));
    // An overlong form and half of a surrogate pair are no text.
    assert_eq!(ClassFileReader::new(&[0xC0, 0x80]).string(2), Err(LoadError::InvalidText));
    assert_eq!(
        ClassFileReader::new(&[0xED, 0xA0, 0x80]).string(3),
        Err(LoadError::InvalidText)
    );
}

#[test]
fn a_pool_is_read_entry_by_entry() {
    let mut bytes = vec![0, 12];
    bytes.extend_from_slice(&[1, 0, 2, b'h', b'i']); // 1
    bytes.extend_from_slice(&[7, 0, 1]); // 2
    bytes.extend_from_slice(&[8, 0, 1]); // 3
    bytes.extend_from_slice(&[9, 0, 2, 0, 6]); // 4
    bytes.extend_from_slice(&[10, 0, 2, 0, 6]); // 5
    bytes.extend_from_slice(&[12, 0, 1, 0, 1]); // 6
    bytes.extend_from_slice(&[3, 0xFF, 0xFF, 0xFF, 0xFE]); // 7
    bytes.extend_from_slice(&[4, 0x40, 0x20, 0, 0]); // 8
    bytes.extend_from_slice(&[5, 0x80, 0, 0, 0, 0, 0, 0, 0]); // 9, 10
    bytes.extend_from_slice(&[11]); // 11
    bytes.extend_from_slice(&[0xAA, 0xBB]);
    let mut r = ClassFileReader::new(&bytes);
    let pool = ConstPool::load(&mut r).unwrap();
    assert_eq!(r.offset(), bytes.len() - 2);
    assert_eq!(pool.size, 12);
    assert_eq!(pool.table.len(), 11);
    assert!(matches!(&pool.table[0], Const::StringLiteral(s) if s == "hi"));
    assert!(matches!(pool.table[1], Const::ClassIndex(1)));
    assert!(matches!(pool.table[2], Const::StringIndex(1)));
    assert!(matches!(pool.table[3], Const::FieldMethod(2, 6)));
    assert!(matches!(pool.table[4], Const::FieldMethod(2, 6)));
    assert!(matches!(pool.table[5], Const::NameType(1, 1)));
    assert!(matches!(pool.table[6], Const::Integer(-2)));
    assert!(matches!(pool.table[7], Const::Float(bits) if f32::from_bits(bits) == 2.5));
    assert!(matches!(pool.table[8], Const::Long(i64::MIN)));
    assert!(matches!(pool.table[9], Const::Unusable));
    assert!(matches!(pool.table[10], Const::Unknown));
}

#[test]
fn a_pool_of_count_zero_or_one_is_empty() {
    for count in [0u8, 1] {
        let bytes = [0, count, 7];
        let mut r = ClassFileReader::new(&bytes);
        let pool = ConstPool::load(&mut r).unwrap();
        assert_eq!(pool.size, count as u16);
        assert!(pool.table.is_empty());
        assert_eq!(r.offset(), 2);
    }
}

#[test]
fn a_pool_that_ends_early_is_truncated() {
    for bytes in [&[0u8][..], &[0, 2], &[0, 2, 7, 0], &[0, 2, 1, 0, 3, b'a', b'b'], &[0, 3, 5, 0]] {
        let mut r = ClassFileReader::new(bytes);
        assert_eq!(ConstPool::load(&mut r).unwrap_err(), LoadError::Truncated);
    }
}
