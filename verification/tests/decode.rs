use classfile::parser::parse_classfile;
use classfile::structure::{
    AccessFlags, ConstantPoolInfo, DecodeError, Version, ACC_ALL, ACC_PUBLIC, ACC_SUPER,
};

fn header(minor: u16, major: u16) -> Vec<u8> {
    let mut v = vec![0xCA, 0xFE, 0xBA, 0xBE];
    v.extend_from_slice(&minor.to_be_bytes());
    v.extend_from_slice(&major.to_be_bytes());
    v
}

/// A buffer with the given pool, flags 0x0021, this_class 1, super_class 0
/// and no interfaces.
fn with_pool(pool_count: u16, pool_bytes: &[u8]) -> Vec<u8> {
    let mut v = header(0, 52);
    v.extend_from_slice(&pool_count.to_be_bytes());
    v.extend_from_slice(pool_bytes);
    v.extend_from_slice(&[0x00, 0x21]);
    v.extend_from_slice(&[0x00, 0x01]);
    v.extend_from_slice(&[0x00, 0x00]);
    v.extend_from_slice(&[0x00, 0x00]);
    v
}

#[test]
fn empty_pool_classfile() {
    let bytes = with_pool(1, &[]);
    let (cf, consumed) = parse_classfile(&bytes).unwrap();
    assert_eq!(cf.version, Version { major: 52, minor: 0 });
    assert!(cf.constant_pool.is_empty());
    assert_eq!(cf.access_flags.bits(), 0x0021);
    assert!(cf.access_flags.contains(ACC_PUBLIC));
    assert!(cf.access_flags.contains(ACC_SUPER));
    assert_eq!(cf.this_class, 1);
    assert_eq!(cf.super_class, 0);
    assert!(cf.interfaces.is_empty());
    assert_eq!(consumed, bytes.len());
}

#[test]
fn single_utf8_entry() {
    let bytes = with_pool(2, &[0x01, 0x00, 0x01, 0x41]);
    let (cf, _) = parse_classfile(&bytes).unwrap();
    assert_eq!(cf.constant_pool.len(), 1);
    assert_eq!(cf.constant_pool[0], ConstantPoolInfo::Utf(1, vec![0x41]));
}

#[test]
fn bad_magic_fails_first() {
    let bytes = vec![0xDE, 0xAD, 0xBE, 0xEF, 0x00, 0x00, 0x00, 0x34, 0x00, 0x01];
    assert_eq!(parse_classfile(&bytes), Err(DecodeError::BadMagic));
}

#[test]
fn bad_magic_regardless_of_rest() {
    // Same wrong prefix with different (even unreadable) remainders.
    assert_eq!(
        parse_classfile(&[0xCA, 0xFE, 0xBA, 0xBF]),
        Err(DecodeError::BadMagic)
    );
    let mut long = vec![0x00, 0x00, 0x00, 0x00];
    long.extend_from_slice(&with_pool(1, &[])[4..]);
    assert_eq!(parse_classfile(&long), Err(DecodeError::BadMagic));
}

#[test]
fn short_buffer_is_truncated() {
    assert_eq!(parse_classfile(&[]), Err(DecodeError::Truncated));
    assert_eq!(parse_classfile(&[0xCA, 0xFE, 0xBA]), Err(DecodeError::Truncated));
    // Magic alone, version missing.
    assert_eq!(
        parse_classfile(&[0xCA, 0xFE, 0xBA, 0xBE, 0x00]),
        Err(DecodeError::Truncated)
    );
}

#[test]
fn utf8_truncated_payload() {
    // Declared length 10 but only 3 payload bytes remain.
    let mut bytes = header(0, 52);
    bytes.extend_from_slice(&[0x00, 0x02]);
    bytes.extend_from_slice(&[0x01, 0x00, 0x0A, 0x41, 0x42, 0x43]);
    assert_eq!(parse_classfile(&bytes), Err(DecodeError::Truncated));
}

#[test]
fn utf8_consumes_exactly_declared_length() {
    // A two-byte Utf8 payload followed by an Integer entry: the decoder must
    // stop after exactly two payload bytes for the next tag to be read right.
    let bytes = with_pool(
        3,
        &[0x01, 0x00, 0x02, 0x41, 0x42, 0x03, 0x00, 0x00, 0x00, 0x07],
    );
    let (cf, _) = parse_classfile(&bytes).unwrap();
    assert_eq!(cf.constant_pool.len(), 2);
    assert_eq!(cf.constant_pool[0], ConstantPoolInfo::Utf(2, vec![0x41, 0x42]));
    assert_eq!(cf.constant_pool[1], ConstantPoolInfo::Integer(7));
}

#[test]
fn pool_count_zero_is_invalid() {
    let mut bytes = header(0, 52);
    bytes.extend_from_slice(&[0x00, 0x00]);
    assert_eq!(parse_classfile(&bytes), Err(DecodeError::InvalidPoolCount));
}

#[test]
fn pool_produces_count_minus_one_entries() {
    // Declared count 4: exactly 3 entries, in file order.
    let bytes = with_pool(
        4,
        &[
            0x03, 0x00, 0x00, 0x00, 0x01, // Integer 1
            0x03, 0x00, 0x00, 0x00, 0x02, // Integer 2
            0x03, 0x00, 0x00, 0x00, 0x03, // Integer 3
        ],
    );
    let (cf, _) = parse_classfile(&bytes).unwrap();
    assert_eq!(
        cf.constant_pool,
        vec![
            ConstantPoolInfo::Integer(1),
            ConstantPoolInfo::Integer(2),
            ConstantPoolInfo::Integer(3),
        ]
    );
}

#[test]
fn unknown_tag_is_recoverable_error() {
    for tag in [0u8, 2, 13, 14, 21, 0xFF] {
        let bytes = with_pool(2, &[tag, 0x00, 0x00]);
        assert_eq!(
            parse_classfile(&bytes),
            Err(DecodeError::UnknownConstantTag(tag)),
            "tag {} must be rejected",
            tag
        );
    }
}

#[test]
fn decodes_every_entry_kind() {
    let pool = [
        vec![0x07u8, 0x00, 0x02],                                   // Class(2)
        vec![0x09, 0x00, 0x03, 0x00, 0x04],                         // FieldRef(3, 4)
        vec![0x0A, 0x00, 0x05, 0x00, 0x06],                         // MethodRef(5, 6)
        vec![0x0B, 0x00, 0x07, 0x00, 0x08],                         // InterfaceMethodRef(7, 8)
        vec![0x08, 0x00, 0x09],                                     // String(9)
        vec![0x03, 0xDE, 0xAD, 0xBE, 0xEF],                         // Integer
        vec![0x04, 0x3F, 0x80, 0x00, 0x00],                         // Float raw bits
        vec![0x05, 0x00, 0x00, 0x00, 0x01, 0x00, 0x00, 0x00, 0x02], // Long(1, 2)
        vec![0x06, 0x00, 0x00, 0x00, 0x03, 0x00, 0x00, 0x00, 0x04], // Double(3, 4)
        vec![0x0C, 0x00, 0x0A, 0x00, 0x0B],                         // NameAndType(10, 11)
        vec![0x01, 0x00, 0x00],                                     // Utf("", length 0)
        vec![0x0F, 0x06, 0x00, 0x0C],                               // MethodHandle(6, 12)
        vec![0x10, 0x00, 0x0D],                                     // MethodType(13)
        vec![0x11, 0x00, 0x0E, 0x00, 0x0F],                         // Dynamic(14, 15)
        vec![0x12, 0x00, 0x10, 0x00, 0x11],                         // InvokeDynamic(16, 17)
        vec![0x13, 0x00, 0x12],                                     // Module(18)
        vec![0x14, 0x00, 0x13],                                     // Package(19)
    ]
    .concat();
    let bytes = with_pool(18, &pool);
    let (cf, _) = parse_classfile(&bytes).unwrap();
    assert_eq!(
        cf.constant_pool,
        vec![
            ConstantPoolInfo::Class(2),
            ConstantPoolInfo::FieldRef(3, 4),
            ConstantPoolInfo::MethodRef(5, 6),
            ConstantPoolInfo::InterfaceMethodRef(7, 8),
            ConstantPoolInfo::String(9),
            ConstantPoolInfo::Integer(0xDEADBEEF),
            ConstantPoolInfo::Float(0x3F800000),
            ConstantPoolInfo::Long(1, 2),
            ConstantPoolInfo::Double(3, 4),
            ConstantPoolInfo::NameAndType(10, 11),
            ConstantPoolInfo::Utf(0, vec![]),
            ConstantPoolInfo::MethodHandle(6, 12),
            ConstantPoolInfo::MethodType(13),
            ConstantPoolInfo::Dynamic(14, 15),
            ConstantPoolInfo::InvokeDynamic(16, 17),
            ConstantPoolInfo::Module(18),
            ConstantPoolInfo::Package(19),
        ]
    );
}

#[test]
fn invalid_access_flags_rejected() {
    let mut bytes = header(0, 52);
    bytes.extend_from_slice(&[0x00, 0x01]); // empty pool
    bytes.extend_from_slice(&[0x00, 0x02]); // 0x0002 is not a known flag bit
    assert_eq!(
        parse_classfile(&bytes),
        Err(DecodeError::InvalidAccessFlags(0x0002))
    );
}

#[test]
fn access_flags_constructor() {
    assert!(AccessFlags::from_bits(0x0000).is_some());
    assert!(AccessFlags::from_bits(ACC_ALL).is_some());
    let f = AccessFlags::from_bits(0x0021).unwrap();
    assert_eq!(f.bits(), 0x0021);
    assert!(f.contains(ACC_PUBLIC));
    assert!(!f.contains(0x0010));
    assert!(AccessFlags::from_bits(0x0002).is_none());
    assert!(AccessFlags::from_bits(0xFFFF).is_none());
}

#[test]
fn truncated_mid_pool_header() {
    // Flags, indices and interface list missing after the pool.
    let mut bytes = header(0, 52);
    bytes.extend_from_slice(&[0x00, 0x01]);
    assert_eq!(parse_classfile(&bytes), Err(DecodeError::Truncated));
}

#[test]
fn decoding_is_deterministic() {
    let bytes = with_pool(2, &[0x01, 0x00, 0x03, 0x66, 0x6F, 0x6F]);
    let first = parse_classfile(&bytes);
    let second = parse_classfile(&bytes);
    assert_eq!(first, second);
    let copy = bytes.clone();
    assert_eq!(parse_classfile(&copy), first);
}

#[test]
fn trailing_bytes_are_left_unread() {
    let mut bytes = with_pool(1, &[]);
    let clean_len = bytes.len();
    bytes.extend_from_slice(&[0x12, 0x34, 0x56]);
    let (cf, consumed) = parse_classfile(&bytes).unwrap();
    assert_eq!(consumed, clean_len);
    assert_eq!(cf.this_class, 1);
}

#[test]
fn version_wire_order_is_minor_then_major() {
    let mut bytes = vec![0xCA, 0xFE, 0xBA, 0xBE, 0x00, 0x03, 0x00, 0x2D];
    bytes.extend_from_slice(&[0x00, 0x01]);
    bytes.extend_from_slice(&[0x00, 0x20, 0x00, 0x01, 0x00, 0x00, 0x00, 0x00]);
    let (cf, _) = parse_classfile(&bytes).unwrap();
    assert_eq!(cf.version, Version { major: 45, minor: 3 });
}

#[test]
fn interface_list_in_order() {
    let mut bytes = header(0, 52);
    bytes.extend_from_slice(&[0x00, 0x01]); // empty pool
    bytes.extend_from_slice(&[0x02, 0x00]); // INTERFACE | ABSTRACT
    bytes.extend_from_slice(&[0x00, 0x05]); // this_class
    bytes.extend_from_slice(&[0x00, 0x06]); // super_class
    bytes.extend_from_slice(&[0x00, 0x02, 0x00, 0x03, 0x00, 0x04]);
    let (cf, _) = parse_classfile(&bytes).unwrap();
    assert_eq!(cf.this_class, 5);
    assert_eq!(cf.super_class, 6);
    assert_eq!(cf.interfaces, vec![3, 4]);
}

#[test]
fn truncated_interface_list() {
    let mut bytes = header(0, 52);
    bytes.extend_from_slice(&[0x00, 0x01]);
    bytes.extend_from_slice(&[0x00, 0x21, 0x00, 0x01, 0x00, 0x00]);
    bytes.extend_from_slice(&[0x00, 0x02, 0x00, 0x03]); // two declared, one present
    assert_eq!(parse_classfile(&bytes), Err(DecodeError::Truncated));
}

#[test]
fn version_labels() {
    assert_eq!(Version { major: 45, minor: 3 }.label(), "JDK 1.1");
    assert_eq!(Version { major: 52, minor: 0 }.label(), "SE 8");
    assert_eq!(Version { major: 63, minor: 0 }.label(), "SE 19");
    assert_eq!(Version { major: 44, minor: 0 }.label(), "unknown");
    assert_eq!(Version { major: 99, minor: 0 }.label(), "unknown");
}
