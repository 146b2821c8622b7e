use chip8_core::endian::{BigEndianU16, LittleEndianU16};

#[test]
fn cmp_big_and_little() {
    let byte_array_u8: [u8; 2] = [0x01, 0x02];
    let big_endian = BigEndianU16::new(byte_array_u8);
    let little_endian = LittleEndianU16::new(byte_array_u8);
    assert_ne!(big_endian.get_value(), little_endian.get_value());
}

#[test]
fn cmp_little_endian() {
    let byte_array_u8: [u8; 2] = [0x01, 0x02];
    let big_endian = BigEndianU16::new(byte_array_u8);
    let little_endian = LittleEndianU16::new(byte_array_u8);
    let a = little_endian.get_value();
    let b = LittleEndianU16::from(big_endian).get_value();
    let c = Into::<LittleEndianU16>::into(big_endian).get_value();
    let d: LittleEndianU16 = big_endian.into();
    assert_eq!(a, b);
    assert_eq!(a, c);
    assert_eq!(a, d.get_value());
}

#[test]
fn cmp_big_endian() {
    let byte_array_u8: [u8; 2] = [0x01, 0x02];
    let big_endian = BigEndianU16::new(byte_array_u8);
    let little_endian = LittleEndianU16::new(byte_array_u8);
    let a = big_endian.get_value();
    let b = BigEndianU16::from(little_endian).get_value();
    let c = Into::<BigEndianU16>::into(little_endian).get_value();
    let d: BigEndianU16 = little_endian.into();
    assert_eq!(a, b);
    assert_eq!(a, c);
    assert_eq!(a, d.get_value());
}

#[test]
fn little_endian_reads_bytes_in_order() {
    assert_eq!(LittleEndianU16::new([0x01, 0x02]).get_value(), 0x0102);
    assert_eq!(LittleEndianU16::new([0xFF, 0x00]).get_value(), 0xFF00);
    assert_eq!(LittleEndianU16::new([0x00, 0xFF]).get_value(), 0x00FF);
    assert_eq!(LittleEndianU16::new([0x00, 0x00]).get_value(), 0x0000);
    assert_eq!(LittleEndianU16::new([0xFF, 0xFF]).get_value(), 0xFFFF);
}

#[test]
fn big_endian_reads_bytes_swapped() {
    assert_eq!(BigEndianU16::new([0x01, 0x02]).get_value(), 0x0201);
    assert_eq!(BigEndianU16::new([0xFF, 0x00]).get_value(), 0x00FF);
    assert_eq!(BigEndianU16::new([0x00, 0xFF]).get_value(), 0xFF00);
    assert_eq!(BigEndianU16::new([0x00, 0x00]).get_value(), 0x0000);
    assert_eq!(BigEndianU16::new([0xFF, 0xFF]).get_value(), 0xFFFF);
}

#[test]
fn conversion_swaps_the_stored_bytes() {
    let little = LittleEndianU16::new([0x12, 0x34]);
    let big = BigEndianU16::from(little);
    assert_eq!(big.get_value(), 0x3412);
    let back = LittleEndianU16::from(big);
    assert_eq!(back.get_value(), 0x1234);
    let big = BigEndianU16::new([0xAB, 0xCD]);
    assert_eq!(LittleEndianU16::from(big).get_value(), 0xABCD);
}

#[test]
fn conversion_twice_is_identity() {
    for (first, second) in [(0u8, 0u8), (1, 2), (0xFF, 0x00), (0x80, 0x7F), (0xFF, 0xFF)] {
        let little = LittleEndianU16::new([first, second]);
        let there_and_back = LittleEndianU16::from(BigEndianU16::from(little));
        assert_eq!(there_and_back.get_value(), little.get_value());
        let big = BigEndianU16::new([first, second]);
        let there_and_back = BigEndianU16::from(LittleEndianU16::from(big));
        assert_eq!(there_and_back.get_value(), big.get_value());
    }
}
