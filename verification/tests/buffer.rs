use drop_dns::buffer::{be16, be32, read_u16, read_u32, read_u8};

#[test]
fn be16_swaps_the_two_bytes() {
    // The word a little-endian host loads from the wire bytes [0x00, 0x35]
    // is 0x3500; converting from network order yields host port 53.
    assert_eq!(be16(0x3500), 0x0035);
    assert_eq!(be16(0x0035), 0x3500);
    assert_eq!(be16(0x1234), 0x3412);
    assert_eq!(be16(0x0000), 0x0000);
    assert_eq!(be16(0xffff), 0xffff);
}

#[test]
fn be32_reverses_the_four_bytes() {
    assert_eq!(be32(0x0102_0304), 0x0403_0201);
    assert_eq!(be32(0xc0a8_0101), 0x0101_a8c0);
    assert_eq!(be32(0x0000_0000), 0x0000_0000);
}

#[test]
fn read_u8_checks_bounds() {
    let b = [0x10u8, 0x20, 0x30];
    assert_eq!(read_u8(&b, 0), Some(0x10));
    assert_eq!(read_u8(&b, 2), Some(0x30));
    assert_eq!(read_u8(&b, 3), None);
    assert_eq!(read_u8(&[], 0), None);
}

#[test]
fn read_u16_loads_little_endian() {
    let b = [0x12u8, 0x34, 0x56];
    assert_eq!(read_u16(&b, 0), Some(0x3412));
    assert_eq!(read_u16(&b, 1), Some(0x5634));
    assert_eq!(read_u16(&b, 2), None);
    assert_eq!(read_u16(&b, usize::MAX), None);
}

#[test]
fn read_u16_then_be16_is_the_network_value() {
    let b = [0x00u8, 0x35];
    assert_eq!(be16(read_u16(&b, 0).unwrap()), 53);
}

#[test]
fn read_u32_loads_little_endian() {
    let b = [0x01u8, 0x02, 0x03, 0x04, 0x05];
    assert_eq!(read_u32(&b, 0), Some(0x0403_0201));
    assert_eq!(read_u32(&b, 1), Some(0x0504_0302));
    assert_eq!(read_u32(&b, 2), None);
    assert_eq!(be32(read_u32(&b, 0).unwrap()), 0x0102_0304);
}
