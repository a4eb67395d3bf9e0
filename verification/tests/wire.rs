use uds_rs::wire::{append_be, byte_width, read_u16_be, read_u24_be};

#[test]
fn test_read_u16_be() {
    assert_eq!(read_u16_be(0x00, 0x00), 0x0000);
    assert_eq!(read_u16_be(0x12, 0x34), 0x1234);
    assert_eq!(read_u16_be(0x00, 0xFF), 0x00FF);
    assert_eq!(read_u16_be(0xFF, 0x00), 0xFF00);
    assert_eq!(read_u16_be(0xFF, 0xFF), 0xFFFF);
}

#[test]
fn test_read_u24_be() {
    assert_eq!(read_u24_be(0x00, 0x00, 0x00), 0);
    assert_eq!(read_u24_be(0x12, 0x34, 0x56), 0x123456);
    assert_eq!(read_u24_be(0xFF, 0xFF, 0xFF), 0xFFFFFF);
    assert_eq!(read_u24_be(0x01, 0x00, 0x00), 0x010000);
}

#[test]
fn test_byte_width() {
    assert_eq!(byte_width(0), 0);
    assert_eq!(byte_width(1), 1);
    assert_eq!(byte_width(0xFF), 1);
    assert_eq!(byte_width(0x100), 2);
    assert_eq!(byte_width(0xFFFF), 2);
    assert_eq!(byte_width(0x1_0000), 3);
    assert_eq!(byte_width(0xFFFF_FFFF), 4);
    assert_eq!(byte_width(0x1_0000_0000), 5);
    assert_eq!(byte_width(0x00FF_FFFF_FFFF_FFFF), 7);
    assert_eq!(byte_width(0x0100_0000_0000_0000), 8);
    assert_eq!(byte_width(u64::MAX), 8);
}

#[test]
fn test_append_be() {
    let mut out = vec![0xAA];
    append_be(&mut out, 0x1234, 2);
    assert_eq!(out, vec![0xAA, 0x12, 0x34]);
    append_be(&mut out, 0x1234, 0);
    assert_eq!(out, vec![0xAA, 0x12, 0x34]);
    append_be(&mut out, 0x1234, 4);
    assert_eq!(out, vec![0xAA, 0x12, 0x34, 0x00, 0x00, 0x12, 0x34]);
}

#[test]
fn test_append_be_drops_what_does_not_fit() {
    let mut out = Vec::new();
    append_be(&mut out, 0x12345678, 3);
    assert_eq!(out, vec![0x34, 0x56, 0x78]);
}

#[test]
fn test_append_be_agrees_with_to_be_bytes() {
    for value in [0u64, 1, 0xFF, 0x0102_0304_0506_0708, u64::MAX] {
        for width in 0..=8u8 {
            let mut out = Vec::new();
            append_be(&mut out, value, width);
            assert_eq!(out, value.to_be_bytes()[8 - width as usize..].to_vec());
        }
        let mut wide = Vec::new();
        append_be(&mut wide, value, 10);
        let mut expected = vec![0, 0];
        expected.extend_from_slice(&value.to_be_bytes());
        assert_eq!(wide, expected);
    }
}
