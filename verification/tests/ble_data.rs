use rf24::ble::data::{crc24_ble, reverse_bits, reverse_byte, whiten};

#[test]
fn reverse() {
    let mut buf = [0u8; 11];
    buf.copy_from_slice(b"Hello World");
    reverse_bits(&mut buf);
    let mut expected = [
        0x12, 0xA6, 0x36, 0x36, 0xF6, 0x04, 0xEA, 0xF6, 0x4E, 0x36, 0x26,
    ];
    assert_eq!(buf, expected);

    reverse_bits(&mut buf);
    expected.copy_from_slice(b"Hello World");
    assert_eq!(buf, expected);
}

#[test]
fn whitening() {
    let coefficient = (2 + 37) | 0x40;

    let mut buf = [0u8; 11];
    buf.copy_from_slice(b"Hello World");
    whiten(&mut buf, coefficient);

    let expected: [u8; 11] = [
        0x57, 0x52, 0x26, 0x33, 0xEA, 0xD6, 0xCB, 0xF5, 0xB3, 0xBA, 0xA1,
    ];
    assert_eq!(buf, expected);

    whiten(&mut buf, coefficient);
    let mut expected = [0u8; 11];
    expected.copy_from_slice(b"Hello World");
    assert_eq!(buf, expected);
}

#[test]
fn crc() {
    let buffer = b"Hello World";
    let checksum = crc24_ble(buffer);
    assert_eq!(buffer, b"Hello World");
    let expected = [0xB6u8, 0x8C, 0xB0];
    assert_eq!(expected, checksum);
}

#[test]
fn reverse_byte_matches_std() {
    for b in 0..=255u8 {
        assert_eq!(reverse_byte(b), b.reverse_bits());
        assert_eq!(reverse_byte(reverse_byte(b)), b);
    }
}

#[test]
fn whitening_twice_restores_every_channel() {
    for index in 0..3u8 {
        let coefficient = (index + 37) | 0x40;
        let plain: Vec<u8> = (0..32u8).map(|i| i.wrapping_mul(37)).collect();
        let mut buf = plain.clone();
        whiten(&mut buf, coefficient);
        assert_ne!(buf, plain);
        whiten(&mut buf, coefficient);
        assert_eq!(buf, plain);
    }
}

#[test]
fn crc_of_nothing() {
    // The register starts at 0x555555; each byte 0x55 reversed is 0xAA.
    assert_eq!(crc24_ble(&[]), [0xAA, 0xAA, 0xAA]);
}

#[test]
fn empty_buffers_stay_empty() {
    let mut buf: [u8; 0] = [];
    reverse_bits(&mut buf);
    whiten(&mut buf, 0x65);
    assert_eq!(buf.len(), 0);
}
