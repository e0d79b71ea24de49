use carbon_sensor::checksum::{additive_checksum, crc8};

#[test]
fn crc8_of_two_zero_bytes() {
    assert_eq!(crc8(&[0x00, 0x00]), 0x81);
}

#[test]
fn crc8_of_datasheet_example() {
    assert_eq!(crc8(&[0xBE, 0xEF]), 0x92);
}

#[test]
fn crc8_of_check_string() {
    assert_eq!(crc8(b"123456789"), 0xF7);
}

#[test]
fn crc8_of_nothing_is_the_initial_value() {
    assert_eq!(crc8(&[]), 0xFF);
}

#[test]
fn crc8_of_common_arguments() {
    assert_eq!(crc8(&[0x00, 0x01]), 0xB0);
    assert_eq!(crc8(&[0x00, 0x02]), 0xE3);
    assert_eq!(crc8(&[0x03, 0x00]), 0xAC);
    assert_eq!(crc8(&[0xFF, 0xFF]), 0xAC);
}

#[test]
fn crc8_differs_from_its_input() {
    let data = [0x01u8, 0x02];
    let crc = crc8(&data);
    assert_eq!(crc, 0x17);
    assert_ne!(crc, data[0]);
    assert_ne!(crc, data[1]);
}

#[test]
fn crc8_is_deterministic() {
    let data = [0x12u8, 0x34, 0x56, 0x78, 0x9A];
    let first = crc8(&data);
    for _ in 0..100 {
        assert_eq!(crc8(&data), first);
    }
    let copy = data.to_vec();
    assert_eq!(crc8(&copy), first);
}

#[test]
fn crc8_sees_every_bit() {
    let base = crc8(&[0x00, 0x00]);
    for byte in 0..2 {
        for bit in 0..8 {
            let mut data = [0x00u8, 0x00];
            data[byte] ^= 1 << bit;
            assert_ne!(crc8(&data), base);
        }
    }
}

#[test]
fn additive_checksum_of_serial_start_frame() {
    assert_eq!(additive_checksum(&[0x00, 0x00, 0x02, 0x01, 0x03]), 0xF9);
}

#[test]
fn additive_checksum_of_nothing() {
    assert_eq!(additive_checksum(&[]), 0xFF);
}

#[test]
fn additive_checksum_wraps_modulo_256() {
    assert_eq!(additive_checksum(&[0xFF, 0x01]), 0xFF);
    assert_eq!(additive_checksum(&[0xFF, 0xFF, 0xFF]), 0x02);
    assert_eq!(additive_checksum(&[0x80, 0x80, 0x01]), 0xFE);
}

#[test]
fn additive_checksum_completes_the_frame_to_255() {
    let frame = [0x00u8, 0x03, 0x00, 0x7D, 0x5E, 0xA1];
    let checksum = additive_checksum(&frame);
    let total: u32 = frame.iter().map(|b| *b as u32).sum::<u32>() + checksum as u32;
    assert_eq!(total % 256, 255);
}
