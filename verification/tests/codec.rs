use unio_bang::BusError;
use unio_bang::codec::build_frame;
use unio_bang::codec::check_frame;
use unio_bang::codec::crc8;
use unio_bang::codec::crc8_update;
use unio_bang::codec::decode_byte;
use unio_bang::codec::encode_byte;

#[test]
fn encode_byte_is_most_significant_bit_first() {
    let bits = encode_byte(0xA1);
    assert_eq!(bits, vec![true, false, true, false, false, false, false, true]);
    assert_eq!(encode_byte(0x00), vec![false; 8]);
    assert_eq!(encode_byte(0xFF), vec![true; 8]);
}

#[test]
fn byte_round_trips_through_its_bits() {
    for b in 0..=255u8 {
        assert_eq!(decode_byte(&encode_byte(b)), b);
    }
}

#[test]
fn crc8_matches_the_reference_check_value() {
    // CRC-8 with polynomial 0x07, initial value 0: the classic check input
    // "123456789" yields 0xF4.
    let data = vec![0x31, 0x32, 0x33, 0x34, 0x35, 0x36, 0x37, 0x38, 0x39];
    assert_eq!(crc8(&data, 0x07, 0x00), 0xF4);
}

#[test]
fn crc8_of_nothing_is_the_initial_value() {
    assert_eq!(crc8(&Vec::new(), 0x07, 0x00), 0x00);
    assert_eq!(crc8(&Vec::new(), 0x07, 0x5A), 0x5A);
}

#[test]
fn crc8_update_folds_one_byte() {
    // One byte 0x00 under polynomial 0x07 from a zero accumulator stays 0.
    assert_eq!(crc8_update(0x00, 0x00, 0x07), 0x00);
    // 0x80 shifted out on the first step folds the polynomial in.
    assert_eq!(crc8_update(0x00, 0x80, 0x07), crc8(&vec![0x80], 0x07, 0x00));
}

#[test]
fn frame_carries_payload_then_crc() {
    let data = vec![0x12, 0x34];
    let frame = build_frame(0xA1, 0x6C, &data, 0x07, 0x00);
    assert_eq!(frame.len(), 5);
    assert_eq!(&frame[..4], &[0xA1, 0x6C, 0x12, 0x34]);
    let payload = vec![0xA1, 0x6C, 0x12, 0x34];
    assert_eq!(frame[4], crc8(&payload, 0x07, 0x00));
}

#[test]
fn frame_round_trips_through_check() {
    let data = vec![0x12, 0x34, 0x56];
    let frame = build_frame(0xA1, 0x6C, &data, 0x07, 0x00);
    let (device_select, command, decoded) = check_frame(&frame, 0x07, 0x00).unwrap();
    assert_eq!(device_select, 0xA1);
    assert_eq!(command, 0x6C);
    assert_eq!(decoded, data);
}

#[test]
fn corrupted_frame_fails_its_crc() {
    let data = vec![0x12];
    let mut frame = build_frame(0xA1, 0x6C, &data, 0x07, 0x00);
    let last = frame.len() - 1;
    frame[last] ^= 0x01;
    assert_eq!(check_frame(&frame, 0x07, 0x00), Err(BusError::CrcMismatch));
}

#[test]
fn short_frame_fails_its_crc() {
    assert_eq!(check_frame(&vec![0xA1, 0x6C], 0x07, 0x00), Err(BusError::CrcMismatch));
}

#[test]
fn frame_round_trips_over_the_wire_bits() {
    let data = vec![0x12, 0x34];
    let frame = build_frame(0xA1, 0x6C, &data, 0x07, 0x00);
    let mut wire: Vec<bool> = Vec::new();
    for byte in &frame {
        wire.extend(encode_byte(*byte));
    }
    assert_eq!(wire.len(), frame.len() * 8);
    let mut received: Vec<u8> = Vec::new();
    for chunk in wire.chunks(8) {
        received.push(decode_byte(&chunk.to_vec()));
    }
    let (device_select, command, decoded) = check_frame(&received, 0x07, 0x00).unwrap();
    assert_eq!(device_select, 0xA1);
    assert_eq!(command, 0x6C);
    assert_eq!(decoded, data);
}
