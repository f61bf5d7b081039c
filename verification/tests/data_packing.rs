use voltage_modbus::crc::{crc16, update, CRC_INIT};
use voltage_modbus::data_utils::{
    bytes_to_registers, join_word, pack_bits, push_word, registers_to_bytes, split_word,
    unpack_bits,
};
use voltage_modbus::error::{FrameFault, ModbusError};
use voltage_modbus::packed_byte_count;

#[test]
fn words_are_big_endian() {
    assert_eq!(split_word(0x1234), (0x12, 0x34));
    assert_eq!(split_word(0x00FF), (0x00, 0xFF));
    assert_eq!(join_word(0x12, 0x34), 0x1234);
    assert_eq!(join_word(0xFF, 0x00), 0xFF00);
    let mut out = vec![9u8];
    push_word(&mut out, 0xABCD);
    assert_eq!(out, vec![9, 0xAB, 0xCD]);
}

#[test]
fn registers_become_two_bytes_each() {
    assert_eq!(registers_to_bytes(&[0x1000, 0x1001, 0x1002]), vec![0x10, 0x00, 0x10, 0x01, 0x10, 0x02]);
    assert_eq!(registers_to_bytes(&[]), Vec::<u8>::new());
    assert_eq!(bytes_to_registers(&[0x10, 0x00, 0x10, 0x01]), Ok(vec![0x1000, 0x1001]));
    assert_eq!(bytes_to_registers(&[]), Ok(vec![]));
}

#[test]
fn odd_number_of_register_bytes_is_refused() {
    assert_eq!(
        bytes_to_registers(&[0x10, 0x00, 0x10]),
        Err(ModbusError::Frame { fault: FrameFault::OddByteCount })
    );
}

#[test]
fn registers_survive_their_bytes() {
    let registers: Vec<u16> = (0..125u16).map(|i| i.wrapping_mul(523).wrapping_add(0xFF00)).collect();
    assert_eq!(bytes_to_registers(&registers_to_bytes(&registers)), Ok(registers));
}

#[test]
fn lowest_coil_is_bit_zero() {
    assert_eq!(pack_bits(&[true]), vec![0x01]);
    assert_eq!(pack_bits(&[false, true]), vec![0x02]);
    assert_eq!(pack_bits(&[true, false, true]), vec![0x05]);
    assert_eq!(
        pack_bits(&[true, false, true, false, true, false, true, false]),
        vec![0x55]
    );
    assert_eq!(
        pack_bits(&[false, false, false, false, false, false, false, true, true]),
        vec![0x80, 0x01]
    );
    assert_eq!(pack_bits(&[]), Vec::<u8>::new());
}

#[test]
fn packed_length_rounds_up() {
    assert_eq!(packed_byte_count(0), 0);
    assert_eq!(packed_byte_count(1), 1);
    assert_eq!(packed_byte_count(8), 1);
    assert_eq!(packed_byte_count(9), 2);
    assert_eq!(packed_byte_count(1968), 246);
    assert_eq!(packed_byte_count(2000), 250);
    assert_eq!(pack_bits(&vec![true; 2000]).len(), 250);
}

#[test]
fn unpack_returns_the_bits_asked_for() {
    assert_eq!(unpack_bits(&[0x05], 3), vec![true, false, true]);
    assert_eq!(unpack_bits(&[0x80, 0x01], 9), vec![false, false, false, false, false, false, false, true, true]);
    assert_eq!(unpack_bits(&[0xFF], 0), Vec::<bool>::new());
}

#[test]
fn unpack_stops_at_the_end_of_the_bytes() {
    assert_eq!(unpack_bits(&[0x01], 20).len(), 8);
    assert_eq!(unpack_bits(&[], 5), Vec::<bool>::new());
}

#[test]
fn bits_survive_packing_at_every_length() {
    for len in 1..=2000usize {
        let bits: Vec<bool> = (0..len).map(|i| (i * 7 + len) % 3 == 0 || i % 11 == 4).collect();
        let packed = pack_bits(&bits);
        assert_eq!(packed.len(), packed_byte_count(len));
        assert_eq!(unpack_bits(&packed, len), bits);
    }
}

#[test]
fn padding_bits_are_zero() {
    let packed = pack_bits(&[true, true, true]);
    assert_eq!(packed, vec![0x07]);
    assert_eq!(unpack_bits(&packed, 8), vec![true, true, true, false, false, false, false, false]);
}

#[test]
fn checksum_of_the_reference_frame() {
    assert_eq!(crc16(&[0x01, 0x03, 0x00, 0x00, 0x00, 0x01]), 0x0A84);
}

#[test]
fn checksum_of_nothing_is_the_initial_value() {
    assert_eq!(crc16(&[]), 0xFFFF);
    assert_eq!(CRC_INIT, 0xFFFF);
}

#[test]
fn checksum_of_known_frames() {
    assert_eq!(crc16(b"123456789"), 0x4B37);
    assert_eq!(crc16(&[0x01, 0x03, 0x00, 0x00, 0x00, 0x0A]), 0xCDC5);
    assert_eq!(update(0xFFFF, 0x01), crc16(&[0x01]));
}

#[test]
fn checksum_over_its_own_bytes_is_zero() {
    let samples: Vec<Vec<u8>> = vec![
        vec![],
        vec![0x00],
        vec![0x01, 0x03, 0x00, 0x00, 0x00, 0x01],
        (0..=255u8).collect(),
        vec![0xFF; 300],
    ];
    for sample in samples {
        let crc = crc16(&sample);
        let mut with_crc = sample.clone();
        with_crc.push((crc & 0xFF) as u8);
        with_crc.push((crc >> 8) as u8);
        assert_eq!(crc16(&with_crc), 0);
    }
}
