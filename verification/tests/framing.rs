use voltage_modbus::error::{FrameFault, ModbusError};
use voltage_modbus::framing::{
    decode_header, decode_rtu_frame, decode_tcp_frame, encode_header, encode_rtu_frame,
    encode_tcp_frame, rtu_request_len, rtu_response_len, MbapHeader,
};

#[test]
fn mbap_header_layout() {
    let header = MbapHeader { transaction_id: 0x0102, protocol_id: 0, length: 6, unit_id: 0x11 };
    let bytes = encode_header(&header);
    assert_eq!(bytes, vec![0x01, 0x02, 0x00, 0x00, 0x00, 0x06, 0x11]);
    assert_eq!(decode_header(&bytes), Ok(header));
    assert_eq!(header.pdu_len(), 5);
}

#[test]
fn tcp_frame_prepends_the_header() {
    let frame = encode_tcp_frame(0x0001, 1, &[0x03, 0x00, 0x00, 0x00, 0x03]).unwrap();
    assert_eq!(frame, vec![0, 1, 0, 0, 0, 6, 1, 0x03, 0x00, 0x00, 0x00, 0x03]);
    let (header, pdu) = decode_tcp_frame(&frame).unwrap();
    assert_eq!(header, MbapHeader { transaction_id: 1, protocol_id: 0, length: 6, unit_id: 1 });
    assert_eq!(pdu, vec![0x03, 0x00, 0x00, 0x00, 0x03]);
}

#[test]
fn tcp_frames_survive_decoding() {
    for len in [1usize, 2, 5, 100, 252] {
        let pdu: Vec<u8> = (0..len).map(|i| (i * 3) as u8).collect();
        let frame = encode_tcp_frame(0xBEEF, 247, &pdu).unwrap();
        assert_eq!(frame.len(), 7 + len);
        let (header, back) = decode_tcp_frame(&frame).unwrap();
        assert_eq!(header.transaction_id, 0xBEEF);
        assert_eq!(header.protocol_id, 0);
        assert_eq!(header.length as usize, len + 1);
        assert_eq!(header.unit_id, 247);
        assert_eq!(back, pdu);
    }
}

#[test]
fn tcp_frame_refuses_a_pdu_of_the_wrong_size() {
    assert_eq!(encode_tcp_frame(1, 1, &[]), Err(ModbusError::Frame { fault: FrameFault::Length }));
    assert_eq!(
        encode_tcp_frame(1, 1, &vec![0; 253]),
        Err(ModbusError::Frame { fault: FrameFault::Length })
    );
}

#[test]
fn header_faults_are_reported() {
    assert_eq!(decode_header(&[0, 1, 0, 0, 0, 6]), Err(ModbusError::Frame { fault: FrameFault::TooShort }));
    assert_eq!(
        decode_header(&[0, 1, 0, 1, 0, 6, 1]),
        Err(ModbusError::Frame { fault: FrameFault::ProtocolId })
    );
    assert_eq!(decode_header(&[0, 1, 0, 0, 0, 1, 1]), Err(ModbusError::Frame { fault: FrameFault::Length }));
    assert_eq!(decode_header(&[0, 1, 0, 0, 0, 0, 1]), Err(ModbusError::Frame { fault: FrameFault::Length }));
    assert_eq!(
        decode_header(&[0, 1, 0, 0, 0, 254, 1]),
        Err(ModbusError::Frame { fault: FrameFault::Length })
    );
    assert!(decode_header(&[0, 1, 0, 0, 0, 2, 1]).is_ok());
    assert!(decode_header(&[0, 1, 0, 0, 0, 253, 1]).is_ok());
}

#[test]
fn tcp_frame_must_hold_what_its_length_says() {
    assert_eq!(
        decode_tcp_frame(&[0, 1, 0, 0, 0, 6, 1, 3, 0, 0, 0]),
        Err(ModbusError::Frame { fault: FrameFault::Length })
    );
    assert_eq!(
        decode_tcp_frame(&[0, 1, 0, 0, 0, 6, 1, 3, 0, 0, 0, 3, 9]),
        Err(ModbusError::Frame { fault: FrameFault::Length })
    );
    assert_eq!(decode_tcp_frame(&[0, 1]), Err(ModbusError::Frame { fault: FrameFault::TooShort }));
}

#[test]
fn rtu_reference_frame() {
    let frame = encode_rtu_frame(0x01, &[0x03, 0x00, 0x00, 0x00, 0x01]).unwrap();
    assert_eq!(frame, vec![0x01, 0x03, 0x00, 0x00, 0x00, 0x01, 0x84, 0x0A]);
    assert_eq!(decode_rtu_frame(&frame), Ok((0x01, vec![0x03, 0x00, 0x00, 0x00, 0x01])));
}

#[test]
fn rtu_frame_with_any_byte_changed_fails_the_checksum() {
    let frame = encode_rtu_frame(0x01, &[0x03, 0x00, 0x00, 0x00, 0x01]).unwrap();
    for at in 0..frame.len() {
        for bit in 0..8 {
            let mut changed = frame.clone();
            changed[at] ^= 1 << bit;
            assert!(matches!(decode_rtu_frame(&changed), Err(ModbusError::CrcMismatch { .. })));
        }
        let mut changed = frame.clone();
        changed[at] = !changed[at];
        assert!(matches!(decode_rtu_frame(&changed), Err(ModbusError::CrcMismatch { .. })));
    }
}

#[test]
fn crc_mismatch_names_both_checksums() {
    assert_eq!(
        decode_rtu_frame(&[0x01, 0x03, 0x00, 0x00, 0x00, 0x01, 0x0B, 0x84]),
        Err(ModbusError::CrcMismatch { expected: 0x0A84, actual: 0x840B })
    );
}

#[test]
fn rtu_frames_survive_decoding() {
    for len in [1usize, 2, 5, 100, 253] {
        let pdu: Vec<u8> = (0..len).map(|i| (i * 5 + 1) as u8).collect();
        let frame = encode_rtu_frame(17, &pdu).unwrap();
        assert_eq!(frame.len(), len + 3);
        assert_eq!(decode_rtu_frame(&frame), Ok((17, pdu)));
    }
}

#[test]
fn rtu_frame_sizes_are_checked() {
    assert_eq!(encode_rtu_frame(1, &[]), Err(ModbusError::Frame { fault: FrameFault::Length }));
    assert_eq!(encode_rtu_frame(1, &vec![0; 254]), Err(ModbusError::Frame { fault: FrameFault::Length }));
    assert_eq!(decode_rtu_frame(&[1, 2, 3]), Err(ModbusError::Frame { fault: FrameFault::TooShort }));
    assert_eq!(decode_rtu_frame(&vec![0; 257]), Err(ModbusError::Frame { fault: FrameFault::TooLong }));
}

#[test]
fn rtu_response_length_from_its_first_bytes() {
    assert_eq!(rtu_response_len(&[]), None);
    assert_eq!(rtu_response_len(&[1]), None);
    assert_eq!(rtu_response_len(&[1, 0x83]), Some(5));
    assert_eq!(rtu_response_len(&[1, 0x03]), None);
    assert_eq!(rtu_response_len(&[1, 0x03, 6]), Some(11));
    assert_eq!(rtu_response_len(&[1, 0x01, 250]), Some(255));
    assert_eq!(rtu_response_len(&[1, 0x05]), Some(8));
    assert_eq!(rtu_response_len(&[1, 0x10]), Some(8));
}

#[test]
fn rtu_request_length_from_its_first_bytes() {
    assert_eq!(rtu_request_len(&[1]), None);
    assert_eq!(rtu_request_len(&[1, 0x03]), Some(8));
    assert_eq!(rtu_request_len(&[1, 0x06]), Some(8));
    assert_eq!(rtu_request_len(&[1, 0x0F, 0, 0, 0, 8]), None);
    assert_eq!(rtu_request_len(&[1, 0x0F, 0, 0, 0, 8, 1]), Some(10));
    assert_eq!(rtu_request_len(&[1, 0x10, 0, 0, 0, 3, 6]), Some(15));
}
