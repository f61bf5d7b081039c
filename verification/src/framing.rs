//! The two envelopes of a PDU.
//!
//! TCP: a seven-byte MBAP header, then the PDU.
//!
//! | offset | size | field |
//! |---|---|---|
//! | 0 | 2 | transaction identifier, big-endian |
//! | 2 | 2 | protocol identifier, always 0 |
//! | 4 | 2 | length: unit identifier and PDU, big-endian |
//! | 6 | 1 | unit identifier |
//!
//! RTU: the unit address, the PDU, and the CRC-16 of both, low byte first.

use vstd::prelude::*;
use vstd::slice::slice_subrange;
use crate::crc::{crc16, crc16_of, crc_bytes, lemma_crc_detects_changed_byte};
use crate::data_utils::{be_bytes, be_word_at, join_word, lemma_word_roundtrip, push_word, split_word, word_of};
use crate::error::{FrameFault, ModbusError, ModbusResult, result_view};
use crate::protocol::SlaveId;

verus! {

/// Number of bytes of the MBAP header.
pub const MBAP_HEADER_LEN: usize = 7;

/// The smallest value of the MBAP length field: unit identifier and one byte of PDU.
pub const MBAP_MIN_LENGTH: u16 = 2;

/// The largest value of the MBAP length field.
pub const MBAP_MAX_LENGTH: u16 = 253;

/// The shortest RTU frame: address, one byte of PDU, checksum.
pub const RTU_MIN_FRAME_LEN: usize = 4;

/// The longest RTU frame: address, 253 bytes of PDU, checksum.
pub const RTU_MAX_FRAME_LEN: usize = 256;

/// The header that precedes a PDU on a TCP stream.
#[derive(Debug, Clone, Copy, PartialEq, Eq, Structural)]
pub struct MbapHeader {
    pub transaction_id: u16,
    pub protocol_id: u16,
    pub length: u16,
    pub unit_id: SlaveId,
}

impl MbapHeader {
    /// Whether the header may stand on the wire: protocol identifier 0 and
    /// a length from 2 to 253.
    pub open spec fn valid(self) -> bool {
        self.protocol_id == 0 && 2 <= self.length <= 253
    }

    /// The seven bytes of the header.
    pub open spec fn bytes(self) -> Seq<u8> {
        be_bytes(self.transaction_id) + be_bytes(self.protocol_id) + be_bytes(self.length) + seq![
            self.unit_id,
        ]
    }

    /// Number of bytes of the PDU that follows the header.
    pub open spec fn body_len(self) -> int {
        if self.length >= 1 {
            self.length - 1
        } else {
            0
        }
    }

    /// Returns the number of bytes of the PDU that follows the header: the
    /// length field less the unit identifier.
    pub fn pdu_len(&self) -> (n: usize)
        ensures
            n == self.body_len(),
    {
        if self.length >= 1 {
            (self.length - 1) as usize
        } else {
            0
        }
    }
}

/// The header that the first seven bytes hold, or why they hold none: fewer
/// than seven bytes are `TooShort`, a protocol identifier other than 0 is
/// `ProtocolId`, a length outside 2 to 253 is `Length`.
pub open spec fn parse_mbap(bytes: Seq<u8>) -> ModbusResult<MbapHeader> {
    if bytes.len() < 7 {
        Err(ModbusError::Frame { fault: FrameFault::TooShort })
    } else {
        let header = MbapHeader {
            transaction_id: be_word_at(bytes, 0),
            protocol_id: be_word_at(bytes, 2),
            length: be_word_at(bytes, 4),
            unit_id: bytes[6],
        };
        if header.protocol_id != 0 {
            Err(ModbusError::Frame { fault: FrameFault::ProtocolId })
        } else if header.length < 2 || header.length > 253 {
            Err(ModbusError::Frame { fault: FrameFault::Length })
        } else {
            Ok(header)
        }
    }
}

/// The TCP frame that carries `pdu` for `unit_id` under `transaction_id`.
pub open spec fn tcp_frame(transaction_id: u16, unit_id: SlaveId, pdu: Seq<u8>) -> Seq<u8> {
    (MbapHeader { transaction_id, protocol_id: 0, length: (pdu.len() + 1) as u16, unit_id }).bytes()
        + pdu
}

/// The header and the PDU of a TCP frame, or why the bytes are no frame: a
/// header that `parse_mbap` refuses, or a number of bytes after the header
/// other than the length field announces (`Length`).
pub open spec fn parse_tcp_frame(frame: Seq<u8>) -> ModbusResult<(MbapHeader, Seq<u8>)> {
    match parse_mbap(frame) {
        Err(error) => Err(error),
        Ok(header) => if frame.len() != 7 + header.body_len() {
            Err(ModbusError::Frame { fault: FrameFault::Length })
        } else {
            Ok((header, frame.subrange(7, frame.len() as int)))
        },
    }
}

/// Writes a header as its seven bytes. Nothing is checked.
pub fn encode_header(header: &MbapHeader) -> (bytes: Vec<u8>)
    ensures
        bytes@ == header.bytes(),
{
    let mut bytes: Vec<u8> = Vec::new();
    push_word(&mut bytes, header.transaction_id);
    push_word(&mut bytes, header.protocol_id);
    push_word(&mut bytes, header.length);
    bytes.push(header.unit_id);
    assert(bytes@ =~= header.bytes());
    bytes
}

/// Reads and checks the header in the first seven bytes.
pub fn decode_header(bytes: &[u8]) -> (header: ModbusResult<MbapHeader>)
    ensures
        header == parse_mbap(bytes@),
{
    if bytes.len() < MBAP_HEADER_LEN {
        return Err(ModbusError::Frame { fault: FrameFault::TooShort });
    }
    let header = MbapHeader {
        transaction_id: join_word(bytes[0], bytes[1]),
        protocol_id: join_word(bytes[2], bytes[3]),
        length: join_word(bytes[4], bytes[5]),
        unit_id: bytes[6],
    };
    if header.protocol_id != 0 {
        Err(ModbusError::Frame { fault: FrameFault::ProtocolId })
    } else if header.length < MBAP_MIN_LENGTH || header.length > MBAP_MAX_LENGTH {
        Err(ModbusError::Frame { fault: FrameFault::Length })
    } else {
        Ok(header)
    }
}

/// Wraps a PDU of 1 to 252 bytes in an MBAP header. Any other size is
/// refused with `Frame`, fault `Length`.
pub fn encode_tcp_frame(transaction_id: u16, unit_id: SlaveId, pdu: &[u8]) -> (frame: ModbusResult<
    Vec<u8>,
>)
    ensures
        result_view(frame) == if 1 <= pdu@.len() <= 252 {
            Ok::<Seq<u8>, ModbusError>(tcp_frame(transaction_id, unit_id, pdu@))
        } else {
            Err(ModbusError::Frame { fault: FrameFault::Length })
        },
{
    if pdu.len() == 0 || pdu.len() > 252 {
        return Err(ModbusError::Frame { fault: FrameFault::Length });
    }
    let header = MbapHeader {
        transaction_id,
        protocol_id: 0,
        length: (pdu.len() + 1) as u16,
        unit_id,
    };
    let mut frame = encode_header(&header);
    frame.extend_from_slice(pdu);
    assert(frame@ =~= tcp_frame(transaction_id, unit_id, pdu@));
    Ok(frame)
}

/// Unwraps a TCP frame into its header and its PDU.
pub fn decode_tcp_frame(frame: &[u8]) -> (parts: ModbusResult<(MbapHeader, Vec<u8>)>)
    ensures
        match parts {
            Ok((header, pdu)) => parse_tcp_frame(frame@) == Ok::<(MbapHeader, Seq<u8>), ModbusError>(
                (header, pdu@),
            ),
            Err(error) => parse_tcp_frame(frame@) == Err::<(MbapHeader, Seq<u8>), ModbusError>(
                error,
            ),
        },
{
    let header = match decode_header(frame) {
        Ok(header) => header,
        Err(error) => {
            return Err(error);
        },
    };
    if frame.len() != MBAP_HEADER_LEN + header.pdu_len() {
        return Err(ModbusError::Frame { fault: FrameFault::Length });
    }
    let mut pdu: Vec<u8> = Vec::new();
    pdu.extend_from_slice(slice_subrange(frame, MBAP_HEADER_LEN, frame.len()));
    assert(pdu@ =~= frame@.subrange(7, frame@.len() as int));
    Ok((header, pdu))
}

/// A PDU of 1 to 252 bytes survives the trip through its TCP frame, and so
/// do the transaction and unit identifiers.
pub proof fn lemma_tcp_frame_roundtrip(transaction_id: u16, unit_id: SlaveId, pdu: Seq<u8>)
    requires
        1 <= pdu.len() <= 252,
    ensures
        parse_tcp_frame(tcp_frame(transaction_id, unit_id, pdu)) == Ok::<
            (MbapHeader, Seq<u8>),
            ModbusError,
        >(
            (
                MbapHeader {
                    transaction_id,
                    protocol_id: 0,
                    length: (pdu.len() + 1) as u16,
                    unit_id,
                },
                pdu,
            ),
        ),
        tcp_frame(transaction_id, unit_id, pdu).len() == 7 + pdu.len(),
{
    let frame = tcp_frame(transaction_id, unit_id, pdu);
    let length: u16 = (pdu.len() + 1) as u16;
    lemma_word_roundtrip(transaction_id, 0, 0);
    lemma_word_roundtrip(0, 0, 0);
    lemma_word_roundtrip(length, 0, 0);
    assert(be_word_at(frame, 0) == transaction_id);
    assert(be_word_at(frame, 2) == 0);
    assert(be_word_at(frame, 4) == length);
    assert(frame[6] == unit_id);
    assert(frame.subrange(7, frame.len() as int) =~= pdu);
}

/// Bytes that are a TCP frame are the frame of the header and PDU they hold.
pub proof fn lemma_parsed_tcp_frame(frame: Seq<u8>)
    requires
        parse_tcp_frame(frame) is Ok,
    ensures
        ({
            let (header, pdu) = parse_tcp_frame(frame)->Ok_0;
            &&& header.valid()
            &&& 1 <= pdu.len() <= 252
            &&& header.length == pdu.len() + 1
            &&& tcp_frame(header.transaction_id, header.unit_id, pdu) == frame
        }),
{
    let (header, pdu) = parse_tcp_frame(frame)->Ok_0;
    lemma_word_roundtrip(0, frame[0], frame[1]);
    lemma_word_roundtrip(0, frame[2], frame[3]);
    lemma_word_roundtrip(0, frame[4], frame[5]);
    assert(tcp_frame(header.transaction_id, header.unit_id, pdu) =~= frame);
}

/// The RTU frame that carries `pdu` to or from `slave_id`.
pub open spec fn rtu_frame(slave_id: SlaveId, pdu: Seq<u8>) -> Seq<u8> {
    let body = seq![slave_id] + pdu;
    body + crc_bytes(crc16_of(body))
}

/// The checksum that stands at the end of a frame of at least two bytes.
pub open spec fn rtu_received_crc(frame: Seq<u8>) -> u16 {
    word_of(frame[frame.len() - 1], frame[frame.len() - 2])
}

/// The unit address and the PDU of an RTU frame, or why the bytes are no
/// frame: fewer than 4 bytes are `TooShort`, more than 256 are `TooLong`,
/// and a checksum other than the one computed over address and PDU is
/// `CrcMismatch` with the computed value as `expected`.
pub open spec fn parse_rtu_frame(frame: Seq<u8>) -> ModbusResult<(SlaveId, Seq<u8>)> {
    if frame.len() < 4 {
        Err(ModbusError::Frame { fault: FrameFault::TooShort })
    } else if frame.len() > 256 {
        Err(ModbusError::Frame { fault: FrameFault::TooLong })
    } else {
        let expected = crc16_of(frame.take(frame.len() - 2));
        let actual = rtu_received_crc(frame);
        if expected != actual {
            Err(ModbusError::CrcMismatch { expected, actual })
        } else {
            Ok((frame[0], frame.subrange(1, frame.len() - 2)))
        }
    }
}

/// Wraps a PDU of 1 to 253 bytes in an RTU frame. Any other size is refused
/// with `Frame`, fault `Length`.
pub fn encode_rtu_frame(slave_id: SlaveId, pdu: &[u8]) -> (frame: ModbusResult<Vec<u8>>)
    ensures
        result_view(frame) == if 1 <= pdu@.len() <= 253 {
            Ok::<Seq<u8>, ModbusError>(rtu_frame(slave_id, pdu@))
        } else {
            Err(ModbusError::Frame { fault: FrameFault::Length })
        },
{
    if pdu.len() == 0 || pdu.len() > 253 {
        return Err(ModbusError::Frame { fault: FrameFault::Length });
    }
    let mut frame: Vec<u8> = Vec::new();
    frame.push(slave_id);
    frame.extend_from_slice(pdu);
    assert(frame@ =~= seq![slave_id] + pdu@);
    let crc: u16 = crc16(frame.as_slice());
    let (hi, lo) = split_word(crc);
    frame.push(lo);
    frame.push(hi);
    assert(frame@ =~= rtu_frame(slave_id, pdu@));
    Ok(frame)
}

/// Checks the checksum of an RTU frame and unwraps it into the unit address
/// and the PDU.
pub fn decode_rtu_frame(frame: &[u8]) -> (parts: ModbusResult<(SlaveId, Vec<u8>)>)
    ensures
        match parts {
            Ok((slave_id, pdu)) => parse_rtu_frame(frame@) == Ok::<(SlaveId, Seq<u8>), ModbusError>(
                (slave_id, pdu@),
            ),
            Err(error) => parse_rtu_frame(frame@) == Err::<(SlaveId, Seq<u8>), ModbusError>(error),
        },
{
    let len: usize = frame.len();
    if len < RTU_MIN_FRAME_LEN {
        return Err(ModbusError::Frame { fault: FrameFault::TooShort });
    }
    if len > RTU_MAX_FRAME_LEN {
        return Err(ModbusError::Frame { fault: FrameFault::TooLong });
    }
    let body = slice_subrange(frame, 0, len - 2);
    assert(body@ =~= frame@.take(len - 2));
    let expected: u16 = crc16(body);
    let actual: u16 = join_word(frame[len - 1], frame[len - 2]);
    if expected != actual {
        return Err(ModbusError::CrcMismatch { expected, actual });
    }
    let mut pdu: Vec<u8> = Vec::new();
    pdu.extend_from_slice(slice_subrange(frame, 1, len - 2));
    assert(pdu@ =~= frame@.subrange(1, len - 2));
    Ok((frame[0], pdu))
}

/// A PDU of 1 to 253 bytes survives the trip through its RTU frame, and so
/// does the unit address.
pub proof fn lemma_rtu_frame_roundtrip(slave_id: SlaveId, pdu: Seq<u8>)
    requires
        1 <= pdu.len() <= 253,
    ensures
        parse_rtu_frame(rtu_frame(slave_id, pdu)) == Ok::<(SlaveId, Seq<u8>), ModbusError>(
            (slave_id, pdu),
        ),
        rtu_frame(slave_id, pdu).len() == pdu.len() + 3,
{
    let body = seq![slave_id] + pdu;
    let crc = crc16_of(body);
    let frame = rtu_frame(slave_id, pdu);
    lemma_word_roundtrip(crc, 0, 0);
    assert(frame.take(frame.len() - 2) =~= body);
    assert(frame.subrange(1, frame.len() - 2) =~= pdu);
}

/// Bytes that are an RTU frame are the frame of the address and PDU they hold.
pub proof fn lemma_parsed_rtu_frame(frame: Seq<u8>)
    requires
        parse_rtu_frame(frame) is Ok,
    ensures
        ({
            let (slave_id, pdu) = parse_rtu_frame(frame)->Ok_0;
            &&& 1 <= pdu.len() <= 253
            &&& rtu_frame(slave_id, pdu) == frame
        }),
{
    let (slave_id, pdu) = parse_rtu_frame(frame)->Ok_0;
    let n = frame.len() as int;
    lemma_word_roundtrip(0, frame[n - 1], frame[n - 2]);
    assert(seq![slave_id] + pdu =~= frame.take(n - 2));
    assert(rtu_frame(slave_id, pdu) =~= frame);
}

/// A frame in which one byte was changed on the way no longer passes the
/// checksum, whichever byte it was.
pub proof fn lemma_rtu_detects_changed_byte(slave_id: SlaveId, pdu: Seq<u8>, at: int, byte: u8)
    requires
        1 <= pdu.len() <= 253,
        0 <= at < rtu_frame(slave_id, pdu).len(),
        byte != rtu_frame(slave_id, pdu)[at],
    ensures
        parse_rtu_frame(rtu_frame(slave_id, pdu).update(at, byte)) is Err,
        parse_rtu_frame(rtu_frame(slave_id, pdu).update(at, byte))->Err_0 is CrcMismatch,
{
    let body = seq![slave_id] + pdu;
    let crc = crc16_of(body);
    let frame = rtu_frame(slave_id, pdu);
    let changed = frame.update(at, byte);
    let n = frame.len() as int;
    lemma_word_roundtrip(crc, 0, 0);
    assert(frame.take(n - 2) =~= body);
    assert(rtu_received_crc(frame) == crc);
    if at < n - 2 {
        assert(changed.take(n - 2) =~= body.update(at, byte));
        lemma_crc_detects_changed_byte(body, at, byte);
        assert(rtu_received_crc(changed) == crc);
    } else {
        assert(changed.take(n - 2) =~= body);
        lemma_word_roundtrip(0, changed[n - 1], changed[n - 2]);
        assert(rtu_received_crc(changed) != crc);
    }
}

/// Total length of the RTU frame that answers a request, as far as its
/// first bytes tell: 5 for an exception response, 8 for the echo of a write,
/// and 5 plus the byte count for a read. `None` while more bytes are needed
/// to tell.
pub open spec fn rtu_response_frame_len(prefix: Seq<u8>) -> Option<int> {
    if prefix.len() < 2 {
        None
    } else if prefix[1] >= 0x80 {
        Some(5)
    } else if 1 <= prefix[1] <= 4 {
        if prefix.len() < 3 {
            None
        } else {
            Some(5 + prefix[2])
        }
    } else {
        Some(8)
    }
}

/// Tells from the first bytes of an RTU response how long the whole frame
/// is, so that a reader on a reliable line knows when the frame is complete
/// without waiting for the silent interval.
pub fn rtu_response_len(prefix: &[u8]) -> (len: Option<usize>)
    ensures
        match len {
            Some(n) => rtu_response_frame_len(prefix@) == Some(n as int),
            None => rtu_response_frame_len(prefix@) is None,
        },
{
    if prefix.len() < 2 {
        None
    } else if prefix[1] >= 0x80 {
        Some(5)
    } else if 1 <= prefix[1] && prefix[1] <= 4 {
        if prefix.len() < 3 {
            None
        } else {
            Some(5 + prefix[2] as usize)
        }
    } else {
        Some(8)
    }
}

/// Total length of the RTU frame of a request, as far as its first bytes
/// tell: 9 plus the byte count for a write of several values, 8 for every
/// other function. `None` while more bytes are needed to tell.
pub open spec fn rtu_request_frame_len(prefix: Seq<u8>) -> Option<int> {
    if prefix.len() < 2 {
        None
    } else if prefix[1] == 0x0F || prefix[1] == 0x10 {
        if prefix.len() < 7 {
            None
        } else {
            Some(9 + prefix[6])
        }
    } else {
        Some(8)
    }
}

/// Tells from the first bytes of an RTU request how long the whole frame is.
pub fn rtu_request_len(prefix: &[u8]) -> (len: Option<usize>)
    ensures
        match len {
            Some(n) => rtu_request_frame_len(prefix@) == Some(n as int),
            None => rtu_request_frame_len(prefix@) is None,
        },
{
    if prefix.len() < 2 {
        None
    } else if prefix[1] == 0x0F || prefix[1] == 0x10 {
        if prefix.len() < 7 {
            None
        } else {
            Some(9 + prefix[6] as usize)
        }
    } else {
        Some(8)
    }
}

} // verus!
