//! The PDU codec: the function code and the bytes that follow it, the same
//! for both transports and for both directions.
//!
//! Request layouts, after the function code:
//!
//! | function | bytes |
//! |---|---|
//! | reads | address (2), quantity (2) |
//! | write single coil | address (2), 0xFF00 for ON or 0x0000 for OFF |
//! | write single register | address (2), value (2) |
//! | write multiple | address (2), quantity (2), byte count (1), values |
//!
//! A response carries its payload as it stands; an exception response is the
//! function code with the high bit set and one byte of exception code.

use vstd::prelude::*;
use vstd::slice::slice_subrange;
use crate::packed_len;
use crate::data_utils::{be_bytes, be_word_at, join_word, push_word};
use crate::error::{FrameFault, ModbusError, ModbusException, ModbusResult, result_view};
use crate::protocol::{ModbusFunction, ModbusRequest, ModbusResponse, RequestView, ResponseView, SlaveId};

verus! {

/// The longest PDU, function code included.
pub const MAX_PDU_LEN: usize = 253;

/// The coil value that stands for ON.
pub const COIL_ON: u16 = 0xFF00;

/// The coil value that stands for OFF.
pub const COIL_OFF: u16 = 0x0000;

/// The PDU of a request whose payload is valid.
pub open spec fn request_pdu(request: RequestView) -> Seq<u8> {
    let head = seq![request.function.code()] + be_bytes(request.address);
    match request.function {
        ModbusFunction::WriteSingleCoil => head + be_bytes(
            if request.data[0] == 1 {
                0xFF00u16
            } else {
                0x0000u16
            },
        ),
        ModbusFunction::WriteSingleRegister => head + request.data,
        ModbusFunction::WriteMultipleCoils => head + be_bytes(request.quantity) + seq![
            request.data.len() as u8,
        ] + request.data,
        ModbusFunction::WriteMultipleRegisters => head + be_bytes(request.quantity) + seq![
            request.data.len() as u8,
        ] + request.data,
        _ => head + be_bytes(request.quantity),
    }
}

/// The error that names a quantity read from a PDU as out of bounds.
pub open spec fn quantity_refusal(address: u16, quantity: u16) -> ModbusError {
    ModbusError::InvalidRequest { address: address as u32, quantity: quantity as usize }
}

/// The request that the bytes after the function code describe, for a PDU
/// of at least five bytes.
pub open spec fn parse_request_body(slave_id: SlaveId, function: ModbusFunction, pdu: Seq<u8>) -> ModbusResult<
    RequestView,
> {
    let address = be_word_at(pdu, 1);
    let word = be_word_at(pdu, 3);
    match function {
        ModbusFunction::WriteSingleCoil => if pdu.len() != 5 {
            Err(ModbusError::Frame { fault: FrameFault::TooLong })
        } else if word != 0xFF00 && word != 0x0000 {
            Err(ModbusError::InvalidValue { value: word })
        } else {
            Ok(
                RequestView {
                    slave_id,
                    function,
                    address,
                    quantity: 1,
                    data: seq![if word == 0xFF00 { 1u8 } else { 0u8 }],
                },
            )
        },
        ModbusFunction::WriteSingleRegister => if pdu.len() != 5 {
            Err(ModbusError::Frame { fault: FrameFault::TooLong })
        } else {
            Ok(RequestView { slave_id, function, address, quantity: 1, data: pdu.subrange(3, 5) })
        },
        ModbusFunction::WriteMultipleCoils | ModbusFunction::WriteMultipleRegisters => if pdu.len()
            < 6 {
            Err(ModbusError::Frame { fault: FrameFault::TooShort })
        } else if pdu[5] != pdu.len() - 6 {
            Err(ModbusError::Frame { fault: FrameFault::ByteCount })
        } else if word == 0 || word > function.quantity_limit() {
            Err(quantity_refusal(address, word))
        } else if pdu[5] != (if function == ModbusFunction::WriteMultipleCoils {
            packed_len(word as int)
        } else {
            2 * word
        }) {
            Err(ModbusError::Frame { fault: FrameFault::ByteCount })
        } else {
            Ok(
                RequestView {
                    slave_id,
                    function,
                    address,
                    quantity: word,
                    data: pdu.subrange(6, pdu.len() as int),
                },
            )
        },
        _ => if pdu.len() != 5 {
            Err(ModbusError::Frame { fault: FrameFault::TooLong })
        } else if word == 0 || word > function.quantity_limit() {
            Err(quantity_refusal(address, word))
        } else {
            Ok(RequestView { slave_id, function, address, quantity: word, data: Seq::empty() })
        },
    }
}

/// The request that a PDU describes, or the reason why it describes none.
///
/// An empty PDU and one shorter than its layout are `Frame` errors, as are
/// one longer than its layout and a byte count that disagrees with the bytes
/// present or with the quantity. A function code outside the eight is
/// `InvalidFunction`, a coil value other than 0xFF00 and 0x0000 is
/// `InvalidValue`, and a quantity of zero or above the limit of the function
/// is `InvalidRequest`.
pub open spec fn parse_request_pdu(slave_id: SlaveId, pdu: Seq<u8>) -> ModbusResult<RequestView> {
    if pdu.len() == 0 {
        Err(ModbusError::Frame { fault: FrameFault::TooShort })
    } else {
        match ModbusFunction::of_code(pdu[0]) {
            None => Err(ModbusError::InvalidFunction { code: pdu[0] }),
            Some(function) => if pdu.len() < 5 {
                Err(ModbusError::Frame { fault: FrameFault::TooShort })
            } else {
                parse_request_body(slave_id, function, pdu)
            },
        }
    }
}

/// The PDU of a response.
pub open spec fn response_pdu(response: ResponseView) -> Seq<u8> {
    match response.exception {
        Some(exception) => seq![(response.function.code() + 0x80) as u8, exception.code()],
        None => seq![response.function.code()] + response.data,
    }
}

/// The response that a PDU describes, or the reason why it describes none.
///
/// An empty PDU, one longer than 253 bytes, and a payload that is shorter or
/// longer than its layout are `Frame` errors, as are a byte count that
/// disagrees with the bytes present, an odd byte count of a register read,
/// and an exception code outside 1 to 4. A function code outside the eight,
/// with or without the exception bit, is `InvalidFunction`.
pub open spec fn parse_response_pdu(slave_id: SlaveId, pdu: Seq<u8>) -> ModbusResult<ResponseView> {
    if pdu.len() == 0 {
        Err(ModbusError::Frame { fault: FrameFault::TooShort })
    } else if pdu.len() > 253 {
        Err(ModbusError::Frame { fault: FrameFault::TooLong })
    } else if pdu[0] >= 0x80 {
        match ModbusFunction::of_code((pdu[0] - 0x80) as u8) {
            None => Err(ModbusError::InvalidFunction { code: pdu[0] }),
            Some(function) => if pdu.len() < 2 {
                Err(ModbusError::Frame { fault: FrameFault::TooShort })
            } else if pdu.len() > 2 {
                Err(ModbusError::Frame { fault: FrameFault::TooLong })
            } else {
                match ModbusException::of_code(pdu[1]) {
                    None => Err(ModbusError::Frame { fault: FrameFault::ExceptionCode }),
                    Some(exception) => Ok(
                        ResponseView {
                            slave_id,
                            function,
                            data: Seq::empty(),
                            exception: Some(exception),
                        },
                    ),
                }
            },
        }
    } else {
        match ModbusFunction::of_code(pdu[0]) {
            None => Err(ModbusError::InvalidFunction { code: pdu[0] }),
            Some(function) => {
                let data = pdu.subrange(1, pdu.len() as int);
                if function.is_read() {
                    if data.len() == 0 {
                        Err(ModbusError::Frame { fault: FrameFault::TooShort })
                    } else if data[0] != data.len() - 1 {
                        Err(ModbusError::Frame { fault: FrameFault::ByteCount })
                    } else if function.reads_registers() && data[0] % 2 != 0 {
                        Err(ModbusError::Frame { fault: FrameFault::OddByteCount })
                    } else {
                        Ok(ResponseView { slave_id, function, data, exception: None })
                    }
                } else if data.len() < 4 {
                    Err(ModbusError::Frame { fault: FrameFault::TooShort })
                } else if data.len() > 4 {
                    Err(ModbusError::Frame { fault: FrameFault::TooLong })
                } else {
                    Ok(ResponseView { slave_id, function, data, exception: None })
                }
            },
        }
    }
}

/// Copies the bytes of `bytes` from `from` to the end.
fn tail_to_vec(bytes: &[u8], from: usize) -> (tail: Vec<u8>)
    requires
        from <= bytes@.len(),
    ensures
        tail@ == bytes@.subrange(from as int, bytes@.len() as int),
{
    let mut tail: Vec<u8> = Vec::new();
    tail.extend_from_slice(slice_subrange(bytes, from, bytes.len()));
    assert(tail@ =~= bytes@.subrange(from as int, bytes@.len() as int));
    tail
}

/// Encodes a request as a PDU. A request whose quantity or data does not fit
/// its function is refused with `InvalidRequest`, naming address and quantity.
pub fn encode_request(request: &ModbusRequest) -> (pdu: ModbusResult<Vec<u8>>)
    ensures
        result_view(pdu) == if request@.payload_valid() {
            Ok::<Seq<u8>, ModbusError>(request_pdu(request@))
        } else {
            Err(request@.refusal())
        },
{
    if !request.payload_is_valid() {
        return Err(
            ModbusError::InvalidRequest {
                address: request.address as u32,
                quantity: request.quantity as usize,
            },
        );
    }
    let mut pdu: Vec<u8> = Vec::new();
    pdu.push(request.function.to_u8());
    push_word(&mut pdu, request.address);
    match request.function {
        ModbusFunction::WriteSingleCoil => {
            push_word(&mut pdu, if request.data[0] == 1 { COIL_ON } else { COIL_OFF });
        },
        ModbusFunction::WriteSingleRegister => {
            pdu.extend_from_slice(request.data.as_slice());
        },
        ModbusFunction::WriteMultipleCoils | ModbusFunction::WriteMultipleRegisters => {
            push_word(&mut pdu, request.quantity);
            pdu.push(request.data.len() as u8);
            pdu.extend_from_slice(request.data.as_slice());
        },
        _ => {
            push_word(&mut pdu, request.quantity);
        },
    }
    assert(pdu@ =~= request_pdu(request@));
    Ok(pdu)
}

/// Decodes the PDU of a request that was addressed to `slave_id`.
pub fn decode_request(slave_id: SlaveId, pdu: &[u8]) -> (request: ModbusResult<ModbusRequest>)
    ensures
        result_view(request) == parse_request_pdu(slave_id, pdu@),
{
    if pdu.len() == 0 {
        return Err(ModbusError::Frame { fault: FrameFault::TooShort });
    }
    let function = match ModbusFunction::from_u8(pdu[0]) {
        Ok(function) => function,
        Err(error) => {
            return Err(error);
        },
    };
    if pdu.len() < 5 {
        return Err(ModbusError::Frame { fault: FrameFault::TooShort });
    }
    let address: u16 = join_word(pdu[1], pdu[2]);
    let word: u16 = join_word(pdu[3], pdu[4]);
    let refused = ModbusError::InvalidRequest { address: address as u32, quantity: word as usize };
    match function {
        ModbusFunction::WriteSingleCoil => {
            if pdu.len() != 5 {
                return Err(ModbusError::Frame { fault: FrameFault::TooLong });
            }
            if word != COIL_ON && word != COIL_OFF {
                return Err(ModbusError::InvalidValue { value: word });
            }
            let request = ModbusRequest::write_single_coil(slave_id, address, word == COIL_ON);
            Ok(request)
        },
        ModbusFunction::WriteSingleRegister => {
            if pdu.len() != 5 {
                return Err(ModbusError::Frame { fault: FrameFault::TooLong });
            }
            let request = ModbusRequest {
                slave_id,
                function,
                address,
                quantity: 1,
                data: tail_to_vec(pdu, 3),
            };
            Ok(request)
        },
        ModbusFunction::WriteMultipleCoils | ModbusFunction::WriteMultipleRegisters => {
            if pdu.len() < 6 {
                return Err(ModbusError::Frame { fault: FrameFault::TooShort });
            }
            let byte_count: usize = pdu[5] as usize;
            if byte_count != pdu.len() - 6 {
                return Err(ModbusError::Frame { fault: FrameFault::ByteCount });
            }
            if word == 0 || word > function.max_quantity() {
                return Err(refused);
            }
            let expected: usize = match function {
                ModbusFunction::WriteMultipleCoils => crate::packed_byte_count(word as usize),
                _ => 2 * (word as usize),
            };
            if byte_count != expected {
                return Err(ModbusError::Frame { fault: FrameFault::ByteCount });
            }
            let request = ModbusRequest {
                slave_id,
                function,
                address,
                quantity: word,
                data: tail_to_vec(pdu, 6),
            };
            Ok(request)
        },
        _ => {
            if pdu.len() != 5 {
                return Err(ModbusError::Frame { fault: FrameFault::TooLong });
            }
            if word == 0 || word > function.max_quantity() {
                return Err(refused);
            }
            Ok(ModbusRequest::new_read(slave_id, function, address, word))
        },
    }
}

/// Encodes a response as a PDU. A response whose payload does not fit its
/// function is refused with `Frame`, fault `Length`.
pub fn encode_response(response: &ModbusResponse) -> (pdu: ModbusResult<Vec<u8>>)
    ensures
        result_view(pdu) == if response@.valid() {
            Ok::<Seq<u8>, ModbusError>(response_pdu(response@))
        } else {
            Err(ModbusError::Frame { fault: FrameFault::Length })
        },
{
    if !response.is_valid() {
        return Err(ModbusError::Frame { fault: FrameFault::Length });
    }
    let mut pdu: Vec<u8> = Vec::new();
    match response.exception {
        Some(exception) => {
            pdu.push(response.function.to_u8() + 0x80);
            pdu.push(exception.to_u8());
        },
        None => {
            pdu.push(response.function.to_u8());
            pdu.extend_from_slice(response.data.as_slice());
        },
    }
    assert(pdu@ =~= response_pdu(response@));
    Ok(pdu)
}

/// Decodes the PDU of a response that came from `slave_id`.
pub fn decode_response(slave_id: SlaveId, pdu: &[u8]) -> (response: ModbusResult<ModbusResponse>)
    ensures
        result_view(response) == parse_response_pdu(slave_id, pdu@),
{
    if pdu.len() == 0 {
        return Err(ModbusError::Frame { fault: FrameFault::TooShort });
    }
    if pdu.len() > MAX_PDU_LEN {
        return Err(ModbusError::Frame { fault: FrameFault::TooLong });
    }
    let code: u8 = pdu[0];
    if code >= 0x80 {
        let function = match ModbusFunction::from_u8(code - 0x80) {
            Ok(function) => function,
            Err(_) => {
                return Err(ModbusError::InvalidFunction { code });
            },
        };
        if pdu.len() < 2 {
            return Err(ModbusError::Frame { fault: FrameFault::TooShort });
        }
        if pdu.len() > 2 {
            return Err(ModbusError::Frame { fault: FrameFault::TooLong });
        }
        return match ModbusException::from_u8(pdu[1]) {
            None => Err(ModbusError::Frame { fault: FrameFault::ExceptionCode }),
            Some(exception) => Ok(ModbusResponse::new_exception(slave_id, function, exception)),
        };
    }
    let function = match ModbusFunction::from_u8(code) {
        Ok(function) => function,
        Err(error) => {
            return Err(error);
        },
    };
    let len: usize = pdu.len() - 1;
    if function.is_read_function() {
        if len == 0 {
            return Err(ModbusError::Frame { fault: FrameFault::TooShort });
        }
        if pdu[1] as usize != len - 1 {
            return Err(ModbusError::Frame { fault: FrameFault::ByteCount });
        }
        let registers: bool = match function {
            ModbusFunction::ReadHoldingRegisters => true,
            ModbusFunction::ReadInputRegisters => true,
            _ => false,
        };
        if registers && pdu[1] % 2 != 0 {
            return Err(ModbusError::Frame { fault: FrameFault::OddByteCount });
        }
    } else {
        if len < 4 {
            return Err(ModbusError::Frame { fault: FrameFault::TooShort });
        }
        if len > 4 {
            return Err(ModbusError::Frame { fault: FrameFault::TooLong });
        }
    }
    Ok(ModbusResponse::new_success(slave_id, function, tail_to_vec(pdu, 1)))
}

/// A request whose payload is valid survives the trip through its PDU, and
/// that PDU is at most 253 bytes long.
pub proof fn lemma_request_roundtrip(request: RequestView)
    requires
        request.payload_valid(),
    ensures
        parse_request_pdu(request.slave_id, request_pdu(request)) == Ok::<RequestView, ModbusError>(
            request,
        ),
        5 <= request_pdu(request).len() <= 253,
{
    let pdu = request_pdu(request);
    request.function.lemma_code_roundtrip();
    crate::data_utils::lemma_word_roundtrip(request.address, 0, 0);
    crate::data_utils::lemma_word_roundtrip(request.quantity, 0, 0);
    assert(be_word_at(pdu, 1) == request.address);
    match request.function {
        ModbusFunction::WriteSingleCoil => {
            assert(request.data =~= seq![request.data[0]]);
        },
        ModbusFunction::WriteSingleRegister => {
            assert(pdu.subrange(3, 5) =~= request.data);
        },
        ModbusFunction::WriteMultipleCoils | ModbusFunction::WriteMultipleRegisters => {
            assert(be_word_at(pdu, 3) == request.quantity);
            assert(pdu.subrange(6, pdu.len() as int) =~= request.data);
        },
        _ => {
            assert(be_word_at(pdu, 3) == request.quantity);
            assert(request.data =~= Seq::empty());
        },
    }
    assert(parse_request_pdu(request.slave_id, pdu)->Ok_0 =~= request);
}

/// A PDU that describes a request is the PDU of that request, and the
/// payload of the request is valid.
pub proof fn lemma_parsed_request(slave_id: SlaveId, pdu: Seq<u8>)
    requires
        parse_request_pdu(slave_id, pdu) is Ok,
    ensures
        parse_request_pdu(slave_id, pdu)->Ok_0.payload_valid(),
        parse_request_pdu(slave_id, pdu)->Ok_0.slave_id == slave_id,
        request_pdu(parse_request_pdu(slave_id, pdu)->Ok_0) == pdu,
{
    let request = parse_request_pdu(slave_id, pdu)->Ok_0;
    crate::data_utils::lemma_word_roundtrip(0, pdu[1], pdu[2]);
    crate::data_utils::lemma_word_roundtrip(0, pdu[3], pdu[4]);
    assert(request_pdu(request) =~= pdu);
}

/// A valid response survives the trip through its PDU, and that PDU is at
/// most 253 bytes long.
pub proof fn lemma_response_roundtrip(response: ResponseView)
    requires
        response.valid(),
    ensures
        parse_response_pdu(response.slave_id, response_pdu(response)) == Ok::<
            ResponseView,
            ModbusError,
        >(response),
        1 <= response_pdu(response).len() <= 253,
{
    let pdu = response_pdu(response);
    response.function.lemma_code_roundtrip();
    match response.exception {
        Some(exception) => {
            exception.lemma_code_roundtrip();
            assert(response.data =~= Seq::empty());
        },
        None => {
            assert(pdu.subrange(1, pdu.len() as int) =~= response.data);
        },
    }
    assert(parse_response_pdu(response.slave_id, pdu)->Ok_0 =~= response);
}

/// A PDU that describes a response is the PDU of that response, and the
/// response is valid.
pub proof fn lemma_parsed_response(slave_id: SlaveId, pdu: Seq<u8>)
    requires
        parse_response_pdu(slave_id, pdu) is Ok,
    ensures
        parse_response_pdu(slave_id, pdu)->Ok_0.valid(),
        parse_response_pdu(slave_id, pdu)->Ok_0.slave_id == slave_id,
        response_pdu(parse_response_pdu(slave_id, pdu)->Ok_0) == pdu,
{
    let response = parse_response_pdu(slave_id, pdu)->Ok_0;
    assert(response_pdu(response) =~= pdu);
}

} // verus!
