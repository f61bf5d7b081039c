//! The responder: from a request to the change of the bank and the response,
//! and the bookkeeping of a TCP server around it.
//!
//! Nothing here reads or writes a socket. A caller hands over the bytes of
//! one frame and gets back the bytes to send, or the decision to close the
//! connection. A frame that breaks the framing layer closes the connection;
//! a PDU that cannot be served is answered with an exception response.

use vstd::prelude::*;
use crate::packed_len;
use crate::data_utils::{
    be_bytes, bytes_registers, bytes_to_registers, join_word, pack_bits, packed_bits, push_word,
    registers_bytes, registers_to_bytes, unpack_bits, unpacked_bits, word_of,
};
use crate::error::{ConfigFault, ModbusError, ModbusException, ModbusResult, result_view};
use crate::framing::{
    decode_rtu_frame, decode_tcp_frame, encode_rtu_frame, encode_tcp_frame, parse_rtu_frame,
    parse_tcp_frame, rtu_frame, tcp_frame,
};
use crate::pdu::{decode_request, encode_response, parse_request_pdu, response_pdu};
use crate::protocol::{ModbusFunction, ModbusRequest, ModbusResponse, RequestView, ResponseView, SlaveId};
use crate::register_bank::{BankView, ModbusRegisterBank, read_range, write_one, write_range};

verus! {

/// The payload that answers a read of bits: the byte count, then the bits
/// packed eight to a byte.
pub open spec fn bits_payload(bits: Seq<bool>) -> Seq<u8> {
    seq![packed_len(bits.len() as int) as u8] + packed_bits(bits)
}

/// The payload that answers a read of registers: the byte count, then two
/// bytes per register.
pub open spec fn registers_payload(registers: Seq<u16>) -> Seq<u8> {
    seq![(2 * registers.len()) as u8] + registers_bytes(registers)
}

/// The response that carries `data` in answer to `request`.
pub open spec fn success_reply(request: RequestView, data: Seq<u8>) -> ResponseView {
    ResponseView { slave_id: request.slave_id, function: request.function, data, exception: None }
}

/// The exception response that reports `error` in answer to `request`.
pub open spec fn exception_reply(request: RequestView, error: ModbusError) -> ResponseView {
    ResponseView {
        slave_id: request.slave_id,
        function: request.function,
        data: Seq::empty(),
        exception: Some(error.exception()),
    }
}

/// The answer to a read: the payload of the items, or the exception.
pub open spec fn read_reply<T>(
    request: RequestView,
    items: ModbusResult<Seq<T>>,
    payload: spec_fn(Seq<T>) -> Seq<u8>,
) -> ResponseView {
    match items {
        Ok(items) => success_reply(request, payload(items)),
        Err(error) => exception_reply(request, error),
    }
}

/// The answer to a write: `echo` if the space took the values, else the
/// exception.
pub open spec fn write_reply<T>(request: RequestView, written: ModbusResult<Seq<T>>, echo: Seq<u8>) -> ResponseView {
    match written {
        Ok(_) => success_reply(request, echo),
        Err(error) => exception_reply(request, error),
    }
}

/// The space after a write: the new contents if the space took the values,
/// else the old ones.
pub open spec fn space_after<T>(space: Seq<T>, written: ModbusResult<Seq<T>>) -> Seq<T> {
    match written {
        Ok(after) => after,
        Err(_) => space,
    }
}

/// What serving a request does: the bank afterwards and the response.
///
/// A request whose quantity or data does not fit its function changes
/// nothing and is answered with an illegal data value. A read answers with
/// the items of its range; a write changes its range and answers with the
/// echo of address and value, or of address and quantity. A range that
/// leaves the mapped part of the space changes nothing and is answered with
/// an illegal data address.
pub open spec fn serve(bank: BankView, request: RequestView) -> (BankView, ResponseView) {
    if !request.payload_valid() {
        (bank, exception_reply(request, request.refusal()))
    } else {
        match request.function {
            ModbusFunction::ReadCoils => (
                bank,
                read_reply(
                    request,
                    read_range(bank.coils, request.address, request.quantity, 2000),
                    |bits: Seq<bool>| bits_payload(bits),
                ),
            ),
            ModbusFunction::ReadDiscreteInputs => (
                bank,
                read_reply(
                    request,
                    read_range(bank.discrete_inputs, request.address, request.quantity, 2000),
                    |bits: Seq<bool>| bits_payload(bits),
                ),
            ),
            ModbusFunction::ReadHoldingRegisters => (
                bank,
                read_reply(
                    request,
                    read_range(bank.holding_registers, request.address, request.quantity, 125),
                    |registers: Seq<u16>| registers_payload(registers),
                ),
            ),
            ModbusFunction::ReadInputRegisters => (
                bank,
                read_reply(
                    request,
                    read_range(bank.input_registers, request.address, request.quantity, 125),
                    |registers: Seq<u16>| registers_payload(registers),
                ),
            ),
            ModbusFunction::WriteSingleCoil => {
                let on = request.data[0] == 1;
                let written = write_one(bank.coils, request.address, on);
                (
                    bank.with_coils(space_after(bank.coils, written)),
                    write_reply(
                        request,
                        written,
                        be_bytes(request.address) + be_bytes(
                            if on {
                                0xFF00u16
                            } else {
                                0x0000u16
                            },
                        ),
                    ),
                )
            },
            ModbusFunction::WriteSingleRegister => {
                let written = write_one(
                    bank.holding_registers,
                    request.address,
                    word_of(request.data[0], request.data[1]),
                );
                (
                    bank.with_holding_registers(space_after(bank.holding_registers, written)),
                    write_reply(request, written, be_bytes(request.address) + request.data),
                )
            },
            ModbusFunction::WriteMultipleCoils => {
                let written = write_range(
                    bank.coils,
                    request.address,
                    unpacked_bits(request.data, request.quantity as nat),
                    1968,
                );
                (
                    bank.with_coils(space_after(bank.coils, written)),
                    write_reply(
                        request,
                        written,
                        be_bytes(request.address) + be_bytes(request.quantity),
                    ),
                )
            },
            ModbusFunction::WriteMultipleRegisters => {
                let written = write_range(
                    bank.holding_registers,
                    request.address,
                    bytes_registers(request.data),
                    123,
                );
                (
                    bank.with_holding_registers(space_after(bank.holding_registers, written)),
                    write_reply(
                        request,
                        written,
                        be_bytes(request.address) + be_bytes(request.quantity),
                    ),
                )
            },
        }
    }
}

/// The PDU of the exception response to a request whose first byte is `code`.
pub open spec fn exception_pdu(code: u8, exception: ModbusException) -> Seq<u8> {
    seq![if code >= 0x80 { code } else { (code + 0x80) as u8 }, exception.code()]
}

/// What answering a request PDU does: the bank afterwards and the response
/// PDU. A PDU that describes no request changes nothing and is answered with
/// the exception that stands for the reason; an empty PDU counts as
/// function code 0.
pub open spec fn answer_pdu(bank: BankView, slave_id: SlaveId, pdu: Seq<u8>) -> (BankView, Seq<u8>) {
    match parse_request_pdu(slave_id, pdu) {
        Ok(request) => (serve(bank, request).0, response_pdu(serve(bank, request).1)),
        Err(error) => (
            bank,
            exception_pdu(
                if pdu.len() > 0 {
                    pdu[0]
                } else {
                    0
                },
                error.exception(),
            ),
        ),
    }
}

/// What a TCP frame does: the bank afterwards, and the frame to send back
/// under the same transaction and unit identifiers, or the framing error
/// that ends the connection.
pub open spec fn answer_tcp(bank: BankView, frame: Seq<u8>) -> (BankView, ModbusResult<Seq<u8>>) {
    match parse_tcp_frame(frame) {
        Err(error) => (bank, Err(error)),
        Ok((header, pdu)) => (
            answer_pdu(bank, header.unit_id, pdu).0,
            Ok(
                tcp_frame(
                    header.transaction_id,
                    header.unit_id,
                    answer_pdu(bank, header.unit_id, pdu).1,
                ),
            ),
        ),
    }
}

/// What an RTU frame does to the unit with address `own_id`: the bank
/// afterwards, and the frame to send back if there is one. A broadcast write
/// takes effect and is not answered; a broadcast read and a frame for
/// another unit are ignored.
pub open spec fn answer_rtu(bank: BankView, own_id: SlaveId, frame: Seq<u8>) -> (
    BankView,
    ModbusResult<Option<Seq<u8>>>,
) {
    match parse_rtu_frame(frame) {
        Err(error) => (bank, Err(error)),
        Ok((slave_id, pdu)) => if slave_id == 0 {
            match parse_request_pdu(0, pdu) {
                Ok(request) => if request.function.is_write() {
                    (serve(bank, request).0, Ok(None))
                } else {
                    (bank, Ok(None))
                },
                Err(_) => (bank, Ok(None)),
            }
        } else if slave_id != own_id {
            (bank, Ok(None))
        } else {
            (
                answer_pdu(bank, slave_id, pdu).0,
                Ok(Some(rtu_frame(slave_id, answer_pdu(bank, slave_id, pdu).1))),
            )
        },
    }
}

/// Builds the payload that answers a read of bits.
fn bits_to_payload(bits: &Vec<bool>) -> (data: Vec<u8>)
    requires
        bits@.len() <= 2000,
    ensures
        data@ == bits_payload(bits@),
{
    let packed = pack_bits(bits.as_slice());
    let mut data: Vec<u8> = Vec::new();
    data.push(packed.len() as u8);
    data.extend_from_slice(packed.as_slice());
    assert(data@ =~= bits_payload(bits@));
    data
}

/// Builds the payload that answers a read of registers.
fn registers_to_payload(registers: &Vec<u16>) -> (data: Vec<u8>)
    requires
        registers@.len() <= 125,
    ensures
        data@ == registers_payload(registers@),
{
    let bytes = registers_to_bytes(registers.as_slice());
    let mut data: Vec<u8> = Vec::new();
    data.push(bytes.len() as u8);
    data.extend_from_slice(bytes.as_slice());
    assert(data@ =~= registers_payload(registers@));
    data
}

/// Builds the four bytes that acknowledge a write.
fn echo(address: u16, word: u16) -> (data: Vec<u8>)
    ensures
        data@ == be_bytes(address) + be_bytes(word),
{
    let mut data: Vec<u8> = Vec::new();
    push_word(&mut data, address);
    push_word(&mut data, word);
    data
}

/// Turns the outcome of a read of bits into the response.
fn reply_bits(request: &ModbusRequest, bits: ModbusResult<Vec<bool>>) -> (response: ModbusResponse)
    requires
        bits matches Ok(b) ==> b@.len() <= 2000,
    ensures
        response@ == read_reply(request@, result_view(bits), |b: Seq<bool>| bits_payload(b)),
{
    match bits {
        Ok(bits) => ModbusResponse::new_success(
            request.slave_id,
            request.function,
            bits_to_payload(&bits),
        ),
        Err(error) => ModbusResponse::new_exception(
            request.slave_id,
            request.function,
            error.to_exception(),
        ),
    }
}

/// Turns the outcome of a read of registers into the response.
fn reply_registers(request: &ModbusRequest, registers: ModbusResult<Vec<u16>>) -> (response:
    ModbusResponse)
    requires
        registers matches Ok(r) ==> r@.len() <= 125,
    ensures
        response@ == read_reply(
            request@,
            result_view(registers),
            |r: Seq<u16>| registers_payload(r),
        ),
{
    match registers {
        Ok(registers) => ModbusResponse::new_success(
            request.slave_id,
            request.function,
            registers_to_payload(&registers),
        ),
        Err(error) => ModbusResponse::new_exception(
            request.slave_id,
            request.function,
            error.to_exception(),
        ),
    }
}

/// Turns the outcome of a write into the response.
fn reply_written(request: &ModbusRequest, written: ModbusResult<()>, word: u16) -> (response:
    ModbusResponse)
    ensures
        response@ == (match written {
            Ok(()) => success_reply(request@, be_bytes(request@.address) + be_bytes(word)),
            Err(error) => exception_reply(request@, error),
        }),
{
    match written {
        Ok(()) => ModbusResponse::new_success(
            request.slave_id,
            request.function,
            echo(request.address, word),
        ),
        Err(error) => ModbusResponse::new_exception(
            request.slave_id,
            request.function,
            error.to_exception(),
        ),
    }
}

/// Serves one request on the bank: checks it, dispatches it to the
/// operation of the bank that its function names, and builds the response.
pub fn execute(bank: &mut ModbusRegisterBank, request: &ModbusRequest) -> (response: ModbusResponse)
    ensures
        (final(bank)@, response@) == serve(old(bank)@, request@),
{
    if !request.payload_is_valid() {
        return ModbusResponse::new_exception(
            request.slave_id,
            request.function,
            ModbusException::IllegalDataValue,
        );
    }
    let response = match request.function {
        ModbusFunction::ReadCoils => reply_bits(
            request,
            bank.read_coils(request.address, request.quantity),
        ),
        ModbusFunction::ReadDiscreteInputs => reply_bits(
            request,
            bank.read_discrete_inputs(request.address, request.quantity),
        ),
        ModbusFunction::ReadHoldingRegisters => reply_registers(
            request,
            bank.read_holding_registers(request.address, request.quantity),
        ),
        ModbusFunction::ReadInputRegisters => reply_registers(
            request,
            bank.read_input_registers(request.address, request.quantity),
        ),
        ModbusFunction::WriteSingleCoil => {
            let on: bool = request.data[0] == 1;
            let written = bank.write_single_coil(request.address, on);
            reply_written(request, written, if on { crate::pdu::COIL_ON } else { crate::pdu::COIL_OFF })
        },
        ModbusFunction::WriteSingleRegister => {
            let value: u16 = join_word(request.data[0], request.data[1]);
            let written = bank.write_single_register(request.address, value);
            proof {
                crate::data_utils::lemma_word_roundtrip(0, request.data@[0], request.data@[1]);
                assert(be_bytes(value) =~= request.data@);
            }
            reply_written(request, written, value)
        },
        ModbusFunction::WriteMultipleCoils => {
            let values = unpack_bits(request.data.as_slice(), request.quantity as usize);
            let written = bank.write_multiple_coils(request.address, values.as_slice());
            reply_written(request, written, request.quantity)
        },
        ModbusFunction::WriteMultipleRegisters => {
            let written = match bytes_to_registers(request.data.as_slice()) {
                Ok(values) => bank.write_multiple_registers(request.address, values.as_slice()),
                Err(error) => Err(error),
            };
            reply_written(request, written, request.quantity)
        },
    };
    assert((bank@, response@) =~~= serve(old(bank)@, request@));
    response
}

/// Builds the PDU of the exception response to a request whose first byte
/// is `code`.
fn exception_bytes(code: u8, exception: ModbusException) -> (pdu: Vec<u8>)
    ensures
        pdu@ == exception_pdu(code, exception),
{
    let mut pdu: Vec<u8> = Vec::new();
    pdu.push(if code >= 0x80 { code } else { code + 0x80 });
    pdu.push(exception.to_u8());
    pdu
}

/// Whatever is served, the response is valid, so that its PDU can be built,
/// and that PDU is 2 to 252 bytes long.
pub proof fn lemma_serve_reply_valid(bank: BankView, request: RequestView)
    ensures
        serve(bank, request).1.valid(),
        serve(bank, request).1.slave_id == request.slave_id,
        serve(bank, request).1.function == request.function,
        2 <= response_pdu(serve(bank, request).1).len() <= 252,
{
    let reply = serve(bank, request).1;
    if request.payload_valid() && reply.exception is None {
        match request.function {
            ModbusFunction::ReadCoils => {
                let bits = read_range(bank.coils, request.address, request.quantity, 2000)->Ok_0;
                assert(reply.data == bits_payload(bits));
            },
            ModbusFunction::ReadDiscreteInputs => {
                let bits = read_range(
                    bank.discrete_inputs,
                    request.address,
                    request.quantity,
                    2000,
                )->Ok_0;
                assert(reply.data == bits_payload(bits));
            },
            ModbusFunction::ReadHoldingRegisters => {
                let registers = read_range(
                    bank.holding_registers,
                    request.address,
                    request.quantity,
                    125,
                )->Ok_0;
                assert(reply.data == registers_payload(registers));
            },
            ModbusFunction::ReadInputRegisters => {
                let registers = read_range(
                    bank.input_registers,
                    request.address,
                    request.quantity,
                    125,
                )->Ok_0;
                assert(reply.data == registers_payload(registers));
            },
            _ => {},
        }
    }
}

/// Answers one request PDU that was addressed to `slave_id`: decodes it,
/// serves it on the bank, and encodes the response. A PDU that cannot be
/// decoded is answered with an exception response.
pub fn process_pdu(bank: &mut ModbusRegisterBank, slave_id: SlaveId, pdu: &[u8]) -> (reply: Vec<u8>)
    ensures
        (final(bank)@, reply@) == answer_pdu(old(bank)@, slave_id, pdu@),
        2 <= reply@.len() <= 252,
{
    let code: u8 = if pdu.len() > 0 { pdu[0] } else { 0 };
    match decode_request(slave_id, pdu) {
        Err(error) => exception_bytes(code, error.to_exception()),
        Ok(request) => {
            let response = execute(bank, &request);
            proof {
                lemma_serve_reply_valid(old(bank)@, request@);
            }
            match encode_response(&response) {
                Ok(reply) => reply,
                Err(error) => exception_bytes(code, ModbusException::SlaveDeviceFailure),
            }
        },
    }
}

/// Serves one TCP frame. A frame that breaks the framing layer is an error:
/// the peer is out of step and the connection is to be closed. Every other
/// frame is answered under the transaction and unit identifiers it came
/// with.
pub fn process_tcp_frame(bank: &mut ModbusRegisterBank, frame: &[u8]) -> (reply: ModbusResult<
    Vec<u8>,
>)
    ensures
        (final(bank)@, result_view(reply)) == answer_tcp(old(bank)@, frame@),
{
    match decode_tcp_frame(frame) {
        Err(error) => Err(error),
        Ok((header, pdu)) => {
            let answer = process_pdu(bank, header.unit_id, pdu.as_slice());
            encode_tcp_frame(header.transaction_id, header.unit_id, answer.as_slice())
        },
    }
}

/// Serves one RTU frame as the unit with address `own_id`. A frame with a
/// wrong checksum or size is an error. A broadcast write is carried out and
/// not answered; a broadcast read and a frame for another unit are ignored.
pub fn process_rtu_frame(bank: &mut ModbusRegisterBank, own_id: SlaveId, frame: &[u8]) -> (reply:
    ModbusResult<Option<Vec<u8>>>)
    ensures
        match reply {
            Ok(Some(bytes)) => answer_rtu(old(bank)@, own_id, frame@) == (
                final(bank)@,
                Ok::<Option<Seq<u8>>, ModbusError>(Some(bytes@)),
            ),
            Ok(None) => answer_rtu(old(bank)@, own_id, frame@) == (
                final(bank)@,
                Ok::<Option<Seq<u8>>, ModbusError>(None),
            ),
            Err(error) => answer_rtu(old(bank)@, own_id, frame@) == (
                final(bank)@,
                Err::<Option<Seq<u8>>, ModbusError>(error),
            ),
        },
{
    match decode_rtu_frame(frame) {
        Err(error) => Err(error),
        Ok((slave_id, pdu)) => {
            if slave_id == 0 {
                match decode_request(0, pdu.as_slice()) {
                    Ok(request) => {
                        if request.function.is_write_function() {
                            let _ = execute(bank, &request);
                        }
                    },
                    Err(_) => {},
                }
                Ok(None)
            } else if slave_id != own_id {
                Ok(None)
            } else {
                let answer = process_pdu(bank, slave_id, pdu.as_slice());
                match encode_rtu_frame(slave_id, answer.as_slice()) {
                    Ok(bytes) => Ok(Some(bytes)),
                    Err(error) => Err(error),
                }
            }
        },
    }
}

/// A request PDU that names a quantity of zero or one above the limit of its
/// function is answered with an illegal data value, whatever follows the
/// quantity and whatever the bank holds, and the bank stays as it was.
pub proof fn lemma_quantity_out_of_bounds(
    bank: BankView,
    slave_id: SlaveId,
    function: ModbusFunction,
    address: u16,
    quantity: u16,
    rest: Seq<u8>,
)
    requires
        function != ModbusFunction::WriteSingleCoil,
        function != ModbusFunction::WriteSingleRegister,
        quantity == 0 || quantity > function.quantity_limit(),
    ensures
        answer_pdu(
            bank,
            slave_id,
            seq![function.code()] + be_bytes(address) + be_bytes(quantity) + rest,
        ) == (bank, seq![(function.code() + 0x80) as u8, 0x03u8]),
{
    let pdu = seq![function.code()] + be_bytes(address) + be_bytes(quantity) + rest;
    function.lemma_code_roundtrip();
    crate::data_utils::lemma_word_roundtrip(address, 0, 0);
    crate::data_utils::lemma_word_roundtrip(quantity, 0, 0);
    assert(pdu[0] == function.code());
    assert(crate::data_utils::be_word_at(pdu, 1) == address);
    assert(crate::data_utils::be_word_at(pdu, 3) == quantity);
    let parsed = parse_request_pdu(slave_id, pdu);
    assert(parsed is Err);
    assert(parsed->Err_0 is InvalidRequest || parsed->Err_0 is Frame);
    assert(exception_pdu(pdu[0], ModbusException::IllegalDataValue) =~= seq![
        (function.code() + 0x80) as u8,
        0x03u8,
    ]);
}

/// What a TCP server is set up with.
#[derive(Debug, Clone, Copy, PartialEq, Eq, Structural)]
pub struct ModbusTcpServerConfig {
    /// The largest number of connections served at a time. Further ones are
    /// closed at once.
    pub max_connections: usize,
    /// How long a connection may stay silent, in milliseconds, before it is
    /// closed.
    pub request_timeout_ms: u64,
}

/// The connection cap of a server set up without one.
pub const DEFAULT_MAX_CONNECTIONS: usize = 100;

/// The idle deadline, in milliseconds, of a server set up without one.
pub const DEFAULT_REQUEST_TIMEOUT_MS: u64 = 30_000;

/// The tally of a server. Every counter stops at the largest value it can
/// hold.
#[derive(Debug, Clone, Copy, PartialEq, Eq, Structural)]
pub struct ServerStats {
    /// Connections accepted since the server was created.
    pub connections_count: u64,
    /// Frames handed to the server while it ran.
    pub total_requests: u64,
    /// Requests answered with a response that is no exception.
    pub successful_requests: u64,
    /// Requests answered with an exception response, and frames that were
    /// refused.
    pub failed_requests: u64,
    pub bytes_received: u64,
    pub bytes_sent: u64,
    /// How long the server has run, in seconds, as last reported to it.
    pub uptime_seconds: u64,
}

/// What is to be done with a connection after a frame.
#[derive(Debug, Clone, PartialEq, Eq)]
pub enum ConnectionAction {
    /// Write these bytes and go on reading.
    Reply(Vec<u8>),
    /// Close the connection without writing anything.
    Close,
}

/// What an action holds, as mathematical values.
pub enum ActionView {
    Reply(Seq<u8>),
    Close,
}

impl View for ConnectionAction {
    type V = ActionView;

    open spec fn view(&self) -> ActionView {
        match self {
            ConnectionAction::Reply(bytes) => ActionView::Reply(bytes@),
            ConnectionAction::Close => ActionView::Close,
        }
    }
}

/// What a server holds, as mathematical values.
#[verifier::ext_equal]
pub struct ServerView {
    pub config: ModbusTcpServerConfig,
    pub running: bool,
    pub connections: usize,
    pub stats: ServerStats,
    pub bank: BankView,
}

impl ServerView {
    /// The server after a connection came in, and whether it is served: a
    /// server that runs below its cap serves it and counts it.
    pub open spec fn after_accept(self) -> (ServerView, bool) {
        if self.running && self.connections < self.config.max_connections {
            (
                ServerView {
                    connections: (self.connections + 1) as usize,
                    stats: ServerStats {
                        connections_count: crate::transport::raised(
                            self.stats.connections_count,
                            1,
                        ),
                        ..self.stats
                    },
                    ..self
                },
                true,
            )
        } else {
            (self, false)
        }
    }

    /// The server after a connection that was served has ended.
    pub open spec fn after_disconnect(self) -> ServerView {
        ServerView {
            connections: if self.connections > 0 {
                (self.connections - 1) as usize
            } else {
                0
            },
            ..self
        }
    }

    /// The server after a frame, and what is to be done with the connection.
    ///
    /// A server that does not run closes the connection and changes nothing.
    /// Otherwise the frame and its bytes are counted. A frame that breaks the
    /// framing layer counts as failed and closes the connection. Every other
    /// frame is served on the bank and answered; the bytes of the answer are
    /// counted, and the request counts as failed if the answer is an
    /// exception response, as successful if not.
    pub open spec fn after_frame(self, frame: Seq<u8>) -> (ServerView, ActionView) {
        if !self.running {
            (self, ActionView::Close)
        } else {
            let counted = ServerStats {
                total_requests: crate::transport::raised(self.stats.total_requests, 1),
                bytes_received: crate::transport::raised(
                    self.stats.bytes_received,
                    frame.len() as int,
                ),
                ..self.stats
            };
            match answer_tcp(self.bank, frame).1 {
                Err(_) => (
                    ServerView {
                        stats: ServerStats {
                            failed_requests: crate::transport::raised(counted.failed_requests, 1),
                            ..counted
                        },
                        ..self
                    },
                    ActionView::Close,
                ),
                Ok(reply) => (
                    ServerView {
                        bank: answer_tcp(self.bank, frame).0,
                        stats: ServerStats {
                            bytes_sent: crate::transport::raised(
                                counted.bytes_sent,
                                reply.len() as int,
                            ),
                            successful_requests: if reply[7] >= 0x80 {
                                counted.successful_requests
                            } else {
                                crate::transport::raised(counted.successful_requests, 1)
                            },
                            failed_requests: if reply[7] >= 0x80 {
                                crate::transport::raised(counted.failed_requests, 1)
                            } else {
                                counted.failed_requests
                            },
                            ..counted
                        },
                        ..self
                    },
                    ActionView::Reply(reply),
                ),
            }
        }
    }
}

/// The TCP server without its sockets: the bank, the connection count and
/// the tally. The caller accepts connections and reads frames; the server
/// says which connection to serve and what to answer.
pub struct ModbusTcpServer {
    config: ModbusTcpServerConfig,
    bank: ModbusRegisterBank,
    running: bool,
    connections: usize,
    stats: ServerStats,
}

impl View for ModbusTcpServer {
    type V = ServerView;

    closed spec fn view(&self) -> ServerView {
        ServerView {
            config: self.config,
            running: self.running,
            connections: self.connections,
            stats: self.stats,
            bank: self.bank@,
        }
    }
}

impl ModbusTcpServer {
    /// The server that was just created around `bank`.
    pub open spec fn fresh(config: ModbusTcpServerConfig, bank: BankView) -> ServerView {
        ServerView {
            config,
            running: false,
            connections: 0,
            stats: ServerStats {
                connections_count: 0,
                total_requests: 0,
                successful_requests: 0,
                failed_requests: 0,
                bytes_received: 0,
                bytes_sent: 0,
                uptime_seconds: 0,
            },
            bank,
        }
    }

    /// Creates a server with the default cap and deadline around a bank
    /// that maps every address.
    pub fn new() -> (server: ModbusTcpServer)
        ensures
            server@ == Self::fresh(
                ModbusTcpServerConfig { max_connections: 100, request_timeout_ms: 30_000 },
                ModbusRegisterBank::blank(65536, 65536, 65536, 65536),
            ),
    {
        ModbusTcpServer {
            config: ModbusTcpServerConfig {
                max_connections: DEFAULT_MAX_CONNECTIONS,
                request_timeout_ms: DEFAULT_REQUEST_TIMEOUT_MS,
            },
            bank: ModbusRegisterBank::new(),
            running: false,
            connections: 0,
            stats: ServerStats {
                connections_count: 0,
                total_requests: 0,
                successful_requests: 0,
                failed_requests: 0,
                bytes_received: 0,
                bytes_sent: 0,
                uptime_seconds: 0,
            },
        }
    }

    /// Creates a server around `bank`. A cap of zero connections and a
    /// deadline of zero are refused with `Configuration`.
    pub fn with_config(config: ModbusTcpServerConfig, bank: ModbusRegisterBank) -> (server:
        ModbusResult<ModbusTcpServer>)
        ensures
            result_view(server) == if config.max_connections == 0 {
                Err::<ServerView, ModbusError>(
                    ModbusError::Configuration { setting: ConfigFault::MaxConnections },
                )
            } else if config.request_timeout_ms == 0 {
                Err(ModbusError::Configuration { setting: ConfigFault::Timeout })
            } else {
                Ok(Self::fresh(config, bank@))
            },
    {
        if config.max_connections == 0 {
            return Err(ModbusError::Configuration { setting: ConfigFault::MaxConnections });
        }
        if config.request_timeout_ms == 0 {
            return Err(ModbusError::Configuration { setting: ConfigFault::Timeout });
        }
        Ok(
            ModbusTcpServer {
                config,
                bank,
                running: false,
                connections: 0,
                stats: ServerStats {
                    connections_count: 0,
                    total_requests: 0,
                    successful_requests: 0,
                    failed_requests: 0,
                    bytes_received: 0,
                    bytes_sent: 0,
                    uptime_seconds: 0,
                },
            },
        )
    }

    /// Starts the server: from now on connections are accepted and frames
    /// served. No connection counts as open.
    pub fn start(&mut self)
        ensures
            final(self)@ == (ServerView { running: true, connections: 0, ..old(self)@ }),
    {
        self.running = true;
        self.connections = 0;
    }

    /// Stops the server: no further connection is accepted and no further
    /// frame served.
    pub fn stop(&mut self)
        ensures
            final(self)@ == (ServerView { running: false, ..old(self)@ }),
    {
        self.running = false;
    }

    /// Tells whether the server runs.
    pub fn is_running(&self) -> (b: bool)
        ensures
            b == self@.running,
    {
        self.running
    }

    /// Decides on a connection that came in: `true` if it is to be served,
    /// `false` if it is to be closed at once.
    pub fn accept_connection(&mut self) -> (accepted: bool)
        ensures
            (final(self)@, accepted) == old(self)@.after_accept(),
    {
        if self.running && self.connections < self.config.max_connections {
            self.connections = self.connections + 1;
            self.stats.connections_count = crate::transport::raise(self.stats.connections_count, 1);
            true
        } else {
            false
        }
    }

    /// Notes that a connection that was served has ended.
    pub fn close_connection(&mut self)
        ensures
            final(self)@ == old(self)@.after_disconnect(),
    {
        if self.connections > 0 {
            self.connections = self.connections - 1;
        }
    }

    /// Serves one frame of a connection and says what to do next.
    pub fn handle_frame(&mut self, frame: &[u8]) -> (action: ConnectionAction)
        ensures
            (final(self)@, action@) == old(self)@.after_frame(frame@),
    {
        if !self.running {
            return ConnectionAction::Close;
        }
        self.stats.total_requests = crate::transport::raise(self.stats.total_requests, 1);
        self.stats.bytes_received = crate::transport::raise(self.stats.bytes_received, frame.len());
        match process_tcp_frame(&mut self.bank, frame) {
            Err(_) => {
                self.stats.failed_requests = crate::transport::raise(self.stats.failed_requests, 1);
                ConnectionAction::Close
            },
            Ok(reply) => {
                proof {
                    lemma_tcp_answer_shape(old(self)@.bank, frame@);
                }
                self.stats.bytes_sent = crate::transport::raise(self.stats.bytes_sent, reply.len());
                if reply[7] >= 0x80 {
                    self.stats.failed_requests = crate::transport::raise(
                        self.stats.failed_requests,
                        1,
                    );
                } else {
                    self.stats.successful_requests = crate::transport::raise(
                        self.stats.successful_requests,
                        1,
                    );
                }
                ConnectionAction::Reply(reply)
            },
        }
    }

    /// Notes how long the server has run.
    pub fn record_uptime(&mut self, seconds: u64)
        ensures
            final(self)@ == (ServerView {
                stats: ServerStats { uptime_seconds: seconds, ..old(self)@.stats },
                ..old(self)@
            }),
    {
        self.stats.uptime_seconds = seconds;
    }

    /// Returns the tally.
    pub fn get_stats(&self) -> (stats: ServerStats)
        ensures
            stats == self@.stats,
    {
        self.stats
    }

    /// Returns the configuration.
    pub fn config(&self) -> (config: ModbusTcpServerConfig)
        ensures
            config == self@.config,
    {
        self.config
    }

    /// Returns the number of connections that are served now.
    pub fn active_connections(&self) -> (n: usize)
        ensures
            n == self@.connections,
    {
        self.connections
    }

    /// Returns the bank.
    pub fn get_register_bank(&self) -> (bank: &ModbusRegisterBank)
        ensures
            bank@ == self@.bank,
    {
        &self.bank
    }

    /// Returns the bank for change, as the device that owns it needs it.
    pub fn register_bank_mut(&mut self) -> (bank: &mut ModbusRegisterBank)
        ensures
            bank@ == old(self)@.bank,
            final(self)@ == (ServerView { bank: final(bank)@, ..old(self)@ }),
    {
        &mut self.bank
    }
}

/// The answer to a TCP frame is a frame of 9 to 259 bytes.
pub proof fn lemma_tcp_answer_shape(bank: BankView, frame: Seq<u8>)
    requires
        answer_tcp(bank, frame).1 is Ok,
    ensures
        9 <= answer_tcp(bank, frame).1->Ok_0.len() <= 259,
        answer_tcp(bank, frame).1->Ok_0[7] == answer_pdu(
            bank,
            parse_tcp_frame(frame)->Ok_0.0.unit_id,
            parse_tcp_frame(frame)->Ok_0.1,
        ).1[0],
{
    let (header, pdu) = parse_tcp_frame(frame)->Ok_0;
    lemma_answer_pdu_shape(bank, header.unit_id, pdu);
}

/// The answer to a request PDU is a PDU of 2 to 252 bytes.
pub proof fn lemma_answer_pdu_shape(bank: BankView, slave_id: SlaveId, pdu: Seq<u8>)
    ensures
        2 <= answer_pdu(bank, slave_id, pdu).1.len() <= 252,
{
    match parse_request_pdu(slave_id, pdu) {
        Ok(request) => {
            lemma_serve_reply_valid(bank, request);
        },
        Err(_) => {},
    }
}

/// A server never serves more connections than its cap: whatever comes in,
/// goes away or is served keeps the count at or below the cap.
pub proof fn lemma_connection_cap(server: ServerView, frame: Seq<u8>)
    requires
        server.connections <= server.config.max_connections,
    ensures
        server.after_accept().0.connections <= server.config.max_connections,
        server.after_disconnect().connections <= server.config.max_connections,
        server.after_frame(frame).0.connections <= server.config.max_connections,
        server.connections == server.config.max_connections ==> !server.after_accept().1,
{
}

} // verus!
