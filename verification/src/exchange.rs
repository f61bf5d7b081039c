//! Laws of a whole exchange: what the client writes, the responder
//! understands; what the responder answers, the client accepts; and what
//! was written to the bank is what is read from it afterwards.

use vstd::prelude::*;
use crate::client::{ReplyView, interpret, read_step, write_coils_step, write_registers_step};
use crate::data_utils::{
    lemma_pack_unpack, lemma_registers_roundtrip, packed_bits, registers_bytes, unpacked_bits,
};
use crate::error::ModbusError;
use crate::framing::{
    lemma_rtu_frame_roundtrip, lemma_tcp_frame_roundtrip, parse_rtu_frame, parse_tcp_frame,
    rtu_frame, tcp_frame,
};
use crate::pdu::{
    lemma_request_roundtrip, lemma_response_roundtrip, parse_request_pdu, parse_response_pdu,
    request_pdu, response_pdu,
};
use crate::protocol::{ModbusFunction, RequestView, ResponseView, SlaveId};
use crate::register_bank::{BankView, lemma_read_after_write, read_range, write_range};
use crate::server::{
    answer_rtu, answer_tcp, bits_payload, lemma_serve_reply_valid, registers_payload, serve,
};
use crate::transport::{ConnectionState, Framing, Link, Pending};

verus! {

/// The PDU of a valid request fits both envelopes.
pub proof fn lemma_request_pdu_fits(request: RequestView)
    requires
        request.payload_valid(),
    ensures
        5 <= request_pdu(request).len() <= 252,
{
}

/// A valid request survives the trip through its TCP frame, at the framing
/// level and at the PDU level: the frame holds the transaction and unit
/// identifiers it was built with, and its PDU describes the request.
pub proof fn lemma_tcp_request_roundtrip(transaction_id: u16, request: RequestView)
    requires
        request.payload_valid(),
    ensures
        parse_tcp_frame(tcp_frame(transaction_id, request.slave_id, request_pdu(request))) is Ok,
        ({
            let (header, pdu) = parse_tcp_frame(
                tcp_frame(transaction_id, request.slave_id, request_pdu(request)),
            )->Ok_0;
            &&& header.transaction_id == transaction_id
            &&& header.unit_id == request.slave_id
            &&& parse_request_pdu(header.unit_id, pdu) == Ok::<RequestView, ModbusError>(request)
        }),
{
    lemma_request_pdu_fits(request);
    lemma_request_roundtrip(request);
    lemma_tcp_frame_roundtrip(transaction_id, request.slave_id, request_pdu(request));
}

/// A valid request survives the trip through its RTU frame, at the framing
/// level and at the PDU level.
pub proof fn lemma_rtu_request_roundtrip(request: RequestView)
    requires
        request.payload_valid(),
    ensures
        parse_rtu_frame(rtu_frame(request.slave_id, request_pdu(request))) is Ok,
        ({
            let (slave_id, pdu) = parse_rtu_frame(
                rtu_frame(request.slave_id, request_pdu(request)),
            )->Ok_0;
            &&& slave_id == request.slave_id
            &&& parse_request_pdu(slave_id, pdu) == Ok::<RequestView, ModbusError>(request)
        }),
{
    lemma_request_pdu_fits(request);
    lemma_request_roundtrip(request);
    lemma_rtu_frame_roundtrip(request.slave_id, request_pdu(request));
}

/// A valid response of at most 252 bytes survives the trip through its TCP
/// frame, at the framing level and at the PDU level.
pub proof fn lemma_tcp_response_roundtrip(transaction_id: u16, response: ResponseView)
    requires
        response.valid(),
        response_pdu(response).len() <= 252,
    ensures
        parse_tcp_frame(tcp_frame(transaction_id, response.slave_id, response_pdu(response))) is Ok,
        ({
            let (header, pdu) = parse_tcp_frame(
                tcp_frame(transaction_id, response.slave_id, response_pdu(response)),
            )->Ok_0;
            &&& header.transaction_id == transaction_id
            &&& header.unit_id == response.slave_id
            &&& parse_response_pdu(header.unit_id, pdu) == Ok::<ResponseView, ModbusError>(
                response,
            )
        }),
{
    lemma_response_roundtrip(response);
    lemma_tcp_frame_roundtrip(transaction_id, response.slave_id, response_pdu(response));
}

/// A valid response survives the trip through its RTU frame, at the framing
/// level and at the PDU level.
pub proof fn lemma_rtu_response_roundtrip(response: ResponseView)
    requires
        response.valid(),
    ensures
        parse_rtu_frame(rtu_frame(response.slave_id, response_pdu(response))) is Ok,
        ({
            let (slave_id, pdu) = parse_rtu_frame(
                rtu_frame(response.slave_id, response_pdu(response)),
            )->Ok_0;
            &&& slave_id == response.slave_id
            &&& parse_response_pdu(slave_id, pdu) == Ok::<ResponseView, ModbusError>(response)
        }),
{
    lemma_response_roundtrip(response);
    lemma_rtu_frame_roundtrip(response.slave_id, response_pdu(response));
}

/// One exchange over TCP: the frame that an idle transport writes for a
/// valid request makes the responder serve exactly that request, and the
/// frame that the responder answers with gives the transport exactly the
/// response that was served, after which the stream is idle again.
pub proof fn lemma_tcp_exchange(link: Link, bank: BankView, request: RequestView)
    requires
        link.framing == Framing::Tcp,
        link.state == ConnectionState::Connected,
        request.valid(),
    ensures
        link.after_send(request).1 is Ok,
        answer_tcp(bank, link.after_send(request).1->Ok_0).0 == serve(bank, request).0,
        answer_tcp(bank, link.after_send(request).1->Ok_0).1 is Ok,
        link.after_send(request).0.after_recv(
            answer_tcp(bank, link.after_send(request).1->Ok_0).1->Ok_0,
        ).1 == Ok::<ResponseView, ModbusError>(serve(bank, request).1),
        link.after_send(request).0.after_recv(
            answer_tcp(bank, link.after_send(request).1->Ok_0).1->Ok_0,
        ).0.state == ConnectionState::Connected,
{
    let transaction_id = link.next_transaction_id;
    let frame = link.after_send(request).1->Ok_0;
    let response = serve(bank, request).1;
    lemma_tcp_request_roundtrip(transaction_id, request);
    lemma_serve_reply_valid(bank, request);
    let reply = answer_tcp(bank, frame).1->Ok_0;
    assert(reply == tcp_frame(transaction_id, request.slave_id, response_pdu(response)));
    lemma_tcp_response_roundtrip(transaction_id, response);
}

/// One exchange over a serial line with the unit that the request
/// addresses: the same as over TCP, without a transaction identifier.
pub proof fn lemma_rtu_exchange(link: Link, bank: BankView, request: RequestView)
    requires
        link.framing == Framing::Rtu,
        link.state == ConnectionState::Connected,
        request.valid(),
        request.slave_id != 0,
    ensures
        link.after_send(request).1 is Ok,
        answer_rtu(bank, request.slave_id, link.after_send(request).1->Ok_0).0 == serve(
            bank,
            request,
        ).0,
        answer_rtu(bank, request.slave_id, link.after_send(request).1->Ok_0).1 matches Ok(
            Some(reply),
        ) && link.after_send(request).0.after_recv(reply).1 == Ok::<ResponseView, ModbusError>(
            serve(bank, request).1,
        ) && link.after_send(request).0.after_recv(reply).0.state == ConnectionState::Connected,
{
    let frame = link.after_send(request).1->Ok_0;
    let response = serve(bank, request).1;
    lemma_rtu_request_roundtrip(request);
    lemma_serve_reply_valid(bank, request);
    lemma_rtu_response_roundtrip(response);
}

/// A broadcast write over a serial line takes effect on every unit and is
/// answered by none; the transport does not wait.
pub proof fn lemma_rtu_broadcast(link: Link, bank: BankView, own_id: SlaveId, request: RequestView)
    requires
        link.framing == Framing::Rtu,
        link.state == ConnectionState::Connected,
        request.valid(),
        request.slave_id == 0,
    ensures
        link.after_send(request).1 is Ok,
        !link.after_send(request).0.awaiting(),
        link.after_send(request).0.state == ConnectionState::Connected,
        answer_rtu(bank, own_id, link.after_send(request).1->Ok_0) == (
            serve(bank, request).0,
            Ok::<Option<Seq<u8>>, ModbusError>(None),
        ),
{
    lemma_rtu_request_roundtrip(request);
}

/// All the bits of a payload, cut to the first `quantity`, are the first
/// `quantity` bits of the payload.
proof fn lemma_unpacked_take(bytes: Seq<u8>, quantity: nat)
    requires
        quantity <= 8 * bytes.len(),
    ensures
        unpacked_bits(bytes, 8 * bytes.len()).take(quantity as int) == unpacked_bits(
            bytes,
            quantity,
        ),
{
    assert(unpacked_bits(bytes, 8 * bytes.len()).take(quantity as int) =~= unpacked_bits(
        bytes,
        quantity,
    ));
}

/// What the client reads from the answer to a read of registers is what the
/// bank holds in the range asked for.
pub proof fn lemma_read_registers_reply(bank: BankView, request: RequestView, pending: Pending)
    requires
        request.function.reads_registers(),
        request.payload_valid(),
        pending.function == request.function,
        pending.quantity == request.quantity,
        serve(bank, request).1.exception is None,
    ensures
        interpret(pending, serve(bank, request).1) == Ok::<ReplyView, ModbusError>(
            ReplyView::Registers(
                read_range(
                    if request.function == ModbusFunction::ReadHoldingRegisters {
                        bank.holding_registers
                    } else {
                        bank.input_registers
                    },
                    request.address,
                    request.quantity,
                    125,
                )->Ok_0,
            ),
        ),
{
    let space = if request.function == ModbusFunction::ReadHoldingRegisters {
        bank.holding_registers
    } else {
        bank.input_registers
    };
    let registers = read_range(space, request.address, request.quantity, 125)->Ok_0;
    let response = serve(bank, request).1;
    assert(response.data == registers_payload(registers));
    lemma_registers_roundtrip(registers);
    assert(response.values() =~= registers_bytes(registers));
}

/// What the client reads from the answer to a read of bits is what the bank
/// holds in the range asked for.
pub proof fn lemma_read_bits_reply(bank: BankView, request: RequestView, pending: Pending)
    requires
        request.function.reads_bits(),
        request.payload_valid(),
        pending.function == request.function,
        pending.quantity == request.quantity,
        serve(bank, request).1.exception is None,
    ensures
        interpret(pending, serve(bank, request).1) == Ok::<ReplyView, ModbusError>(
            ReplyView::Bits(
                read_range(
                    if request.function == ModbusFunction::ReadCoils {
                        bank.coils
                    } else {
                        bank.discrete_inputs
                    },
                    request.address,
                    request.quantity,
                    2000,
                )->Ok_0,
            ),
        ),
{
    let space = if request.function == ModbusFunction::ReadCoils {
        bank.coils
    } else {
        bank.discrete_inputs
    };
    let bits = read_range(space, request.address, request.quantity, 2000)->Ok_0;
    let response = serve(bank, request).1;
    assert(response.data == bits_payload(bits));
    assert(response.values() =~= packed_bits(bits));
    lemma_pack_unpack(bits);
    lemma_unpacked_take(packed_bits(bits), bits.len());
}

/// The request that writes `values` to the holding registers from
/// `address` on.
pub open spec fn registers_write(slave_id: SlaveId, address: u16, values: Seq<u16>) -> RequestView {
    RequestView {
        slave_id,
        function: ModbusFunction::WriteMultipleRegisters,
        address,
        quantity: values.len() as u16,
        data: registers_bytes(values),
    }
}

/// The request that writes `values` to the coils from `address` on.
pub open spec fn coils_write(slave_id: SlaveId, address: u16, values: Seq<bool>) -> RequestView {
    RequestView {
        slave_id,
        function: ModbusFunction::WriteMultipleCoils,
        address,
        quantity: values.len() as u16,
        data: packed_bits(values),
    }
}

/// The request that reads `quantity` items with `function` from `address` on.
pub open spec fn read_of(slave_id: SlaveId, function: ModbusFunction, address: u16, quantity: u16) -> RequestView {
    RequestView { slave_id, function, address, quantity, data: Seq::empty() }
}

/// What a transport remembers of `request` while it is in flight under
/// `transaction_id`.
pub open spec fn pending_of(transaction_id: u16, request: RequestView) -> Pending {
    Pending {
        transaction_id,
        slave_id: request.slave_id,
        function: request.function,
        address: request.address,
        quantity: request.quantity,
    }
}

/// A write of several registers that was acknowledged has put the values
/// into the holding registers and left the other spaces alone.
pub proof fn lemma_registers_write_served(bank: BankView, writer: SlaveId, address: u16, values: Seq<u16>)
    requires
        1 <= values.len() <= 123,
        serve(bank, registers_write(writer, address, values)).1.exception is None,
    ensures
        write_range(bank.holding_registers, address, values, 123) is Ok,
        serve(bank, registers_write(writer, address, values)).0 == bank.with_holding_registers(
            write_range(bank.holding_registers, address, values, 123)->Ok_0,
        ),
{
    lemma_registers_roundtrip(values);
    assert(registers_write(writer, address, values).payload_valid());
}

/// A write of several coils that was acknowledged has put the values into
/// the coils and left the other spaces alone.
pub proof fn lemma_coils_write_served(bank: BankView, writer: SlaveId, address: u16, values: Seq<bool>)
    requires
        1 <= values.len() <= 1968,
        serve(bank, coils_write(writer, address, values)).1.exception is None,
    ensures
        write_range(bank.coils, address, values, 1968) is Ok,
        serve(bank, coils_write(writer, address, values)).0 == bank.with_coils(
            write_range(bank.coils, address, values, 1968)->Ok_0,
        ),
{
    lemma_pack_unpack(values);
    let request = coils_write(writer, address, values);
    assert(request.data.len() == crate::packed_len(values.len() as int));
    assert(request.payload_valid());
}

/// Registers that were written are read back: once a write of several
/// holding registers was acknowledged, a read of as many registers from the
/// same address, by whatever client and for whatever unit, is answered with
/// the values written.
pub proof fn lemma_registers_written_are_read(
    bank: BankView,
    writer: SlaveId,
    reader: SlaveId,
    transaction_id: u16,
    address: u16,
    values: Seq<u16>,
)
    requires
        1 <= values.len() <= 123,
        serve(bank, registers_write(writer, address, values)).1.exception is None,
    ensures
        ({
            let after = serve(bank, registers_write(writer, address, values)).0;
            let read = read_of(
                reader,
                ModbusFunction::ReadHoldingRegisters,
                address,
                values.len() as u16,
            );
            &&& read_range(after.holding_registers, address, values.len() as u16, 125) == Ok::<
                Seq<u16>,
                ModbusError,
            >(values)
            &&& serve(after, read).0 == after
            &&& interpret(pending_of(transaction_id, read), serve(after, read).1) == Ok::<
                ReplyView,
                ModbusError,
            >(ReplyView::Registers(values))
        }),
{
    let after = serve(bank, registers_write(writer, address, values)).0;
    let read = read_of(reader, ModbusFunction::ReadHoldingRegisters, address, values.len() as u16);
    lemma_registers_write_served(bank, writer, address, values);
    lemma_read_after_write(bank.holding_registers, address, values, 123, 125);
    assert(read.payload_valid());
    lemma_read_registers_reply(after, read, pending_of(transaction_id, read));
}

/// Coils that were written are read back: once a write of several coils
/// was acknowledged, a read of as many coils from the same address, by
/// whatever client and for whatever unit, is answered with the values
/// written.
pub proof fn lemma_coils_written_are_read(
    bank: BankView,
    writer: SlaveId,
    reader: SlaveId,
    transaction_id: u16,
    address: u16,
    values: Seq<bool>,
)
    requires
        1 <= values.len() <= 1968,
        serve(bank, coils_write(writer, address, values)).1.exception is None,
    ensures
        ({
            let after = serve(bank, coils_write(writer, address, values)).0;
            let read = read_of(reader, ModbusFunction::ReadCoils, address, values.len() as u16);
            &&& read_range(after.coils, address, values.len() as u16, 2000) == Ok::<
                Seq<bool>,
                ModbusError,
            >(values)
            &&& serve(after, read).0 == after
            &&& interpret(pending_of(transaction_id, read), serve(after, read).1) == Ok::<
                ReplyView,
                ModbusError,
            >(ReplyView::Bits(values))
        }),
{
    let after = serve(bank, coils_write(writer, address, values)).0;
    let read = read_of(reader, ModbusFunction::ReadCoils, address, values.len() as u16);
    lemma_coils_write_served(bank, writer, address, values);
    lemma_read_after_write(bank.coils, address, values, 1968, 2000);
    assert(read.payload_valid());
    lemma_read_bits_reply(after, read, pending_of(transaction_id, read));
}

/// The client refuses a quantity of zero and a quantity one above the limit
/// with `InvalidRequest`, for each of the eight functions that names a
/// quantity, and leaves the transport as it was.
pub proof fn lemma_client_quantity_bounds(
    link: Link,
    slave_id: SlaveId,
    function: ModbusFunction,
    address: u16,
    bits: Seq<bool>,
    registers: Seq<u16>,
)
    requires
        function.is_read(),
        bits.len() == 0 || bits.len() == 1969,
        registers.len() == 0 || registers.len() == 124,
    ensures
        read_step(link, slave_id, function, address, 0) == (
            link,
            Err::<Seq<u8>, ModbusError>(
                ModbusError::InvalidRequest { address: address as u32, quantity: 0 },
            ),
        ),
        read_step(link, slave_id, function, address, (function.quantity_limit() + 1) as u16) == (
            link,
            Err::<Seq<u8>, ModbusError>(
                ModbusError::InvalidRequest {
                    address: address as u32,
                    quantity: (function.quantity_limit() + 1) as usize,
                },
            ),
        ),
        write_coils_step(link, slave_id, address, bits) == (
            link,
            Err::<Seq<u8>, ModbusError>(
                ModbusError::InvalidRequest {
                    address: address as u32,
                    quantity: bits.len() as usize,
                },
            ),
        ),
        write_registers_step(link, slave_id, address, registers) == (
            link,
            Err::<Seq<u8>, ModbusError>(
                ModbusError::InvalidRequest {
                    address: address as u32,
                    quantity: registers.len() as usize,
                },
            ),
        ),
{
}

} // verus!
