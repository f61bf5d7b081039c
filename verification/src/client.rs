//! The client: one method for each of the eight functions, on top of any
//! transport.
//!
//! A method checks its arguments, builds the request and hands it to the
//! transport; what it returns are the bytes to write. `receive` takes the
//! frame that came back and returns what the request asked for. TCP and RTU
//! differ in the envelope only, so the client is written once.

use vstd::prelude::*;
use crate::packed_len;
use crate::data_utils::{be_bytes, packed_bits, registers_bytes};
use crate::error::{FrameFault, ModbusError, ModbusResult, Violation, result_view};
use crate::protocol::{ModbusFunction, ModbusRequest, ModbusResponse, RequestView, ResponseView, SlaveId};
use crate::transport::{
    Framing, Link, ModbusTransport, Pending, RtuTransport, SerialSettings, TcpTransport,
    TransportStats,
};

pub mod utils;

verus! {

/// What a request asked for, as it came back.
#[derive(Debug, Clone, PartialEq, Eq)]
pub enum ClientReply {
    /// The bits of a read of coils or discrete inputs.
    Bits(Vec<bool>),
    /// The words of a read of holding or input registers.
    Registers(Vec<u16>),
    /// The acknowledgement of a write.
    Written,
}

/// What a reply holds, as mathematical values.
pub enum ReplyView {
    Bits(Seq<bool>),
    Registers(Seq<u16>),
    Written,
}

impl View for ClientReply {
    type V = ReplyView;

    open spec fn view(&self) -> ReplyView {
        match self {
            ClientReply::Bits(bits) => ReplyView::Bits(bits@),
            ClientReply::Registers(registers) => ReplyView::Registers(registers@),
            ClientReply::Written => ReplyView::Written,
        }
    }
}

/// What a response means to the request that is remembered as `pending`.
///
/// An exception response is the error `Exception` with the function code
/// and the exception. The payload of a read must hold exactly as many bytes
/// as the quantity asked for takes, else it is a `Frame` error with fault
/// `ByteCount`; of the bits that came back those asked for are kept. The
/// response to a write is its acknowledgement.
pub open spec fn interpret(pending: Pending, response: ResponseView) -> ModbusResult<ReplyView> {
    if let Some(exception) = response.exception {
        Err(ModbusError::Exception { function: response.function.code(), exception })
    } else if pending.function.reads_bits() {
        match response.bits() {
            Err(error) => Err(error),
            Ok(bits) => if response.values().len() != packed_len(pending.quantity as int) {
                Err(ModbusError::Frame { fault: FrameFault::ByteCount })
            } else {
                Ok(ReplyView::Bits(bits.take(pending.quantity as int)))
            },
        }
    } else if pending.function.reads_registers() {
        match response.registers() {
            Err(error) => Err(error),
            Ok(registers) => if registers.len() != pending.quantity {
                Err(ModbusError::Frame { fault: FrameFault::ByteCount })
            } else {
                Ok(ReplyView::Registers(registers))
            },
        }
    } else {
        Ok(ReplyView::Written)
    }
}

/// Reads from a response what the request in flight asked for.
pub fn interpret_response(pending: &Pending, response: &ModbusResponse) -> (reply: ModbusResult<
    ClientReply,
>)
    ensures
        result_view(reply) == interpret(*pending, response@),
{
    if let Some(exception) = response.get_exception() {
        return Err(ModbusError::Exception { function: response.function.to_u8(), exception });
    }
    match pending.function {
        ModbusFunction::ReadCoils | ModbusFunction::ReadDiscreteInputs => {
            match response.parse_bits() {
                Err(error) => Err(error),
                Ok(mut bits) => {
                    let quantity: usize = pending.quantity as usize;
                    if response.data.len() - 1 != crate::packed_byte_count(quantity) {
                        return Err(ModbusError::Frame { fault: FrameFault::ByteCount });
                    }
                    bits.truncate(quantity);
                    assert(bits@ =~= response@.bits()->Ok_0.take(quantity as int));
                    Ok(ClientReply::Bits(bits))
                },
            }
        },
        ModbusFunction::ReadHoldingRegisters | ModbusFunction::ReadInputRegisters => {
            match response.parse_registers() {
                Err(error) => Err(error),
                Ok(registers) => {
                    if registers.len() != pending.quantity as usize {
                        return Err(ModbusError::Frame { fault: FrameFault::ByteCount });
                    }
                    Ok(ClientReply::Registers(registers))
                },
            }
        },
        _ => Ok(ClientReply::Written),
    }
}

/// The link after a read was asked for, and the frame to write or the
/// refusal. A quantity of zero or above the limit of the function is
/// refused with `InvalidRequest` before the transport sees anything.
pub open spec fn read_step(
    link: Link,
    slave_id: SlaveId,
    function: ModbusFunction,
    address: u16,
    quantity: u16,
) -> (Link, ModbusResult<Seq<u8>>) {
    if quantity == 0 || quantity > function.quantity_limit() {
        (
            link,
            Err(
                ModbusError::InvalidRequest {
                    address: address as u32,
                    quantity: quantity as usize,
                },
            ),
        )
    } else {
        link.after_send(RequestView { slave_id, function, address, quantity, data: Seq::empty() })
    }
}

/// The link after a write of one coil was asked for, and the frame to write
/// or the refusal.
pub open spec fn write_coil_step(link: Link, slave_id: SlaveId, address: u16, value: bool) -> (
    Link,
    ModbusResult<Seq<u8>>,
) {
    link.after_send(
        RequestView {
            slave_id,
            function: ModbusFunction::WriteSingleCoil,
            address,
            quantity: 1,
            data: seq![if value { 1u8 } else { 0u8 }],
        },
    )
}

/// The link after a write of one register was asked for, and the frame to
/// write or the refusal.
pub open spec fn write_register_step(link: Link, slave_id: SlaveId, address: u16, value: u16) -> (
    Link,
    ModbusResult<Seq<u8>>,
) {
    link.after_send(
        RequestView {
            slave_id,
            function: ModbusFunction::WriteSingleRegister,
            address,
            quantity: 1,
            data: be_bytes(value),
        },
    )
}

/// The link after a write of several coils was asked for, and the frame to
/// write or the refusal. No value and more than 1968 of them are refused
/// with `InvalidRequest` before the transport sees anything.
pub open spec fn write_coils_step(link: Link, slave_id: SlaveId, address: u16, values: Seq<bool>) -> (
    Link,
    ModbusResult<Seq<u8>>,
) {
    if values.len() == 0 || values.len() > 1968 {
        (
            link,
            Err(
                ModbusError::InvalidRequest {
                    address: address as u32,
                    quantity: values.len() as usize,
                },
            ),
        )
    } else {
        link.after_send(
            RequestView {
                slave_id,
                function: ModbusFunction::WriteMultipleCoils,
                address,
                quantity: values.len() as u16,
                data: packed_bits(values),
            },
        )
    }
}

/// The link after a write of several registers was asked for, and the frame
/// to write or the refusal. No value and more than 123 of them are refused
/// with `InvalidRequest` before the transport sees anything.
pub open spec fn write_registers_step(
    link: Link,
    slave_id: SlaveId,
    address: u16,
    values: Seq<u16>,
) -> (Link, ModbusResult<Seq<u8>>) {
    if values.len() == 0 || values.len() > 123 {
        (
            link,
            Err(
                ModbusError::InvalidRequest {
                    address: address as u32,
                    quantity: values.len() as usize,
                },
            ),
        )
    } else {
        link.after_send(
            RequestView {
                slave_id,
                function: ModbusFunction::WriteMultipleRegisters,
                address,
                quantity: values.len() as u16,
                data: registers_bytes(values),
            },
        )
    }
}

/// The link after a frame came back, and what the request asked for or the
/// error.
pub open spec fn receive_step(link: Link, frame: Seq<u8>) -> (Link, ModbusResult<ReplyView>) {
    (
        link.after_recv(frame).0,
        match link.after_recv(frame).1 {
            Err(error) => Err(error),
            Ok(response) => interpret(link.pending->0, response),
        },
    )
}

/// The eight functions, and the connection they run on.
pub trait ModbusClient {
    /// The state of the connection.
    spec fn link(&self) -> Link;

    /// Asks for `quantity` coils from `address` on (function 0x01).
    fn read_coils(&mut self, slave_id: SlaveId, address: u16, quantity: u16) -> (frame: ModbusResult<
        Vec<u8>,
    >)
        ensures
            (final(self).link(), result_view(frame)) == read_step(
                old(self).link(),
                slave_id,
                ModbusFunction::ReadCoils,
                address,
                quantity,
            ),
    ;

    /// Asks for `quantity` discrete inputs from `address` on (function 0x02).
    fn read_discrete_inputs(&mut self, slave_id: SlaveId, address: u16, quantity: u16) -> (frame:
        ModbusResult<Vec<u8>>)
        ensures
            (final(self).link(), result_view(frame)) == read_step(
                old(self).link(),
                slave_id,
                ModbusFunction::ReadDiscreteInputs,
                address,
                quantity,
            ),
    ;

    /// Asks for `quantity` holding registers from `address` on (function 0x03).
    fn read_holding_registers(&mut self, slave_id: SlaveId, address: u16, quantity: u16) -> (frame:
        ModbusResult<Vec<u8>>)
        ensures
            (final(self).link(), result_view(frame)) == read_step(
                old(self).link(),
                slave_id,
                ModbusFunction::ReadHoldingRegisters,
                address,
                quantity,
            ),
    ;

    /// Asks for `quantity` input registers from `address` on (function 0x04).
    fn read_input_registers(&mut self, slave_id: SlaveId, address: u16, quantity: u16) -> (frame:
        ModbusResult<Vec<u8>>)
        ensures
            (final(self).link(), result_view(frame)) == read_step(
                old(self).link(),
                slave_id,
                ModbusFunction::ReadInputRegisters,
                address,
                quantity,
            ),
    ;

    /// Asks to switch the coil at `address` on or off (function 0x05).
    fn write_single_coil(&mut self, slave_id: SlaveId, address: u16, value: bool) -> (frame:
        ModbusResult<Vec<u8>>)
        ensures
            (final(self).link(), result_view(frame)) == write_coil_step(
                old(self).link(),
                slave_id,
                address,
                value,
            ),
    ;

    /// Asks to set the holding register at `address` (function 0x06).
    fn write_single_register(&mut self, slave_id: SlaveId, address: u16, value: u16) -> (frame:
        ModbusResult<Vec<u8>>)
        ensures
            (final(self).link(), result_view(frame)) == write_register_step(
                old(self).link(),
                slave_id,
                address,
                value,
            ),
    ;

    /// Asks to write `values` to the coils from `address` on (function 0x0F).
    fn write_multiple_coils(&mut self, slave_id: SlaveId, address: u16, values: &[bool]) -> (frame:
        ModbusResult<Vec<u8>>)
        ensures
            (final(self).link(), result_view(frame)) == write_coils_step(
                old(self).link(),
                slave_id,
                address,
                values@,
            ),
    ;

    /// Asks to write `values` to the holding registers from `address` on
    /// (function 0x10).
    fn write_multiple_registers(&mut self, slave_id: SlaveId, address: u16, values: &[u16]) -> (frame:
        ModbusResult<Vec<u8>>)
        ensures
            (final(self).link(), result_view(frame)) == write_registers_step(
                old(self).link(),
                slave_id,
                address,
                values@,
            ),
    ;

    /// Takes the frame that came back and returns what the request in
    /// flight asked for.
    fn receive(&mut self, frame: &[u8]) -> (reply: ModbusResult<ClientReply>)
        ensures
            (final(self).link(), result_view(reply)) == receive_step(old(self).link(), frame@),
    ;

    /// Tells whether the stream is open.
    fn is_connected(&self) -> (b: bool)
        ensures
            b == self.link().connected(),
    ;

    /// Notes that the caller wants the stream closed.
    fn close(&mut self)
        ensures
            final(self).link() == old(self).link().after_close(),
    ;

    /// Returns the tally of the transport.
    fn get_stats(&self) -> (stats: TransportStats)
        ensures
            stats == self.link().stats,
    ;
}

/// The client over any transport.
pub struct GenericModbusClient<T: ModbusTransport> {
    transport: T,
}

impl<T: ModbusTransport> GenericModbusClient<T> {
    /// The transport that the client holds.
    pub closed spec fn inner(&self) -> T {
        self.transport
    }

    /// Creates a client on top of `transport`.
    pub fn new(transport: T) -> (client: Self)
        ensures
            client.inner() == transport,
    {
        GenericModbusClient { transport }
    }

    /// Returns the transport.
    pub fn transport(&self) -> (transport: &T)
        ensures
            *transport == self.inner(),
    {
        &self.transport
    }

    /// Returns the transport for change.
    pub fn transport_mut(&mut self) -> (transport: &mut T)
        ensures
            *transport == old(self).inner(),
            final(self).inner() == *final(transport),
    {
        &mut self.transport
    }

    /// Hands a request to the transport as it is and returns the bytes to
    /// write.
    pub fn execute_request(&mut self, request: &ModbusRequest) -> (frame: ModbusResult<Vec<u8>>)
        ensures
            (final(self).inner().link(), result_view(frame)) == old(self).inner().link().after_send(
                request@,
            ),
    {
        self.transport.send_request(request)
    }

    /// Checks the quantity of a read and hands the request to the transport.
    fn read(&mut self, slave_id: SlaveId, function: ModbusFunction, address: u16, quantity: u16) -> (frame:
        ModbusResult<Vec<u8>>)
        ensures
            (final(self).inner().link(), result_view(frame)) == read_step(
                old(self).inner().link(),
                slave_id,
                function,
                address,
                quantity,
            ),
    {
        if quantity == 0 || quantity > function.max_quantity() {
            return Err(
                ModbusError::InvalidRequest {
                    address: address as u32,
                    quantity: quantity as usize,
                },
            );
        }
        let request = ModbusRequest::new_read(slave_id, function, address, quantity);
        self.transport.send_request(&request)
    }
}

impl<T: ModbusTransport> ModbusClient for GenericModbusClient<T> {
    open spec fn link(&self) -> Link {
        self.inner().link()
    }

    fn read_coils(&mut self, slave_id: SlaveId, address: u16, quantity: u16) -> (frame: ModbusResult<
        Vec<u8>,
    >) {
        self.read(slave_id, ModbusFunction::ReadCoils, address, quantity)
    }

    fn read_discrete_inputs(&mut self, slave_id: SlaveId, address: u16, quantity: u16) -> (frame:
        ModbusResult<Vec<u8>>) {
        self.read(slave_id, ModbusFunction::ReadDiscreteInputs, address, quantity)
    }

    fn read_holding_registers(&mut self, slave_id: SlaveId, address: u16, quantity: u16) -> (frame:
        ModbusResult<Vec<u8>>) {
        self.read(slave_id, ModbusFunction::ReadHoldingRegisters, address, quantity)
    }

    fn read_input_registers(&mut self, slave_id: SlaveId, address: u16, quantity: u16) -> (frame:
        ModbusResult<Vec<u8>>) {
        self.read(slave_id, ModbusFunction::ReadInputRegisters, address, quantity)
    }

    fn write_single_coil(&mut self, slave_id: SlaveId, address: u16, value: bool) -> (frame:
        ModbusResult<Vec<u8>>) {
        let request = ModbusRequest::write_single_coil(slave_id, address, value);
        self.transport.send_request(&request)
    }

    fn write_single_register(&mut self, slave_id: SlaveId, address: u16, value: u16) -> (frame:
        ModbusResult<Vec<u8>>) {
        let request = ModbusRequest::write_single_register(slave_id, address, value);
        self.transport.send_request(&request)
    }

    fn write_multiple_coils(&mut self, slave_id: SlaveId, address: u16, values: &[bool]) -> (frame:
        ModbusResult<Vec<u8>>) {
        match ModbusRequest::write_multiple_coils(slave_id, address, values) {
            Ok(request) => self.transport.send_request(&request),
            Err(error) => Err(error),
        }
    }

    fn write_multiple_registers(&mut self, slave_id: SlaveId, address: u16, values: &[u16]) -> (frame:
        ModbusResult<Vec<u8>>) {
        match ModbusRequest::write_multiple_registers(slave_id, address, values) {
            Ok(request) => self.transport.send_request(&request),
            Err(error) => Err(error),
        }
    }

    fn receive(&mut self, frame: &[u8]) -> (reply: ModbusResult<ClientReply>) {
        let pending = self.transport.in_flight();
        match self.transport.recv_response(frame) {
            Err(error) => Err(error),
            Ok(response) => match pending {
                Some(pending) => interpret_response(&pending, &response),
                None => Err(ModbusError::Protocol { violation: Violation::NoRequestInFlight }),
            },
        }
    }

    fn is_connected(&self) -> (b: bool) {
        self.transport.is_connected()
    }

    fn close(&mut self) {
        self.transport.close()
    }

    fn get_stats(&self) -> (stats: TransportStats) {
        self.transport.get_stats()
    }
}

/// The client over a TCP stream.
pub struct ModbusTcpClient {
    inner: GenericModbusClient<TcpTransport>,
}

impl ModbusTcpClient {
    /// The transport that the client holds.
    pub closed spec fn transport_view(&self) -> TcpTransport {
        self.inner.inner()
    }

    /// Creates a client for a stream that is yet to be opened, with the
    /// default deadline of 3000 ms.
    pub fn new() -> (client: ModbusTcpClient)
        ensures
            client.transport_view() == (TcpTransport { link: Link::fresh(Framing::Tcp, 3000) }),
    {
        let transport = TcpTransport { link: Link::new(Framing::Tcp, crate::DEFAULT_TIMEOUT_MS) };
        ModbusTcpClient { inner: GenericModbusClient::new(transport) }
    }

    /// Creates a client for a stream that is yet to be opened. A deadline of
    /// zero is refused with `Configuration`.
    pub fn with_timeout(timeout_ms: u64) -> (client: ModbusResult<ModbusTcpClient>)
        ensures
            match client {
                Ok(c) => timeout_ms != 0 && c.transport_view() == (TcpTransport {
                    link: Link::fresh(Framing::Tcp, timeout_ms),
                }),
                Err(error) => timeout_ms == 0 && error == (ModbusError::Configuration {
                    setting: crate::error::ConfigFault::Timeout,
                }),
            },
    {
        match TcpTransport::new(timeout_ms) {
            Ok(transport) => Ok(ModbusTcpClient { inner: GenericModbusClient::new(transport) }),
            Err(error) => Err(error),
        }
    }

    /// Creates a client on top of a transport.
    pub fn from_transport(transport: TcpTransport) -> (client: ModbusTcpClient)
        ensures
            client.transport_view() == transport,
    {
        ModbusTcpClient { inner: GenericModbusClient::new(transport) }
    }

    /// Returns the transport.
    pub fn transport(&self) -> (transport: &TcpTransport)
        ensures
            *transport == self.transport_view(),
    {
        self.inner.transport()
    }

    /// Returns the transport for change.
    pub fn transport_mut(&mut self) -> (transport: &mut TcpTransport)
        ensures
            *transport == old(self).transport_view(),
            final(self).transport_view() == *final(transport),
    {
        self.inner.transport_mut()
    }

    /// Hands a request to the transport as it is and returns the bytes to
    /// write.
    pub fn execute_request(&mut self, request: &ModbusRequest) -> (frame: ModbusResult<Vec<u8>>)
        ensures
            (final(self).transport_view().link, result_view(frame)) == old(
                self,
            ).transport_view().link.after_send(request@),
    {
        self.inner.execute_request(request)
    }
}

impl ModbusClient for ModbusTcpClient {
    open spec fn link(&self) -> Link {
        self.transport_view().link
    }

    fn read_coils(&mut self, slave_id: SlaveId, address: u16, quantity: u16) -> (frame: ModbusResult<
        Vec<u8>,
    >) {
        self.inner.read_coils(slave_id, address, quantity)
    }

    fn read_discrete_inputs(&mut self, slave_id: SlaveId, address: u16, quantity: u16) -> (frame:
        ModbusResult<Vec<u8>>) {
        self.inner.read_discrete_inputs(slave_id, address, quantity)
    }

    fn read_holding_registers(&mut self, slave_id: SlaveId, address: u16, quantity: u16) -> (frame:
        ModbusResult<Vec<u8>>) {
        self.inner.read_holding_registers(slave_id, address, quantity)
    }

    fn read_input_registers(&mut self, slave_id: SlaveId, address: u16, quantity: u16) -> (frame:
        ModbusResult<Vec<u8>>) {
        self.inner.read_input_registers(slave_id, address, quantity)
    }

    fn write_single_coil(&mut self, slave_id: SlaveId, address: u16, value: bool) -> (frame:
        ModbusResult<Vec<u8>>) {
        self.inner.write_single_coil(slave_id, address, value)
    }

    fn write_single_register(&mut self, slave_id: SlaveId, address: u16, value: u16) -> (frame:
        ModbusResult<Vec<u8>>) {
        self.inner.write_single_register(slave_id, address, value)
    }

    fn write_multiple_coils(&mut self, slave_id: SlaveId, address: u16, values: &[bool]) -> (frame:
        ModbusResult<Vec<u8>>) {
        self.inner.write_multiple_coils(slave_id, address, values)
    }

    fn write_multiple_registers(&mut self, slave_id: SlaveId, address: u16, values: &[u16]) -> (frame:
        ModbusResult<Vec<u8>>) {
        self.inner.write_multiple_registers(slave_id, address, values)
    }

    fn receive(&mut self, frame: &[u8]) -> (reply: ModbusResult<ClientReply>) {
        self.inner.receive(frame)
    }

    fn is_connected(&self) -> (b: bool) {
        self.inner.is_connected()
    }

    fn close(&mut self) {
        self.inner.close()
    }

    fn get_stats(&self) -> (stats: TransportStats) {
        self.inner.get_stats()
    }
}

/// The client over a serial line.
pub struct ModbusRtuClient {
    inner: GenericModbusClient<RtuTransport>,
}

impl ModbusRtuClient {
    /// The transport that the client holds.
    pub closed spec fn transport_view(&self) -> RtuTransport {
        self.inner.inner()
    }

    /// Creates a client for the serial device `port` with 8 data bits, 1
    /// stop bit, no parity and the default deadline. An empty device name and
    /// a baud rate of zero are refused with `Configuration`.
    pub fn new(port: &str, baud_rate: u32) -> (client: ModbusResult<ModbusRtuClient>)
        ensures
            match client {
                Ok(c) => RtuTransport::config_fault(port@, baud_rate, 3000) is None
                    && c.transport_view().port@ == port@ && c.transport_view().settings == (
                SerialSettings {
                    baud_rate,
                    data_bits: crate::transport::DataBits::Eight,
                    stop_bits: crate::transport::StopBits::One,
                    parity: crate::transport::Parity::NoParity,
                }) && c.transport_view().link == (Link {
                    state: crate::transport::ConnectionState::Connected,
                    ..Link::fresh(Framing::Rtu, 3000)
                }),
                Err(error) => RtuTransport::config_fault(port@, baud_rate, 3000) matches Some(
                    setting,
                ) && error == (ModbusError::Configuration { setting }),
            },
    {
        match RtuTransport::new(port, baud_rate) {
            Ok(transport) => Ok(ModbusRtuClient { inner: GenericModbusClient::new(transport) }),
            Err(error) => Err(error),
        }
    }

    /// Creates a client for the serial device `port` with the given settings
    /// and deadline. An empty device name, a baud rate of zero and a deadline
    /// of zero are refused with `Configuration`.
    pub fn with_config(port: &str, settings: SerialSettings, timeout_ms: u64) -> (client:
        ModbusResult<ModbusRtuClient>)
        ensures
            match client {
                Ok(c) => RtuTransport::config_fault(port@, settings.baud_rate, timeout_ms) is None
                    && c.transport_view().port@ == port@ && c.transport_view().settings == settings
                    && c.transport_view().link == (Link {
                    state: crate::transport::ConnectionState::Connected,
                    ..Link::fresh(Framing::Rtu, timeout_ms)
                }),
                Err(error) => RtuTransport::config_fault(port@, settings.baud_rate, timeout_ms)
                    matches Some(setting) && error == (ModbusError::Configuration { setting }),
            },
    {
        match RtuTransport::new_with_config(port, settings, timeout_ms) {
            Ok(transport) => Ok(ModbusRtuClient { inner: GenericModbusClient::new(transport) }),
            Err(error) => Err(error),
        }
    }

    /// Creates a client on top of a transport.
    pub fn from_transport(transport: RtuTransport) -> (client: ModbusRtuClient)
        ensures
            client.transport_view() == transport,
    {
        ModbusRtuClient { inner: GenericModbusClient::new(transport) }
    }

    /// Returns the transport.
    pub fn transport(&self) -> (transport: &RtuTransport)
        ensures
            *transport == self.transport_view(),
    {
        self.inner.transport()
    }

    /// Returns the transport for change.
    pub fn transport_mut(&mut self) -> (transport: &mut RtuTransport)
        ensures
            *transport == old(self).transport_view(),
            final(self).transport_view() == *final(transport),
    {
        self.inner.transport_mut()
    }

    /// Hands a request to the transport as it is and returns the bytes to
    /// write.
    pub fn execute_request(&mut self, request: &ModbusRequest) -> (frame: ModbusResult<Vec<u8>>)
        ensures
            (final(self).transport_view().link, result_view(frame)) == old(
                self,
            ).transport_view().link.after_send(request@),
    {
        self.inner.execute_request(request)
    }
}

impl ModbusClient for ModbusRtuClient {
    open spec fn link(&self) -> Link {
        self.transport_view().link
    }

    fn read_coils(&mut self, slave_id: SlaveId, address: u16, quantity: u16) -> (frame: ModbusResult<
        Vec<u8>,
    >) {
        self.inner.read_coils(slave_id, address, quantity)
    }

    fn read_discrete_inputs(&mut self, slave_id: SlaveId, address: u16, quantity: u16) -> (frame:
        ModbusResult<Vec<u8>>) {
        self.inner.read_discrete_inputs(slave_id, address, quantity)
    }

    fn read_holding_registers(&mut self, slave_id: SlaveId, address: u16, quantity: u16) -> (frame:
        ModbusResult<Vec<u8>>) {
        self.inner.read_holding_registers(slave_id, address, quantity)
    }

    fn read_input_registers(&mut self, slave_id: SlaveId, address: u16, quantity: u16) -> (frame:
        ModbusResult<Vec<u8>>) {
        self.inner.read_input_registers(slave_id, address, quantity)
    }

    fn write_single_coil(&mut self, slave_id: SlaveId, address: u16, value: bool) -> (frame:
        ModbusResult<Vec<u8>>) {
        self.inner.write_single_coil(slave_id, address, value)
    }

    fn write_single_register(&mut self, slave_id: SlaveId, address: u16, value: u16) -> (frame:
        ModbusResult<Vec<u8>>) {
        self.inner.write_single_register(slave_id, address, value)
    }

    fn write_multiple_coils(&mut self, slave_id: SlaveId, address: u16, values: &[bool]) -> (frame:
        ModbusResult<Vec<u8>>) {
        self.inner.write_multiple_coils(slave_id, address, values)
    }

    fn write_multiple_registers(&mut self, slave_id: SlaveId, address: u16, values: &[u16]) -> (frame:
        ModbusResult<Vec<u8>>) {
        self.inner.write_multiple_registers(slave_id, address, values)
    }

    fn receive(&mut self, frame: &[u8]) -> (reply: ModbusResult<ClientReply>) {
        self.inner.receive(frame)
    }

    fn is_connected(&self) -> (b: bool) {
        self.inner.is_connected()
    }

    fn close(&mut self) {
        self.inner.close()
    }

    fn get_stats(&self) -> (stats: TransportStats) {
        self.inner.get_stats()
    }
}

} // verus!
