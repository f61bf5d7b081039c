//! The application layer that both transports share: function codes and the
//! descriptors of a request and of a response.

use vstd::prelude::*;
use vstd::slice::slice_subrange;
use crate::packed_len;
use crate::data_utils::{
    bytes_registers, bytes_to_registers, pack_bits, packed_bits, push_word, registers_bytes,
    registers_to_bytes, be_bytes, unpack_bits, unpacked_bits,
};
use crate::error::{FrameFault, ModbusError, ModbusException, ModbusResult, result_view};

verus! {

/// Address of a unit on the bus: 0 is broadcast, 1 to 247 are devices.
pub type SlaveId = u8;

/// The unit address that reaches every responder.
pub const BROADCAST_SLAVE_ID: SlaveId = 0;

/// The highest unit address of a single device.
pub const MAX_SLAVE_ID: SlaveId = 247;

/// Largest number of coils one write request may carry.
pub const MAX_WRITE_COILS: u16 = 1968;

/// Largest number of registers one write request may carry.
pub const MAX_WRITE_REGISTERS: u16 = 123;

/// The eight data-access functions.
#[derive(Debug, Clone, Copy, PartialEq, Eq, Structural)]
pub enum ModbusFunction {
    /// 0x01
    ReadCoils,
    /// 0x02
    ReadDiscreteInputs,
    /// 0x03
    ReadHoldingRegisters,
    /// 0x04
    ReadInputRegisters,
    /// 0x05
    WriteSingleCoil,
    /// 0x06
    WriteSingleRegister,
    /// 0x0F
    WriteMultipleCoils,
    /// 0x10
    WriteMultipleRegisters,
}

impl ModbusFunction {
    /// The function code on the wire.
    pub open spec fn code(self) -> u8 {
        match self {
            ModbusFunction::ReadCoils => 0x01,
            ModbusFunction::ReadDiscreteInputs => 0x02,
            ModbusFunction::ReadHoldingRegisters => 0x03,
            ModbusFunction::ReadInputRegisters => 0x04,
            ModbusFunction::WriteSingleCoil => 0x05,
            ModbusFunction::WriteSingleRegister => 0x06,
            ModbusFunction::WriteMultipleCoils => 0x0F,
            ModbusFunction::WriteMultipleRegisters => 0x10,
        }
    }

    /// The function that a code stands for, if it is one of the eight.
    pub open spec fn of_code(code: u8) -> Option<ModbusFunction> {
        if code == 0x01 {
            Some(ModbusFunction::ReadCoils)
        } else if code == 0x02 {
            Some(ModbusFunction::ReadDiscreteInputs)
        } else if code == 0x03 {
            Some(ModbusFunction::ReadHoldingRegisters)
        } else if code == 0x04 {
            Some(ModbusFunction::ReadInputRegisters)
        } else if code == 0x05 {
            Some(ModbusFunction::WriteSingleCoil)
        } else if code == 0x06 {
            Some(ModbusFunction::WriteSingleRegister)
        } else if code == 0x0F {
            Some(ModbusFunction::WriteMultipleCoils)
        } else if code == 0x10 {
            Some(ModbusFunction::WriteMultipleRegisters)
        } else {
            None
        }
    }

    /// Whether the function reads coils or discrete inputs.
    pub open spec fn reads_bits(self) -> bool {
        self == ModbusFunction::ReadCoils || self == ModbusFunction::ReadDiscreteInputs
    }

    /// Whether the function reads holding or input registers.
    pub open spec fn reads_registers(self) -> bool {
        self == ModbusFunction::ReadHoldingRegisters || self == ModbusFunction::ReadInputRegisters
    }

    /// Whether the function is one of the four reads.
    pub open spec fn is_read(self) -> bool {
        self.reads_bits() || self.reads_registers()
    }

    /// Whether the function is one of the four writes.
    pub open spec fn is_write(self) -> bool {
        !self.is_read()
    }

    /// The largest quantity that a request of this function may name.
    pub open spec fn quantity_limit(self) -> u16 {
        match self {
            ModbusFunction::ReadCoils => 2000,
            ModbusFunction::ReadDiscreteInputs => 2000,
            ModbusFunction::ReadHoldingRegisters => 125,
            ModbusFunction::ReadInputRegisters => 125,
            ModbusFunction::WriteSingleCoil => 1,
            ModbusFunction::WriteSingleRegister => 1,
            ModbusFunction::WriteMultipleCoils => 1968,
            ModbusFunction::WriteMultipleRegisters => 123,
        }
    }

    /// Returns the function code on the wire.
    pub fn to_u8(self) -> (code: u8)
        ensures
            code == self.code(),
    {
        match self {
            ModbusFunction::ReadCoils => 0x01,
            ModbusFunction::ReadDiscreteInputs => 0x02,
            ModbusFunction::ReadHoldingRegisters => 0x03,
            ModbusFunction::ReadInputRegisters => 0x04,
            ModbusFunction::WriteSingleCoil => 0x05,
            ModbusFunction::WriteSingleRegister => 0x06,
            ModbusFunction::WriteMultipleCoils => 0x0F,
            ModbusFunction::WriteMultipleRegisters => 0x10,
        }
    }

    /// Reads a function from its code. Any code other than the eight
    /// supported ones gives `InvalidFunction` with that code.
    pub fn from_u8(value: u8) -> (function: ModbusResult<ModbusFunction>)
        ensures
            function == match Self::of_code(value) {
                Some(f) => Ok::<ModbusFunction, ModbusError>(f),
                None => Err(ModbusError::InvalidFunction { code: value }),
            },
    {
        match value {
            0x01 => Ok(ModbusFunction::ReadCoils),
            0x02 => Ok(ModbusFunction::ReadDiscreteInputs),
            0x03 => Ok(ModbusFunction::ReadHoldingRegisters),
            0x04 => Ok(ModbusFunction::ReadInputRegisters),
            0x05 => Ok(ModbusFunction::WriteSingleCoil),
            0x06 => Ok(ModbusFunction::WriteSingleRegister),
            0x0F => Ok(ModbusFunction::WriteMultipleCoils),
            0x10 => Ok(ModbusFunction::WriteMultipleRegisters),
            _ => Err(ModbusError::InvalidFunction { code: value }),
        }
    }

    /// Tells whether the function is one of the four reads.
    pub fn is_read_function(self) -> (b: bool)
        ensures
            b == self.is_read(),
    {
        match self {
            ModbusFunction::ReadCoils => true,
            ModbusFunction::ReadDiscreteInputs => true,
            ModbusFunction::ReadHoldingRegisters => true,
            ModbusFunction::ReadInputRegisters => true,
            _ => false,
        }
    }

    /// Tells whether the function is one of the four writes.
    pub fn is_write_function(self) -> (b: bool)
        ensures
            b == self.is_write(),
    {
        !self.is_read_function()
    }

    /// Returns the largest quantity that a request of this function may name:
    /// 2000 bits or 125 registers for a read, 1968 coils or 123 registers for
    /// a write of several, 1 for a write of one.
    pub fn max_quantity(self) -> (limit: u16)
        ensures
            limit == self.quantity_limit(),
    {
        match self {
            ModbusFunction::ReadCoils => crate::MAX_COILS_PER_REQUEST,
            ModbusFunction::ReadDiscreteInputs => crate::MAX_COILS_PER_REQUEST,
            ModbusFunction::ReadHoldingRegisters => crate::MAX_REGISTERS_PER_REQUEST,
            ModbusFunction::ReadInputRegisters => crate::MAX_REGISTERS_PER_REQUEST,
            ModbusFunction::WriteSingleCoil => 1,
            ModbusFunction::WriteSingleRegister => 1,
            ModbusFunction::WriteMultipleCoils => MAX_WRITE_COILS,
            ModbusFunction::WriteMultipleRegisters => MAX_WRITE_REGISTERS,
        }
    }

    /// Every function survives the trip through its code, and every code
    /// stays below the bit that marks an exception response.
    pub proof fn lemma_code_roundtrip(self)
        ensures
            Self::of_code(self.code()) == Some(self),
            0 < self.code() < 0x80,
    {
    }
}

/// What a request descriptor holds, as mathematical values.
#[verifier::ext_equal]
pub struct RequestView {
    pub slave_id: SlaveId,
    pub function: ModbusFunction,
    pub address: u16,
    pub quantity: u16,
    pub data: Seq<u8>,
}

impl RequestView {
    /// Whether quantity and data have the shape that the function calls for.
    ///
    /// A read names 1 to `quantity_limit()` items and carries no data. A
    /// write of one coil carries one byte, 1 for ON and 0 for OFF; a write of
    /// one register carries the value as two bytes. A write of several names 1
    /// to `quantity_limit()` items and carries them packed: bits eight to a
    /// byte, registers two bytes each.
    pub open spec fn payload_valid(self) -> bool {
        match self.function {
            ModbusFunction::WriteSingleCoil => self.quantity == 1 && self.data.len() == 1
                && self.data[0] <= 1,
            ModbusFunction::WriteSingleRegister => self.quantity == 1 && self.data.len() == 2,
            ModbusFunction::WriteMultipleCoils => 1 <= self.quantity <= 1968 && self.data.len()
                == packed_len(self.quantity as int),
            ModbusFunction::WriteMultipleRegisters => 1 <= self.quantity <= 123
                && self.data.len() == 2 * self.quantity,
            _ => 1 <= self.quantity <= self.function.quantity_limit() && self.data.len() == 0,
        }
    }

    /// Whether the unit address may carry this function: at most 247, and
    /// broadcast only for writes.
    pub open spec fn slave_valid(self) -> bool {
        self.slave_id <= 247 && (self.slave_id == 0 ==> self.function.is_write())
    }

    /// Whether the request may be sent.
    pub open spec fn valid(self) -> bool {
        self.slave_valid() && self.payload_valid()
    }

    /// Whether the request goes to every responder, so that none answers.
    pub open spec fn is_broadcast(self) -> bool {
        self.slave_id == 0
    }

    /// The error that names this request as out of bounds.
    pub open spec fn refusal(self) -> ModbusError {
        ModbusError::InvalidRequest {
            address: self.address as u32,
            quantity: self.quantity as usize,
        }
    }
}

/// A request: which unit, which function, where, how many, and for writes
/// the values.
#[derive(Debug, Clone, PartialEq, Eq)]
pub struct ModbusRequest {
    pub slave_id: SlaveId,
    pub function: ModbusFunction,
    pub address: u16,
    pub quantity: u16,
    pub data: Vec<u8>,
}

impl View for ModbusRequest {
    type V = RequestView;

    open spec fn view(&self) -> RequestView {
        RequestView {
            slave_id: self.slave_id,
            function: self.function,
            address: self.address,
            quantity: self.quantity,
            data: self.data@,
        }
    }
}

impl ModbusRequest {
    /// Builds a request without data. Nothing is checked: `validate` tells
    /// whether the function is a read and the quantity within its limit.
    pub fn new_read(slave_id: SlaveId, function: ModbusFunction, address: u16, quantity: u16) -> (request:
        ModbusRequest)
        ensures
            request@ == (RequestView { slave_id, function, address, quantity, data: Seq::empty() }),
    {
        ModbusRequest { slave_id, function, address, quantity, data: Vec::new() }
    }

    /// Builds a read request from integers of any size. An address above
    /// 65535, a function that is no read, a quantity of zero or one above the
    /// limit of the function is refused with `InvalidRequest`.
    pub fn checked_read(slave_id: SlaveId, function: ModbusFunction, address: u32, quantity: u32) -> (request:
        ModbusResult<ModbusRequest>)
        ensures
            result_view(request) == if function.is_read() && address <= 0xFFFF && 1 <= quantity
                <= function.quantity_limit() {
                Ok::<RequestView, ModbusError>(
                    RequestView {
                        slave_id,
                        function,
                        address: address as u16,
                        quantity: quantity as u16,
                        data: Seq::empty(),
                    },
                )
            } else {
                Err(ModbusError::InvalidRequest { address, quantity: quantity as usize })
            },
    {
        if !function.is_read_function() || address > 0xFFFF || quantity == 0 || quantity
            > function.max_quantity() as u32 {
            return Err(ModbusError::InvalidRequest { address, quantity: quantity as usize });
        }
        Ok(ModbusRequest::new_read(slave_id, function, address as u16, quantity as u16))
    }

    /// Builds the request that switches one coil on or off.
    pub fn write_single_coil(slave_id: SlaveId, address: u16, value: bool) -> (request: ModbusRequest)
        ensures
            request@ == (RequestView {
                slave_id,
                function: ModbusFunction::WriteSingleCoil,
                address,
                quantity: 1,
                data: seq![if value { 1u8 } else { 0u8 }],
            }),
            request@.payload_valid(),
    {
        let mut data: Vec<u8> = Vec::new();
        data.push(if value { 1 } else { 0 });
        let request = ModbusRequest {
            slave_id,
            function: ModbusFunction::WriteSingleCoil,
            address,
            quantity: 1,
            data,
        };
        assert(request@.data =~= seq![if value { 1u8 } else { 0u8 }]);
        request
    }

    /// Builds the request that sets one holding register.
    pub fn write_single_register(slave_id: SlaveId, address: u16, value: u16) -> (request: ModbusRequest)
        ensures
            request@ == (RequestView {
                slave_id,
                function: ModbusFunction::WriteSingleRegister,
                address,
                quantity: 1,
                data: be_bytes(value),
            }),
            request@.payload_valid(),
    {
        let mut data: Vec<u8> = Vec::new();
        push_word(&mut data, value);
        let request = ModbusRequest {
            slave_id,
            function: ModbusFunction::WriteSingleRegister,
            address,
            quantity: 1,
            data,
        };
        assert(request@.data =~= be_bytes(value));
        request
    }

    /// Builds the request that writes `values` to consecutive coils. No value
    /// or more than 1968 of them are refused with `InvalidRequest`.
    pub fn write_multiple_coils(slave_id: SlaveId, address: u16, values: &[bool]) -> (request:
        ModbusResult<ModbusRequest>)
        ensures
            result_view(request) == if 1 <= values@.len() <= 1968 {
                Ok::<RequestView, ModbusError>(
                    RequestView {
                        slave_id,
                        function: ModbusFunction::WriteMultipleCoils,
                        address,
                        quantity: values@.len() as u16,
                        data: packed_bits(values@),
                    },
                )
            } else {
                Err(ModbusError::InvalidRequest { address: address as u32, quantity: values.len() })
            },
            request matches Ok(r) ==> r@.payload_valid(),
    {
        if values.len() == 0 || values.len() > MAX_WRITE_COILS as usize {
            return Err(
                ModbusError::InvalidRequest { address: address as u32, quantity: values.len() },
            );
        }
        Ok(
            ModbusRequest {
                slave_id,
                function: ModbusFunction::WriteMultipleCoils,
                address,
                quantity: values.len() as u16,
                data: pack_bits(values),
            },
        )
    }

    /// Builds the request that writes `values` to consecutive holding
    /// registers. No value or more than 123 of them are refused with
    /// `InvalidRequest`.
    pub fn write_multiple_registers(slave_id: SlaveId, address: u16, values: &[u16]) -> (request:
        ModbusResult<ModbusRequest>)
        ensures
            result_view(request) == if 1 <= values@.len() <= 123 {
                Ok::<RequestView, ModbusError>(
                    RequestView {
                        slave_id,
                        function: ModbusFunction::WriteMultipleRegisters,
                        address,
                        quantity: values@.len() as u16,
                        data: registers_bytes(values@),
                    },
                )
            } else {
                Err(ModbusError::InvalidRequest { address: address as u32, quantity: values.len() })
            },
            request matches Ok(r) ==> r@.payload_valid(),
    {
        if values.len() == 0 || values.len() > MAX_WRITE_REGISTERS as usize {
            return Err(
                ModbusError::InvalidRequest { address: address as u32, quantity: values.len() },
            );
        }
        Ok(
            ModbusRequest {
                slave_id,
                function: ModbusFunction::WriteMultipleRegisters,
                address,
                quantity: values.len() as u16,
                data: registers_to_bytes(values),
            },
        )
    }

    /// Tells whether quantity and data have the shape that the function calls
    /// for.
    pub fn payload_is_valid(&self) -> (b: bool)
        ensures
            b == self@.payload_valid(),
    {
        let len: usize = self.data.len();
        match self.function {
            ModbusFunction::WriteSingleCoil => self.quantity == 1 && len == 1 && self.data[0] <= 1,
            ModbusFunction::WriteSingleRegister => self.quantity == 1 && len == 2,
            ModbusFunction::WriteMultipleCoils => 1 <= self.quantity && self.quantity
                <= MAX_WRITE_COILS && len == crate::packed_byte_count(self.quantity as usize),
            ModbusFunction::WriteMultipleRegisters => 1 <= self.quantity && self.quantity
                <= MAX_WRITE_REGISTERS && len == 2 * (self.quantity as usize),
            _ => 1 <= self.quantity && self.quantity <= self.function.max_quantity() && len == 0,
        }
    }

    /// Checks the whole request: the unit address is at most 247, broadcast
    /// goes with writes only, and quantity and data fit the function. What
    /// fails is refused with `InvalidRequest`, naming address and quantity.
    pub fn validate(&self) -> (checked: ModbusResult<()>)
        ensures
            checked == if self@.valid() {
                Ok::<(), ModbusError>(())
            } else {
                Err(self@.refusal())
            },
    {
        let slave_ok: bool = self.slave_id <= MAX_SLAVE_ID && (self.slave_id != BROADCAST_SLAVE_ID
            || self.function.is_write_function());
        if slave_ok && self.payload_is_valid() {
            Ok(())
        } else {
            Err(
                ModbusError::InvalidRequest {
                    address: self.address as u32,
                    quantity: self.quantity as usize,
                },
            )
        }
    }

    /// Tells whether the request goes to every responder.
    pub fn is_broadcast(&self) -> (b: bool)
        ensures
            b == self@.is_broadcast(),
    {
        self.slave_id == BROADCAST_SLAVE_ID
    }
}

/// What a response descriptor holds, as mathematical values.
#[verifier::ext_equal]
pub struct ResponseView {
    pub slave_id: SlaveId,
    pub function: ModbusFunction,
    pub data: Seq<u8>,
    pub exception: Option<ModbusException>,
}

impl ResponseView {
    /// Whether the payload has the shape that the function calls for.
    ///
    /// An exception response has no payload. The payload of a read is a byte
    /// count followed by that many bytes, an even number of them for
    /// registers. The payload of a write is four bytes: the address, and the
    /// value or the quantity. With the function code the payload is at most
    /// 253 bytes long.
    pub open spec fn valid(self) -> bool {
        if self.exception is Some {
            self.data.len() == 0
        } else if self.function.is_read() {
            &&& 1 <= self.data.len() <= 252
            &&& self.data[0] == self.data.len() - 1
            &&& self.function.reads_registers() ==> self.data[0] % 2 == 0
        } else {
            self.data.len() == 4
        }
    }

    /// The bytes that follow the byte count.
    pub open spec fn values(self) -> Seq<u8> {
        self.data.subrange(1, self.data.len() as int)
    }

    /// The error that stands in the way of reading values from the payload,
    /// if there is one: the exception that the peer reported, no byte count,
    /// or a byte count other than the number of bytes that follow.
    pub open spec fn payload_error(self) -> Option<ModbusError> {
        if let Some(exception) = self.exception {
            Some(ModbusError::Exception { function: self.function.code(), exception })
        } else if self.data.len() == 0 {
            Some(ModbusError::Frame { fault: FrameFault::TooShort })
        } else if self.data[0] != self.data.len() - 1 {
            Some(ModbusError::Frame { fault: FrameFault::ByteCount })
        } else {
            None
        }
    }

    /// The registers in the payload, or why there are none.
    pub open spec fn registers(self) -> ModbusResult<Seq<u16>> {
        if let Some(error) = self.payload_error() {
            Err(error)
        } else if self.values().len() % 2 != 0 {
            Err(ModbusError::Frame { fault: FrameFault::OddByteCount })
        } else {
            Ok(bytes_registers(self.values()))
        }
    }

    /// All the bits in the payload, eight per byte, or why there are none.
    pub open spec fn bits(self) -> ModbusResult<Seq<bool>> {
        if let Some(error) = self.payload_error() {
            Err(error)
        } else {
            Ok(unpacked_bits(self.values(), 8 * self.values().len()))
        }
    }
}

/// A response: which unit answered which function, and either the payload
/// that follows the function code or the exception reported.
#[derive(Debug, Clone, PartialEq, Eq)]
pub struct ModbusResponse {
    pub slave_id: SlaveId,
    pub function: ModbusFunction,
    pub data: Vec<u8>,
    pub exception: Option<ModbusException>,
}

impl View for ModbusResponse {
    type V = ResponseView;

    open spec fn view(&self) -> ResponseView {
        ResponseView {
            slave_id: self.slave_id,
            function: self.function,
            data: self.data@,
            exception: self.exception,
        }
    }
}

impl ModbusResponse {
    /// Builds a response that carries a payload.
    pub fn new_success(slave_id: SlaveId, function: ModbusFunction, data: Vec<u8>) -> (response:
        ModbusResponse)
        ensures
            response@ == (ResponseView { slave_id, function, data: data@, exception: None }),
    {
        ModbusResponse { slave_id, function, data, exception: None }
    }

    /// Builds an exception response.
    pub fn new_exception(slave_id: SlaveId, function: ModbusFunction, exception: ModbusException) -> (response:
        ModbusResponse)
        ensures
            response@ == (ResponseView {
                slave_id,
                function,
                data: Seq::empty(),
                exception: Some(exception),
            }),
            response@.valid(),
    {
        ModbusResponse { slave_id, function, data: Vec::new(), exception: Some(exception) }
    }

    /// Tells whether the peer reported an exception.
    pub fn is_exception(&self) -> (b: bool)
        ensures
            b == (self@.exception is Some),
    {
        self.exception.is_some()
    }

    /// Tells whether the response carries a payload.
    pub fn is_success(&self) -> (b: bool)
        ensures
            b == (self@.exception is None),
    {
        self.exception.is_none()
    }

    /// Returns the exception that the peer reported, if any.
    pub fn get_exception(&self) -> (exception: Option<ModbusException>)
        ensures
            exception == self@.exception,
    {
        self.exception
    }

    /// Tells whether the payload has the shape that the function calls for.
    pub fn is_valid(&self) -> (b: bool)
        ensures
            b == self@.valid(),
    {
        let len: usize = self.data.len();
        if self.exception.is_some() {
            len == 0
        } else if self.function.is_read_function() {
            1 <= len && len <= 252 && self.data[0] as usize == len - 1 && (match self.function {
                ModbusFunction::ReadHoldingRegisters => self.data[0] % 2 == 0,
                ModbusFunction::ReadInputRegisters => self.data[0] % 2 == 0,
                _ => true,
            })
        } else {
            len == 4
        }
    }

    /// Checks that values can be read from the payload.
    fn check_payload(&self) -> (checked: ModbusResult<()>)
        ensures
            checked == match self@.payload_error() {
                Some(error) => Err::<(), ModbusError>(error),
                None => Ok(()),
            },
    {
        match self.exception {
            Some(exception) => Err(
                ModbusError::Exception { function: self.function.to_u8(), exception },
            ),
            None => {
                if self.data.len() == 0 {
                    Err(ModbusError::Frame { fault: FrameFault::TooShort })
                } else if self.data[0] as usize != self.data.len() - 1 {
                    Err(ModbusError::Frame { fault: FrameFault::ByteCount })
                } else {
                    Ok(())
                }
            },
        }
    }

    /// Reads the payload as registers: a byte count, then two big-endian
    /// bytes per register. An exception response gives `Exception`; a missing
    /// or wrong byte count or an odd number of bytes gives `Frame`.
    pub fn parse_registers(&self) -> (registers: ModbusResult<Vec<u16>>)
        ensures
            result_view(registers) == self@.registers(),
    {
        match self.check_payload() {
            Err(error) => Err(error),
            Ok(()) => {
                let values = slice_subrange(self.data.as_slice(), 1, self.data.len());
                bytes_to_registers(values)
            },
        }
    }

    /// Reads the payload as bits: a byte count, then eight bits per byte,
    /// lowest bit first. All the bits of the payload are returned, padding
    /// included. An exception response gives `Exception`; a missing or wrong
    /// byte count gives `Frame`.
    pub fn parse_bits(&self) -> (bits: ModbusResult<Vec<bool>>)
        ensures
            result_view(bits) == self@.bits(),
    {
        match self.check_payload() {
            Err(error) => Err(error),
            Ok(()) => {
                let values = slice_subrange(self.data.as_slice(), 1, self.data.len());
                Ok(unpack_bits(values, 8 * values.len()))
            },
        }
    }
}

} // verus!
