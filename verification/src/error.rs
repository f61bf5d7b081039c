//! Error values shared by every layer of the protocol engine.
//!
//! Errors are plain data: each variant carries the numbers that caused it, so
//! that contracts can say exactly which error a function returns.

use vstd::prelude::*;

verus! {

/// Exception codes that a responder may put into an exception response.
#[derive(Debug, Clone, Copy, PartialEq, Eq, Structural)]
pub enum ModbusException {
    /// 0x01: the function code is not supported.
    IllegalFunction,
    /// 0x02: an address leaves the mapped part of a data space.
    IllegalDataAddress,
    /// 0x03: a quantity or a value is out of range.
    IllegalDataValue,
    /// 0x04: the responder failed while serving the request.
    SlaveDeviceFailure,
}

impl ModbusException {
    /// The byte that stands for this exception on the wire.
    pub open spec fn code(self) -> u8 {
        match self {
            ModbusException::IllegalFunction => 0x01,
            ModbusException::IllegalDataAddress => 0x02,
            ModbusException::IllegalDataValue => 0x03,
            ModbusException::SlaveDeviceFailure => 0x04,
        }
    }

    /// The exception that a wire byte stands for, if any.
    pub open spec fn of_code(code: u8) -> Option<ModbusException> {
        if code == 0x01 {
            Some(ModbusException::IllegalFunction)
        } else if code == 0x02 {
            Some(ModbusException::IllegalDataAddress)
        } else if code == 0x03 {
            Some(ModbusException::IllegalDataValue)
        } else if code == 0x04 {
            Some(ModbusException::SlaveDeviceFailure)
        } else {
            None
        }
    }

    /// Returns the wire byte of this exception.
    pub fn to_u8(self) -> (code: u8)
        ensures
            code == self.code(),
    {
        match self {
            ModbusException::IllegalFunction => 0x01,
            ModbusException::IllegalDataAddress => 0x02,
            ModbusException::IllegalDataValue => 0x03,
            ModbusException::SlaveDeviceFailure => 0x04,
        }
    }

    /// Reads an exception from its wire byte; `None` for any byte other than 1 to 4.
    pub fn from_u8(code: u8) -> (exception: Option<ModbusException>)
        ensures
            exception == Self::of_code(code),
    {
        match code {
            0x01 => Some(ModbusException::IllegalFunction),
            0x02 => Some(ModbusException::IllegalDataAddress),
            0x03 => Some(ModbusException::IllegalDataValue),
            0x04 => Some(ModbusException::SlaveDeviceFailure),
            _ => None,
        }
    }

    /// Every exception survives the trip through its wire byte.
    pub proof fn lemma_code_roundtrip(self)
        ensures
            Self::of_code(self.code()) == Some(self),
    {
    }
}

/// What is wrong with a frame or a PDU that cannot be decoded.
#[derive(Debug, Clone, Copy, PartialEq, Eq, Structural)]
pub enum FrameFault {
    /// Fewer bytes than the layout needs.
    TooShort,
    /// More bytes than the layout allows.
    TooLong,
    /// The MBAP protocol identifier is not zero.
    ProtocolId,
    /// The MBAP length field is outside 2..=253 or disagrees with the bytes present.
    Length,
    /// A byte count disagrees with the bytes that follow it or with the quantity.
    ByteCount,
    /// The byte count of a register payload is odd.
    OddByteCount,
    /// An exception response carries a code other than 1 to 4.
    ExceptionCode,
}

/// How a well-formed response fails to answer the request in flight.
#[derive(Debug, Clone, Copy, PartialEq, Eq, Structural)]
pub enum Violation {
    /// The response echoes another transaction identifier.
    TransactionId { expected_id: u16, actual_id: u16 },
    /// The response comes from another unit than the one addressed.
    SlaveId { expected_slave: u8, actual_slave: u8 },
    /// The response answers another function than the one requested.
    Function { expected_function: u8, actual_function: u8 },
    /// A response arrived, or was asked for, while no request was in flight.
    NoRequestInFlight,
    /// A request was issued while another one was still in flight.
    RequestInFlight,
}

/// Which configuration value was refused.
#[derive(Debug, Clone, Copy, PartialEq, Eq, Structural)]
pub enum ConfigFault {
    /// The serial device name is empty.
    SerialDevice,
    /// The baud rate is zero.
    BaudRate,
    /// The request deadline is zero.
    Timeout,
    /// A data space was asked to map more than 65536 addresses.
    BankSize,
    /// The connection cap is zero.
    MaxConnections,
}

/// Everything that can go wrong in the protocol engine.
#[derive(Debug, Clone, Copy, PartialEq, Eq, Structural)]
pub enum ModbusError {
    /// The socket or serial line is closed, or could not be opened, read or written.
    Connection,
    /// The request deadline passed before a whole response arrived.
    Timeout { timeout_ms: u64 },
    /// A frame or a PDU breaks its layout.
    Frame { fault: FrameFault },
    /// The checksum of an RTU frame is not the one computed over its bytes.
    CrcMismatch { expected: u16, actual: u16 },
    /// A well-formed response that does not answer the request in flight.
    Protocol { violation: Violation },
    /// The peer answered with an exception response.
    Exception { function: u8, exception: ModbusException },
    /// Arguments supplied by the caller are out of bounds.
    InvalidRequest { address: u32, quantity: usize },
    /// A function code other than the eight supported ones.
    InvalidFunction { code: u8 },
    /// A coil value other than 0xFF00 and 0x0000.
    InvalidValue { value: u16 },
    /// A range of addresses that leaves the mapped part of a data space.
    InvalidAddress { start: u16, count: u16 },
    /// A configuration value was refused.
    Configuration { setting: ConfigFault },
}

/// Result type of the protocol engine.
pub type ModbusResult<T> = Result<T, ModbusError>;

impl ModbusError {
    /// The exception a responder reports for this error: unknown function codes
    /// are an illegal function, unmapped addresses an illegal data address,
    /// malformed PDUs, bad quantities and reserved values an illegal data value,
    /// an exception stays what it is, and everything else is a device failure.
    pub open spec fn exception(self) -> ModbusException {
        match self {
            ModbusError::InvalidFunction { .. } => ModbusException::IllegalFunction,
            ModbusError::InvalidAddress { .. } => ModbusException::IllegalDataAddress,
            ModbusError::InvalidRequest { .. } => ModbusException::IllegalDataValue,
            ModbusError::InvalidValue { .. } => ModbusException::IllegalDataValue,
            ModbusError::Frame { .. } => ModbusException::IllegalDataValue,
            ModbusError::Exception { exception, .. } => exception,
            _ => ModbusException::SlaveDeviceFailure,
        }
    }

    /// Maps this error to the exception a responder reports for it.
    pub fn to_exception(&self) -> (exception: ModbusException)
        ensures
            exception == self.exception(),
    {
        match self {
            ModbusError::InvalidFunction { .. } => ModbusException::IllegalFunction,
            ModbusError::InvalidAddress { .. } => ModbusException::IllegalDataAddress,
            ModbusError::InvalidRequest { .. } => ModbusException::IllegalDataValue,
            ModbusError::InvalidValue { .. } => ModbusException::IllegalDataValue,
            ModbusError::Frame { .. } => ModbusException::IllegalDataValue,
            ModbusError::Exception { exception, .. } => *exception,
            _ => ModbusException::SlaveDeviceFailure,
        }
    }

    /// Whether the error arose below the protocol: a failed or timed-out stream.
    pub open spec fn transport_failure(self) -> bool {
        self is Connection || self is Timeout
    }

    /// Tells whether the error arose below the protocol. After such an error
    /// the stream is unusable and must be opened again.
    pub fn is_transport_error(&self) -> (b: bool)
        ensures
            b == self.transport_failure(),
    {
        match self {
            ModbusError::Connection => true,
            ModbusError::Timeout { .. } => true,
            _ => false,
        }
    }

    /// Whether the error is a broken frame or checksum.
    pub open spec fn framing_failure(self) -> bool {
        self is Frame || self is CrcMismatch
    }

    /// Tells whether the error is a broken frame or checksum: the byte stream
    /// can no longer be trusted to be in step with the peer.
    pub fn is_framing_error(&self) -> (b: bool)
        ensures
            b == self.framing_failure(),
    {
        match self {
            ModbusError::Frame { .. } => true,
            ModbusError::CrcMismatch { .. } => true,
            _ => false,
        }
    }
}

/// The view of a result whose success value has a view: errors stay as they are.
pub open spec fn result_view<T: View>(r: ModbusResult<T>) -> ModbusResult<T::V> {
    match r {
        Ok(value) => Ok(value@),
        Err(error) => Err(error),
    }
}

} // verus!
