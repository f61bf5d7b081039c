//! Modbus TCP and RTU protocol engine with machine-checked contracts.
//!
//! The crate holds everything of a Modbus client and responder that can be
//! said without a socket: the PDU codec, the MBAP and RTU envelopes with the
//! CRC-16, the data bank, the dispatch of requests into the bank, and the
//! state of a connection on either side. Every function takes and returns
//! plain values; reading and writing streams is left to the caller.
//!
//! | module | holds |
//! |---|---|
//! | [`error`] | the errors and the exception codes |
//! | [`protocol`] | function codes, request and response descriptors |
//! | [`data_utils`] | big-endian words and packed bits |
//! | [`pdu`] | the PDU codec |
//! | [`crc`] | the checksum of RTU frames |
//! | [`framing`] | the MBAP header and the RTU envelope |
//! | [`register_bank`] | the four data spaces |
//! | [`server`] | the responder and the bookkeeping of a TCP server |
//! | [`transport`] | the client side of a connection |
//! | [`client`] | the eight functions on top of a transport |
//! | [`exchange`] | laws of a whole exchange between client and responder |
//!
//! Contracts are stated over mathematical models: a descriptor is viewed as
//! a record with a `Seq` of bytes, the bank as four sequences indexed by
//! address, a frame as a `Seq<u8>`. Each encoder has a `spec` function that
//! says what the bytes are, each decoder one that says what the bytes mean,
//! and proof functions state that the two undo each other.

use vstd::prelude::*;

pub mod client;
pub mod crc;
pub mod data_utils;
pub mod error;
pub mod exchange;
pub mod framing;
pub mod pdu;
pub mod protocol;
pub mod register_bank;
pub mod server;
pub mod transport;

pub use client::{ClientReply, GenericModbusClient, ModbusClient, ModbusRtuClient, ModbusTcpClient};
pub use error::{ModbusError, ModbusException, ModbusResult};
pub use protocol::{ModbusFunction, ModbusRequest, ModbusResponse, SlaveId};
pub use register_bank::{ModbusRegisterBank, RegisterBankStats};
pub use server::{ModbusTcpServer, ModbusTcpServerConfig, ServerStats};
pub use transport::{ModbusTransport, RtuTransport, TcpTransport, TransportStats};

verus! {

/// Largest number of coils or discrete inputs one read request may ask for.
pub const MAX_COILS_PER_REQUEST: u16 = 2000;

/// Largest number of holding or input registers one read request may ask for.
pub const MAX_REGISTERS_PER_REQUEST: u16 = 125;

/// The TCP port that responders listen on by default.
pub const DEFAULT_TCP_PORT: u16 = 502;

/// Request deadline, in milliseconds, of a transport created without one.
pub const DEFAULT_TIMEOUT_MS: u64 = 3000;

/// Number of bytes that `quantity` packed bits occupy.
pub open spec fn packed_len(quantity: int) -> int {
    (quantity + 7) / 8
}

/// Computes the number of bytes that `quantity` packed bits occupy.
pub fn packed_byte_count(quantity: usize) -> (n: usize)
    ensures
        n == packed_len(quantity as int),
{
    quantity / 8 + if quantity % 8 == 0 { 0 } else { 1 }
}

} // verus!
