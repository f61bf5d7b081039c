//! The client side of a connection, without the I/O: which bytes to write
//! for a request, which response the bytes that came back hold, and what the
//! connection is worth afterwards.
//!
//! A transport carries at most one request at a time. The caller writes the
//! bytes that `send_request` returns, reads one frame within the deadline,
//! and hands it to `recv_response`; when the deadline passes or the stream
//! fails it says so with `on_timeout` or `on_io_error`.
//!
//! ```text
//! Disconnected -> Connecting -> Connected <-> Requesting
//!                                   |              |
//!                                   +--> Closing --+--> Closed
//! ```
//!
//! A timeout, a failed stream and a frame that breaks the framing layer
//! leave the transport `Closed`: it must be built again. Responses are
//! matched strictly in order: a TCP response under another transaction
//! identifier than the one in flight is a protocol violation.

use vstd::prelude::*;
use crate::error::{ConfigFault, ModbusError, ModbusResult, Violation, result_view};
use crate::framing::{
    decode_rtu_frame, decode_tcp_frame, encode_rtu_frame, encode_tcp_frame, parse_rtu_frame,
    parse_tcp_frame, rtu_frame, tcp_frame,
};
use crate::pdu::{decode_response, encode_request, lemma_request_roundtrip, parse_response_pdu, request_pdu};
use crate::protocol::{ModbusFunction, ModbusRequest, ModbusResponse, RequestView, ResponseView, SlaveId};

verus! {

/// The tally of a transport. Every counter stops at the largest value it
/// can hold.
#[derive(Debug, Clone, Copy, PartialEq, Eq, Structural)]
pub struct TransportStats {
    pub requests_sent: u64,
    pub responses_received: u64,
    pub errors: u64,
    pub timeouts: u64,
    pub bytes_sent: u64,
    pub bytes_received: u64,
}

/// A counter raised by `by`, stopping at the largest value.
pub open spec fn raised(counter: u64, by: int) -> u64 {
    if counter + by > u64::MAX {
        u64::MAX
    } else {
        (counter + by) as u64
    }
}

/// Raises a counter by `by`, stopping at the largest value.
pub fn raise(counter: u64, by: usize) -> (sum: u64)
    ensures
        sum == raised(counter, by as int),
{
    let by: u64 = by as u64;
    if counter > u64::MAX - by {
        u64::MAX
    } else {
        counter + by
    }
}

impl TransportStats {
    /// The tally of a transport that has done nothing yet.
    pub open spec fn zero() -> TransportStats {
        TransportStats {
            requests_sent: 0,
            responses_received: 0,
            errors: 0,
            timeouts: 0,
            bytes_sent: 0,
            bytes_received: 0,
        }
    }

    /// Creates a tally with every counter at zero.
    pub fn new() -> (stats: TransportStats)
        ensures
            stats == Self::zero(),
    {
        TransportStats {
            requests_sent: 0,
            responses_received: 0,
            errors: 0,
            timeouts: 0,
            bytes_sent: 0,
            bytes_received: 0,
        }
    }
}

/// Where a connection stands.
#[derive(Debug, Clone, Copy, PartialEq, Eq, Structural)]
pub enum ConnectionState {
    /// Nothing was opened yet.
    Disconnected,
    /// The stream is being opened.
    Connecting,
    /// The stream is open and idle.
    Connected,
    /// A request was written and its response is awaited.
    Requesting,
    /// The stream is being closed.
    Closing,
    /// The stream is closed, or failed. The transport is of no further use.
    Closed,
}

/// Which envelope a transport puts around a PDU.
#[derive(Debug, Clone, Copy, PartialEq, Eq, Structural)]
pub enum Framing {
    /// MBAP header; responses are matched by transaction identifier.
    Tcp,
    /// Unit address and checksum; the line carries one exchange at a time.
    Rtu,
}

/// What a transport remembers of the request in flight.
#[derive(Debug, Clone, Copy, PartialEq, Eq, Structural)]
pub struct Pending {
    pub transaction_id: u16,
    pub slave_id: SlaveId,
    pub function: ModbusFunction,
    pub address: u16,
    pub quantity: u16,
}

/// The state of one connection: all of it plain values.
#[derive(Debug, Clone, Copy, PartialEq, Eq, Structural)]
pub struct Link {
    pub framing: Framing,
    pub state: ConnectionState,
    pub next_transaction_id: u16,
    pub timeout_ms: u64,
    pub pending: Option<Pending>,
    pub stats: TransportStats,
}

/// The parts of a frame as the transport needs them: the transaction
/// identifier if the envelope carries one, the unit, and the PDU.
pub open spec fn envelope(framing: Framing, frame: Seq<u8>) -> ModbusResult<
    (Option<u16>, SlaveId, Seq<u8>),
> {
    match framing {
        Framing::Tcp => match parse_tcp_frame(frame) {
            Ok((header, pdu)) => Ok((Some(header.transaction_id), header.unit_id, pdu)),
            Err(error) => Err(error),
        },
        Framing::Rtu => match parse_rtu_frame(frame) {
            Ok((slave_id, pdu)) => Ok((None, slave_id, pdu)),
            Err(error) => Err(error),
        },
    }
}

impl Link {
    /// The link of a transport that was just created.
    pub open spec fn fresh(framing: Framing, timeout_ms: u64) -> Link {
        Link {
            framing,
            state: ConnectionState::Disconnected,
            next_transaction_id: 1,
            timeout_ms,
            pending: None,
            stats: TransportStats::zero(),
        }
    }

    /// Whether the stream is open.
    pub open spec fn connected(self) -> bool {
        self.state == ConnectionState::Connected || self.state == ConnectionState::Requesting
    }

    /// Whether a response is awaited.
    pub open spec fn awaiting(self) -> bool {
        self.state == ConnectionState::Requesting && self.pending is Some
    }

    /// The link with one more error counted.
    pub open spec fn with_error(self) -> Link {
        Link { stats: TransportStats { errors: raised(self.stats.errors, 1), ..self.stats }, ..self }
    }

    /// The link with the exchange in flight over and the stream idle again.
    pub open spec fn settled(self) -> Link {
        Link { state: ConnectionState::Connected, pending: None, ..self }
    }

    /// The link with the stream given up.
    pub open spec fn shut(self) -> Link {
        Link { state: ConnectionState::Closed, pending: None, ..self }
    }

    /// Whether a response is to be awaited for `request`: always, but for a
    /// broadcast on a serial line.
    pub open spec fn expects_response(self, request: RequestView) -> bool {
        !(self.framing == Framing::Rtu && request.slave_id == 0)
    }

    /// The frame that carries `request` over this link.
    pub open spec fn frame_of(self, request: RequestView) -> Seq<u8> {
        match self.framing {
            Framing::Tcp => tcp_frame(
                self.next_transaction_id,
                request.slave_id,
                request_pdu(request),
            ),
            Framing::Rtu => rtu_frame(request.slave_id, request_pdu(request)),
        }
    }

    /// The link after opening the stream was begun, or the refusal: only a
    /// link that is `Disconnected` can be opened.
    pub open spec fn after_begin_connect(self) -> (Link, ModbusResult<()>) {
        if self.state == ConnectionState::Disconnected {
            (Link { state: ConnectionState::Connecting, ..self }, Ok(()))
        } else {
            (self.with_error(), Err(ModbusError::Connection))
        }
    }

    /// The link after the stream was opened, or the refusal: only a link
    /// that is `Connecting` can become `Connected`.
    pub open spec fn after_connected(self) -> (Link, ModbusResult<()>) {
        if self.state == ConnectionState::Connecting {
            (Link { state: ConnectionState::Connected, ..self }, Ok(()))
        } else {
            (self.with_error(), Err(ModbusError::Connection))
        }
    }

    /// The link after a request was handed over, and the frame to write or
    /// the refusal.
    ///
    /// While a response is awaited a second request is a protocol violation;
    /// on a stream that is not open it is a connection error; a request that
    /// is not valid is refused as such. In each of these cases an error is
    /// counted and nothing else changes. Otherwise the request and the bytes
    /// of its frame are counted, a TCP link moves on to the next transaction
    /// identifier, wrapping at 65535, and the link awaits the response,
    /// unless none is to come.
    pub open spec fn after_send(self, request: RequestView) -> (Link, ModbusResult<Seq<u8>>) {
        if self.state == ConnectionState::Requesting {
            (
                self.with_error(),
                Err(ModbusError::Protocol { violation: Violation::RequestInFlight }),
            )
        } else if self.state != ConnectionState::Connected {
            (self.with_error(), Err(ModbusError::Connection))
        } else if !request.valid() {
            (self.with_error(), Err(request.refusal()))
        } else {
            let frame = self.frame_of(request);
            let expects = self.expects_response(request);
            (
                Link {
                    state: if expects {
                        ConnectionState::Requesting
                    } else {
                        ConnectionState::Connected
                    },
                    next_transaction_id: if self.framing == Framing::Tcp {
                        if self.next_transaction_id == 0xFFFF {
                            0u16
                        } else {
                            (self.next_transaction_id + 1) as u16
                        }
                    } else {
                        self.next_transaction_id
                    },
                    pending: if expects {
                        Some(
                            Pending {
                                transaction_id: self.next_transaction_id,
                                slave_id: request.slave_id,
                                function: request.function,
                                address: request.address,
                                quantity: request.quantity,
                            },
                        )
                    } else {
                        None
                    },
                    stats: TransportStats {
                        requests_sent: raised(self.stats.requests_sent, 1),
                        bytes_sent: raised(self.stats.bytes_sent, frame.len() as int),
                        ..self.stats
                    },
                    ..self
                },
                Ok(frame),
            )
        }
    }

    /// The link with the bytes of a frame counted as received.
    pub open spec fn with_received(self, frame: Seq<u8>) -> Link {
        Link {
            stats: TransportStats {
                bytes_received: raised(self.stats.bytes_received, frame.len() as int),
                ..self.stats
            },
            ..self
        }
    }

    /// Whether a frame that was unwrapped answers the request in flight, and
    /// if not, why: another transaction identifier, another unit, a PDU that
    /// describes no response, or another function.
    pub open spec fn correlate(
        pending: Pending,
        transaction_id: Option<u16>,
        unit_id: SlaveId,
        pdu: Seq<u8>,
    ) -> ModbusResult<ResponseView> {
        if transaction_id is Some && transaction_id->0 != pending.transaction_id {
            Err(
                ModbusError::Protocol {
                    violation: Violation::TransactionId {
                        expected_id: pending.transaction_id,
                        actual_id: transaction_id->0,
                    },
                },
            )
        } else if unit_id != pending.slave_id {
            Err(
                ModbusError::Protocol {
                    violation: Violation::SlaveId {
                        expected_slave: pending.slave_id,
                        actual_slave: unit_id,
                    },
                },
            )
        } else {
            match parse_response_pdu(unit_id, pdu) {
                Err(error) => Err(error),
                Ok(response) => if response.function != pending.function {
                    Err(
                        ModbusError::Protocol {
                            violation: Violation::Function {
                                expected_function: pending.function.code(),
                                actual_function: response.function.code(),
                            },
                        },
                    )
                } else {
                    Ok(response)
                },
            }
        }
    }

    /// The link after a frame came back, and the response or the error.
    ///
    /// A frame that comes while no response is awaited is a protocol
    /// violation: an error is counted and nothing else changes. Otherwise
    /// the bytes are counted. A frame that breaks the framing layer closes
    /// the link. A frame that does not answer the request in flight fails
    /// the request and leaves the stream idle. In both cases an error is
    /// counted. A response that answers the request, an exception response
    /// too, is counted and returned, and the stream is idle again.
    pub open spec fn after_recv(self, frame: Seq<u8>) -> (Link, ModbusResult<ResponseView>) {
        if !self.awaiting() {
            (
                self.with_error(),
                Err(ModbusError::Protocol { violation: Violation::NoRequestInFlight }),
            )
        } else {
            let received = self.with_received(frame);
            match envelope(self.framing, frame) {
                Err(error) => (received.with_error().shut(), Err(error)),
                Ok((transaction_id, unit_id, pdu)) => match Self::correlate(
                    self.pending->0,
                    transaction_id,
                    unit_id,
                    pdu,
                ) {
                    Err(error) => (received.with_error().settled(), Err(error)),
                    Ok(response) => (
                        Link {
                            stats: TransportStats {
                                responses_received: raised(received.stats.responses_received, 1),
                                ..received.stats
                            },
                            ..received.settled()
                        },
                        Ok(response),
                    ),
                },
            }
        }
    }

    /// The link after the deadline passed: a timeout is counted and the
    /// stream is given up.
    pub open spec fn after_timeout(self) -> Link {
        Link {
            stats: TransportStats { timeouts: raised(self.stats.timeouts, 1), ..self.stats },
            ..self.shut()
        }
    }

    /// The link after the stream failed: an error is counted and the stream
    /// is given up.
    pub open spec fn after_io_error(self) -> Link {
        self.with_error().shut()
    }

    /// The link after the caller asked to close it: a stream that is open or
    /// being opened is `Closing`, any other link is `Closed`.
    pub open spec fn after_close(self) -> Link {
        if self.connected() || self.state == ConnectionState::Connecting {
            Link { state: ConnectionState::Closing, pending: None, ..self }
        } else {
            self.shut()
        }
    }

    /// Creates the link of a transport that was just created.
    pub fn new(framing: Framing, timeout_ms: u64) -> (link: Link)
        ensures
            link == Self::fresh(framing, timeout_ms),
    {
        Link {
            framing,
            state: ConnectionState::Disconnected,
            next_transaction_id: 1,
            timeout_ms,
            pending: None,
            stats: TransportStats::new(),
        }
    }

    /// Counts one error.
    fn count_error(&mut self)
        ensures
            *final(self) == old(self).with_error(),
    {
        self.stats.errors = raise(self.stats.errors, 1);
    }

    /// Notes that opening the stream has begun.
    pub fn begin_connect(&mut self) -> (begun: ModbusResult<()>)
        ensures
            (*final(self), begun) == old(self).after_begin_connect(),
    {
        match self.state {
            ConnectionState::Disconnected => {
                self.state = ConnectionState::Connecting;
                Ok(())
            },
            _ => {
                self.count_error();
                Err(ModbusError::Connection)
            },
        }
    }

    /// Notes that the stream is open.
    pub fn on_connected(&mut self) -> (noted: ModbusResult<()>)
        ensures
            (*final(self), noted) == old(self).after_connected(),
    {
        match self.state {
            ConnectionState::Connecting => {
                self.state = ConnectionState::Connected;
                Ok(())
            },
            _ => {
                self.count_error();
                Err(ModbusError::Connection)
            },
        }
    }

    /// Takes a request and returns the bytes to write.
    pub fn send_request(&mut self, request: &ModbusRequest) -> (frame: ModbusResult<Vec<u8>>)
        ensures
            (*final(self), result_view(frame)) == old(self).after_send(request@),
    {
        match self.state {
            ConnectionState::Connected => {},
            ConnectionState::Requesting => {
                self.count_error();
                return Err(ModbusError::Protocol { violation: Violation::RequestInFlight });
            },
            _ => {
                self.count_error();
                return Err(ModbusError::Connection);
            },
        }
        if let Err(error) = request.validate() {
            self.count_error();
            return Err(error);
        }
        proof {
            lemma_request_roundtrip(request@);
        }
        let pdu = match encode_request(request) {
            Ok(pdu) => pdu,
            Err(error) => {
                self.count_error();
                return Err(error);
            },
        };
        let transaction_id: u16 = self.next_transaction_id;
        let encoded = match self.framing {
            Framing::Tcp => encode_tcp_frame(transaction_id, request.slave_id, pdu.as_slice()),
            Framing::Rtu => encode_rtu_frame(request.slave_id, pdu.as_slice()),
        };
        let frame = match encoded {
            Ok(frame) => frame,
            Err(error) => {
                self.count_error();
                return Err(error);
            },
        };
        let expects: bool = match self.framing {
            Framing::Tcp => true,
            Framing::Rtu => request.slave_id != 0,
        };
        if let Framing::Tcp = self.framing {
            self.next_transaction_id = if transaction_id == 0xFFFF {
                0
            } else {
                transaction_id + 1
            };
        }
        self.stats.requests_sent = raise(self.stats.requests_sent, 1);
        self.stats.bytes_sent = raise(self.stats.bytes_sent, frame.len());
        if expects {
            self.state = ConnectionState::Requesting;
            self.pending = Some(
                Pending {
                    transaction_id,
                    slave_id: request.slave_id,
                    function: request.function,
                    address: request.address,
                    quantity: request.quantity,
                },
            );
        } else {
            self.pending = None;
        }
        Ok(frame)
    }

    /// Checks an unwrapped frame against the request in flight.
    fn check_response(
        pending: &Pending,
        transaction_id: Option<u16>,
        unit_id: SlaveId,
        pdu: &[u8],
    ) -> (response: ModbusResult<ModbusResponse>)
        ensures
            result_view(response) == Self::correlate(*pending, transaction_id, unit_id, pdu@),
    {
        if let Some(actual) = transaction_id {
            if actual != pending.transaction_id {
                return Err(
                    ModbusError::Protocol {
                        violation: Violation::TransactionId {
                            expected_id: pending.transaction_id,
                            actual_id: actual,
                        },
                    },
                );
            }
        }
        if unit_id != pending.slave_id {
            return Err(
                ModbusError::Protocol {
                    violation: Violation::SlaveId {
                        expected_slave: pending.slave_id,
                        actual_slave: unit_id,
                    },
                },
            );
        }
        let response = match decode_response(unit_id, pdu) {
            Ok(response) => response,
            Err(error) => {
                return Err(error);
            },
        };
        if response.function.to_u8() != pending.function.to_u8() {
            proof {
                response.function.lemma_code_roundtrip();
                pending.function.lemma_code_roundtrip();
            }
            return Err(
                ModbusError::Protocol {
                    violation: Violation::Function {
                        expected_function: pending.function.to_u8(),
                        actual_function: response.function.to_u8(),
                    },
                },
            );
        }
        proof {
            response.function.lemma_code_roundtrip();
            pending.function.lemma_code_roundtrip();
        }
        Ok(response)
    }

    /// Takes the frame that came back and returns the response it holds.
    pub fn recv_response(&mut self, frame: &[u8]) -> (response: ModbusResult<ModbusResponse>)
        ensures
            (*final(self), result_view(response)) == old(self).after_recv(frame@),
    {
        let pending = match (self.state, self.pending) {
            (ConnectionState::Requesting, Some(pending)) => pending,
            _ => {
                self.count_error();
                return Err(ModbusError::Protocol { violation: Violation::NoRequestInFlight });
            },
        };
        self.stats.bytes_received = raise(self.stats.bytes_received, frame.len());
        let unwrapped = match self.framing {
            Framing::Tcp => match decode_tcp_frame(frame) {
                Ok((header, pdu)) => Ok((Some(header.transaction_id), header.unit_id, pdu)),
                Err(error) => Err(error),
            },
            Framing::Rtu => match decode_rtu_frame(frame) {
                Ok((slave_id, pdu)) => Ok((None, slave_id, pdu)),
                Err(error) => Err(error),
            },
        };
        let (transaction_id, unit_id, pdu) = match unwrapped {
            Ok(parts) => parts,
            Err(error) => {
                self.count_error();
                self.state = ConnectionState::Closed;
                self.pending = None;
                return Err(error);
            },
        };
        self.state = ConnectionState::Connected;
        self.pending = None;
        match Self::check_response(&pending, transaction_id, unit_id, pdu.as_slice()) {
            Ok(response) => {
                self.stats.responses_received = raise(self.stats.responses_received, 1);
                Ok(response)
            },
            Err(error) => {
                self.count_error();
                Err(error)
            },
        }
    }

    /// Notes that the deadline passed, and returns the error to report.
    pub fn on_timeout(&mut self) -> (error: ModbusError)
        ensures
            *final(self) == old(self).after_timeout(),
            error == (ModbusError::Timeout { timeout_ms: old(self).timeout_ms }),
    {
        self.stats.timeouts = raise(self.stats.timeouts, 1);
        self.state = ConnectionState::Closed;
        self.pending = None;
        ModbusError::Timeout { timeout_ms: self.timeout_ms }
    }

    /// Notes that the stream failed, and returns the error to report.
    pub fn on_io_error(&mut self) -> (error: ModbusError)
        ensures
            *final(self) == old(self).after_io_error(),
            error == ModbusError::Connection,
    {
        self.count_error();
        self.state = ConnectionState::Closed;
        self.pending = None;
        ModbusError::Connection
    }

    /// Notes that the caller wants the stream closed.
    pub fn close(&mut self)
        ensures
            *final(self) == old(self).after_close(),
    {
        match self.state {
            ConnectionState::Connected | ConnectionState::Requesting | ConnectionState::Connecting => {
                self.state = ConnectionState::Closing;
            },
            _ => {
                self.state = ConnectionState::Closed;
            },
        }
        self.pending = None;
    }

    /// Notes that the stream is closed.
    pub fn on_closed(&mut self)
        ensures
            *final(self) == old(self).shut(),
    {
        self.state = ConnectionState::Closed;
        self.pending = None;
    }

    /// Tells whether the stream is open.
    pub fn is_connected(&self) -> (b: bool)
        ensures
            b == self.connected(),
    {
        match self.state {
            ConnectionState::Connected => true,
            ConnectionState::Requesting => true,
            _ => false,
        }
    }

    /// Tells whether a response is awaited.
    pub fn awaiting_response(&self) -> (b: bool)
        ensures
            b == self.awaiting(),
    {
        match (self.state, self.pending) {
            (ConnectionState::Requesting, Some(_)) => true,
            _ => false,
        }
    }
}

/// What every transport can do: take a request, take the frame that came
/// back, tell whether the stream is open, close, and report its tally.
pub trait ModbusTransport {
    /// The state of the connection.
    spec fn link(&self) -> Link;

    /// Takes a request and returns the bytes to write.
    fn send_request(&mut self, request: &ModbusRequest) -> (frame: ModbusResult<Vec<u8>>)
        ensures
            (final(self).link(), result_view(frame)) == old(self).link().after_send(request@),
    ;

    /// Takes the frame that came back and returns the response it holds.
    fn recv_response(&mut self, frame: &[u8]) -> (response: ModbusResult<ModbusResponse>)
        ensures
            (final(self).link(), result_view(response)) == old(self).link().after_recv(frame@),
    ;

    /// Returns what is remembered of the request in flight.
    fn in_flight(&self) -> (pending: Option<Pending>)
        ensures
            pending == self.link().pending,
    ;

    /// Tells whether the stream is open.
    fn is_connected(&self) -> (b: bool)
        ensures
            b == self.link().connected(),
    ;

    /// Notes that the caller wants the stream closed.
    fn close(&mut self)
        ensures
            final(self).link() == old(self).link().after_close(),
    ;

    /// Returns the tally.
    fn get_stats(&self) -> (stats: TransportStats)
        ensures
            stats == self.link().stats,
    ;
}

/// The transport over a TCP stream.
#[derive(Debug, Clone, PartialEq, Eq)]
pub struct TcpTransport {
    pub link: Link,
}

impl TcpTransport {
    /// Creates a transport for a stream that is yet to be opened. A deadline
    /// of zero is refused with `Configuration`, naming `Timeout`.
    pub fn new(timeout_ms: u64) -> (transport: ModbusResult<TcpTransport>)
        ensures
            transport == if timeout_ms == 0 {
                Err::<TcpTransport, ModbusError>(
                    ModbusError::Configuration { setting: ConfigFault::Timeout },
                )
            } else {
                Ok(TcpTransport { link: Link::fresh(Framing::Tcp, timeout_ms) })
            },
    {
        if timeout_ms == 0 {
            return Err(ModbusError::Configuration { setting: ConfigFault::Timeout });
        }
        Ok(TcpTransport { link: Link::new(Framing::Tcp, timeout_ms) })
    }

    /// Creates a transport for a stream that is already open.
    pub fn connected(timeout_ms: u64) -> (transport: ModbusResult<TcpTransport>)
        ensures
            transport == if timeout_ms == 0 {
                Err::<TcpTransport, ModbusError>(
                    ModbusError::Configuration { setting: ConfigFault::Timeout },
                )
            } else {
                Ok(
                    TcpTransport {
                        link: Link {
                            state: ConnectionState::Connected,
                            ..Link::fresh(Framing::Tcp, timeout_ms)
                        },
                    },
                )
            },
    {
        if timeout_ms == 0 {
            return Err(ModbusError::Configuration { setting: ConfigFault::Timeout });
        }
        let mut link = Link::new(Framing::Tcp, timeout_ms);
        link.state = ConnectionState::Connected;
        Ok(TcpTransport { link })
    }

    /// Returns the request deadline in milliseconds.
    pub fn timeout_ms(&self) -> (ms: u64)
        ensures
            ms == self.link.timeout_ms,
    {
        self.link.timeout_ms
    }
}

impl ModbusTransport for TcpTransport {
    open spec fn link(&self) -> Link {
        self.link
    }

    fn send_request(&mut self, request: &ModbusRequest) -> (frame: ModbusResult<Vec<u8>>) {
        self.link.send_request(request)
    }

    fn recv_response(&mut self, frame: &[u8]) -> (response: ModbusResult<ModbusResponse>) {
        self.link.recv_response(frame)
    }

    fn in_flight(&self) -> (pending: Option<Pending>) {
        self.link.pending
    }

    fn is_connected(&self) -> (b: bool) {
        self.link.is_connected()
    }

    fn close(&mut self) {
        self.link.close()
    }

    fn get_stats(&self) -> (stats: TransportStats) {
        self.link.stats
    }
}

/// Number of data bits of a character on the serial line.
#[derive(Debug, Clone, Copy, PartialEq, Eq, Structural)]
pub enum DataBits {
    Five,
    Six,
    Seven,
    Eight,
}

/// Number of stop bits of a character on the serial line.
#[derive(Debug, Clone, Copy, PartialEq, Eq, Structural)]
pub enum StopBits {
    One,
    Two,
}

/// Parity bit of a character on the serial line.
#[derive(Debug, Clone, Copy, PartialEq, Eq, Structural)]
pub enum Parity {
    NoParity,
    Odd,
    Even,
}

/// How the serial line is driven.
#[derive(Debug, Clone, Copy, PartialEq, Eq, Structural)]
pub struct SerialSettings {
    pub baud_rate: u32,
    pub data_bits: DataBits,
    pub stop_bits: StopBits,
    pub parity: Parity,
}

/// The baud rate of a transport created without one.
pub const DEFAULT_BAUD_RATE: u32 = 9600;

impl SerialSettings {
    /// Number of bits that one character occupies on the line: the start
    /// bit, the data bits, the parity bit if there is one, and the stop bits.
    pub open spec fn char_bits(self) -> int {
        1 + (match self.data_bits {
            DataBits::Five => 5int,
            DataBits::Six => 6int,
            DataBits::Seven => 7int,
            DataBits::Eight => 8int,
        }) + (match self.parity {
            Parity::NoParity => 0int,
            _ => 1int,
        }) + (match self.stop_bits {
            StopBits::One => 1int,
            StopBits::Two => 2int,
        })
    }

    /// The silent interval that ends a frame, in microseconds: three and a
    /// half character times, rounded down.
    pub open spec fn silent_interval_micros(self) -> int
        recommends
            self.baud_rate > 0,
    {
        (self.char_bits() * 3_500_000) / (self.baud_rate as int)
    }

    /// The settings with 8 data bits, 1 stop bit and no parity.
    pub fn with_baud_rate(baud_rate: u32) -> (settings: SerialSettings)
        ensures
            settings == (SerialSettings {
                baud_rate,
                data_bits: DataBits::Eight,
                stop_bits: StopBits::One,
                parity: Parity::NoParity,
            }),
    {
        SerialSettings {
            baud_rate,
            data_bits: DataBits::Eight,
            stop_bits: StopBits::One,
            parity: Parity::NoParity,
        }
    }

    /// Returns the number of bits that one character occupies on the line.
    pub fn bits_per_char(&self) -> (bits: u64)
        ensures
            bits == self.char_bits(),
            7 <= bits <= 12,
    {
        let data: u64 = match self.data_bits {
            DataBits::Five => 5,
            DataBits::Six => 6,
            DataBits::Seven => 7,
            DataBits::Eight => 8,
        };
        let parity: u64 = match self.parity {
            Parity::NoParity => 0,
            _ => 1,
        };
        let stop: u64 = match self.stop_bits {
            StopBits::One => 1,
            StopBits::Two => 2,
        };
        1 + data + parity + stop
    }

    /// Returns the silent interval that ends a frame, in microseconds, or
    /// `None` for a baud rate of zero.
    pub fn frame_gap_micros(&self) -> (gap: Option<u64>)
        ensures
            gap == if self.baud_rate == 0 {
                None::<u64>
            } else {
                Some(self.silent_interval_micros() as u64)
            },
            self.baud_rate > 0 ==> 0 <= self.silent_interval_micros() <= 42_000_000,
    {
        if self.baud_rate == 0 {
            return None;
        }
        let bits: u64 = self.bits_per_char();
        let baud: u64 = self.baud_rate as u64;
        assert(0 <= (bits as int * 3_500_000) / (baud as int) <= bits as int * 3_500_000) by (nonlinear_arith)
            requires
                baud >= 1,
                bits >= 0,
        ;
        Some((bits * 3_500_000) / baud)
    }
}

/// The transport over a serial line.
#[derive(Debug, Clone, PartialEq, Eq)]
pub struct RtuTransport {
    pub link: Link,
    pub port: String,
    pub settings: SerialSettings,
}

impl RtuTransport {
    /// The fault of a configuration, if it has one: an empty device name, a
    /// baud rate of zero, a deadline of zero, in this order.
    pub open spec fn config_fault(port: Seq<char>, baud_rate: u32, timeout_ms: u64) -> Option<
        ConfigFault,
    > {
        if port.len() == 0 {
            Some(ConfigFault::SerialDevice)
        } else if baud_rate == 0 {
            Some(ConfigFault::BaudRate)
        } else if timeout_ms == 0 {
            Some(ConfigFault::Timeout)
        } else {
            None
        }
    }

    /// Creates a transport for the serial device `port` with 8 data bits, 1
    /// stop bit, no parity and the default deadline. The line counts as
    /// open: the caller opens the device before it writes.
    pub fn new(port: &str, baud_rate: u32) -> (transport: ModbusResult<RtuTransport>)
        ensures
            match transport {
                Ok(t) => Self::config_fault(port@, baud_rate, 3000) is None && t.port@ == port@
                    && t.settings == (SerialSettings {
                    baud_rate,
                    data_bits: DataBits::Eight,
                    stop_bits: StopBits::One,
                    parity: Parity::NoParity,
                }) && t.link == (Link {
                    state: ConnectionState::Connected,
                    ..Link::fresh(Framing::Rtu, 3000)
                }),
                Err(error) => Self::config_fault(port@, baud_rate, 3000) matches Some(setting)
                    && error == (ModbusError::Configuration { setting }),
            },
    {
        Self::new_with_config(
            port,
            SerialSettings::with_baud_rate(baud_rate),
            crate::DEFAULT_TIMEOUT_MS,
        )
    }

    /// Creates a transport for the serial device `port` with the given
    /// settings and deadline. An empty device name, a baud rate of zero and a
    /// deadline of zero are refused with `Configuration`.
    pub fn new_with_config(port: &str, settings: SerialSettings, timeout_ms: u64) -> (transport:
        ModbusResult<RtuTransport>)
        ensures
            match transport {
                Ok(t) => Self::config_fault(port@, settings.baud_rate, timeout_ms) is None
                    && t.port@ == port@ && t.settings == settings && t.link == (Link {
                    state: ConnectionState::Connected,
                    ..Link::fresh(Framing::Rtu, timeout_ms)
                }),
                Err(error) => Self::config_fault(port@, settings.baud_rate, timeout_ms) matches Some(
                    setting,
                ) && error == (ModbusError::Configuration { setting }),
            },
    {
        if port.is_empty() {
            return Err(ModbusError::Configuration { setting: ConfigFault::SerialDevice });
        }
        if settings.baud_rate == 0 {
            return Err(ModbusError::Configuration { setting: ConfigFault::BaudRate });
        }
        if timeout_ms == 0 {
            return Err(ModbusError::Configuration { setting: ConfigFault::Timeout });
        }
        let mut link = Link::new(Framing::Rtu, timeout_ms);
        link.state = ConnectionState::Connected;
        Ok(RtuTransport { link, port: port.to_owned(), settings })
    }
}

impl ModbusTransport for RtuTransport {
    open spec fn link(&self) -> Link {
        self.link
    }

    fn send_request(&mut self, request: &ModbusRequest) -> (frame: ModbusResult<Vec<u8>>) {
        self.link.send_request(request)
    }

    fn recv_response(&mut self, frame: &[u8]) -> (response: ModbusResult<ModbusResponse>) {
        self.link.recv_response(frame)
    }

    fn in_flight(&self) -> (pending: Option<Pending>) {
        self.link.pending
    }

    fn is_connected(&self) -> (b: bool) {
        self.link.is_connected()
    }

    fn close(&mut self) {
        self.link.close()
    }

    fn get_stats(&self) -> (stats: TransportStats) {
        self.link.stats
    }
}

/// Responses are matched strictly in order: a TCP frame under another
/// transaction identifier than the one in flight is refused as a protocol
/// violation that names both identifiers, whatever it carries, and the
/// request in flight has failed.
pub proof fn lemma_strict_transaction_matching(link: Link, transaction_id: u16, unit_id: SlaveId, pdu: Seq<u8>)
    requires
        link.framing == Framing::Tcp,
        link.awaiting(),
        1 <= pdu.len() <= 252,
        transaction_id != link.pending->0.transaction_id,
    ensures
        link.after_recv(tcp_frame(transaction_id, unit_id, pdu)).1 == Err::<ResponseView, ModbusError>(
            ModbusError::Protocol {
                violation: Violation::TransactionId {
                    expected_id: link.pending->0.transaction_id,
                    actual_id: transaction_id,
                },
            },
        ),
        !link.after_recv(tcp_frame(transaction_id, unit_id, pdu)).0.awaiting(),
{
    crate::framing::lemma_tcp_frame_roundtrip(transaction_id, unit_id, pdu);
}

/// Two requests in a row get different transaction identifiers, and each
/// is the one that the frame of its request carries.
pub proof fn lemma_transaction_ids_advance(link: Link, request: RequestView)
    requires
        link.framing == Framing::Tcp,
        link.after_send(request).1 is Ok,
    ensures
        link.after_send(request).0.next_transaction_id != link.next_transaction_id,
        link.after_send(request).0.pending == Some(
            Pending {
                transaction_id: link.next_transaction_id,
                slave_id: request.slave_id,
                function: request.function,
                address: request.address,
                quantity: request.quantity,
            },
        ),
{
}

} // verus!
