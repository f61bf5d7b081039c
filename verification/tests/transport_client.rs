use voltage_modbus::client::utils::{
    batch_write_registers, batch_write_request, mixed_read_request, read_mixed_registers,
};
use voltage_modbus::client::{
    interpret_response, ClientReply, GenericModbusClient, ModbusClient, ModbusTcpClient,
};
use voltage_modbus::error::{ConfigFault, FrameFault, ModbusError, ModbusException, Violation};
use voltage_modbus::framing::{encode_rtu_frame, encode_tcp_frame};
use voltage_modbus::protocol::{ModbusFunction, ModbusRequest, ModbusResponse};
use voltage_modbus::register_bank::ModbusRegisterBank;
use voltage_modbus::server::{process_rtu_frame, process_tcp_frame, ModbusTcpServer, ConnectionAction};
use voltage_modbus::transport::{
    raise, ConnectionState, DataBits, Framing, Link, ModbusTransport, Parity, Pending,
    RtuTransport, SerialSettings, StopBits, TcpTransport, TransportStats,
};

fn tcp_client() -> ModbusTcpClient {
    ModbusTcpClient::from_transport(TcpTransport::connected(3000).unwrap())
}

fn exchange(client: &mut ModbusTcpClient, bank: &mut ModbusRegisterBank, frame: Vec<u8>) -> Result<ClientReply, ModbusError> {
    let reply = process_tcp_frame(bank, &frame).unwrap();
    client.receive(&reply)
}

#[test]
fn counters_stop_at_the_largest_value() {
    assert_eq!(raise(0, 1), 1);
    assert_eq!(raise(10, 32), 42);
    assert_eq!(raise(u64::MAX, 1), u64::MAX);
    assert_eq!(raise(u64::MAX - 1, 5), u64::MAX);
    assert_eq!(raise(u64::MAX - 5, 5), u64::MAX);
}

#[test]
fn transport_walks_through_its_states() {
    let mut transport = TcpTransport::new(500).unwrap();
    assert_eq!(transport.link, Link {
        framing: Framing::Tcp,
        state: ConnectionState::Disconnected,
        next_transaction_id: 1,
        timeout_ms: 500,
        pending: None,
        stats: TransportStats::new(),
    });
    assert_eq!(transport.timeout_ms(), 500);
    assert!(!transport.is_connected());
    assert_eq!(transport.link.on_connected(), Err(ModbusError::Connection));
    assert_eq!(transport.link.begin_connect(), Ok(()));
    assert_eq!(transport.link.state, ConnectionState::Connecting);
    assert_eq!(transport.link.begin_connect(), Err(ModbusError::Connection));
    assert_eq!(transport.link.on_connected(), Ok(()));
    assert_eq!(transport.link.state, ConnectionState::Connected);
    assert!(transport.is_connected());
    let request = ModbusRequest::new_read(1, ModbusFunction::ReadCoils, 0, 1);
    transport.send_request(&request).unwrap();
    assert_eq!(transport.link.state, ConnectionState::Requesting);
    assert!(transport.is_connected());
    assert!(transport.link.awaiting_response());
    transport.close();
    assert_eq!(transport.link.state, ConnectionState::Closing);
    assert!(!transport.is_connected());
    assert!(!transport.link.awaiting_response());
    transport.link.on_closed();
    assert_eq!(transport.link.state, ConnectionState::Closed);
    transport.close();
    assert_eq!(transport.link.state, ConnectionState::Closed);
    assert_eq!(transport.get_stats().errors, 2);
}

#[test]
fn deadline_of_zero_is_refused() {
    let refused = ModbusError::Configuration { setting: ConfigFault::Timeout };
    assert_eq!(TcpTransport::new(0), Err(refused));
    assert_eq!(TcpTransport::connected(0), Err(refused));
    assert_eq!(ModbusTcpClient::with_timeout(0).err(), Some(refused));
    assert_eq!(ModbusTcpClient::with_timeout(100).ok().unwrap().transport().link.timeout_ms, 100);
    assert_eq!(ModbusTcpClient::new().transport().link.timeout_ms, 3000);
    assert!(!ModbusTcpClient::new().is_connected());
}

#[test]
fn tcp_request_frame_and_transaction_ids() {
    let mut transport = TcpTransport::connected(3000).unwrap();
    let request = ModbusRequest::new_read(1, ModbusFunction::ReadHoldingRegisters, 0, 3);
    let frame = transport.send_request(&request).unwrap();
    assert_eq!(frame, vec![0, 1, 0, 0, 0, 6, 1, 0x03, 0, 0, 0, 3]);
    assert_eq!(
        transport.in_flight(),
        Some(Pending {
            transaction_id: 1,
            slave_id: 1,
            function: ModbusFunction::ReadHoldingRegisters,
            address: 0,
            quantity: 3,
        })
    );
    assert_eq!(transport.get_stats().requests_sent, 1);
    assert_eq!(transport.get_stats().bytes_sent, 12);
    let reply = encode_tcp_frame(1, 1, &[0x03, 6, 0, 1, 0, 2, 0, 3]).unwrap();
    let response = transport.recv_response(&reply).unwrap();
    assert_eq!(response.parse_registers(), Ok(vec![1, 2, 3]));
    assert_eq!(transport.in_flight(), None);
    assert_eq!(transport.link.state, ConnectionState::Connected);
    assert_eq!(transport.get_stats().responses_received, 1);
    assert_eq!(transport.get_stats().bytes_received, 15);
    let second = transport.send_request(&request).unwrap();
    assert_eq!(&second[..2], &[0, 2]);
}

#[test]
fn transaction_id_wraps_around() {
    let mut transport = TcpTransport::connected(3000).unwrap();
    transport.link.next_transaction_id = 0xFFFF;
    let request = ModbusRequest::new_read(1, ModbusFunction::ReadCoils, 0, 1);
    let frame = transport.send_request(&request).unwrap();
    assert_eq!(&frame[..2], &[0xFF, 0xFF]);
    assert_eq!(transport.link.next_transaction_id, 0);
}

#[test]
fn only_one_request_is_in_flight() {
    let mut transport = TcpTransport::connected(3000).unwrap();
    let request = ModbusRequest::new_read(1, ModbusFunction::ReadCoils, 0, 1);
    transport.send_request(&request).unwrap();
    let before = transport.link;
    assert_eq!(
        transport.send_request(&request),
        Err(ModbusError::Protocol { violation: Violation::RequestInFlight })
    );
    assert_eq!(transport.link.pending, before.pending);
    assert_eq!(transport.link.next_transaction_id, before.next_transaction_id);
    assert_eq!(transport.get_stats().errors, 1);
    assert_eq!(transport.get_stats().requests_sent, 1);
}

#[test]
fn nothing_is_sent_on_a_stream_that_is_not_open() {
    let mut transport = TcpTransport::new(3000).unwrap();
    let request = ModbusRequest::new_read(1, ModbusFunction::ReadCoils, 0, 1);
    assert_eq!(transport.send_request(&request), Err(ModbusError::Connection));
    assert_eq!(transport.get_stats().errors, 1);
    assert_eq!(
        transport.recv_response(&[0; 9]),
        Err(ModbusError::Protocol { violation: Violation::NoRequestInFlight })
    );
    assert_eq!(transport.get_stats().errors, 2);
    assert_eq!(transport.get_stats().bytes_received, 0);
}

#[test]
fn invalid_requests_do_not_reach_the_wire() {
    let mut transport = TcpTransport::connected(3000).unwrap();
    let request = ModbusRequest::new_read(250, ModbusFunction::ReadCoils, 4, 1);
    assert_eq!(
        transport.send_request(&request),
        Err(ModbusError::InvalidRequest { address: 4, quantity: 1 })
    );
    let request = ModbusRequest::new_read(1, ModbusFunction::ReadCoils, 4, 0);
    assert_eq!(
        transport.send_request(&request),
        Err(ModbusError::InvalidRequest { address: 4, quantity: 0 })
    );
    assert_eq!(transport.link.state, ConnectionState::Connected);
    assert_eq!(transport.get_stats().requests_sent, 0);
    assert_eq!(transport.get_stats().errors, 2);
}

#[test]
fn response_under_another_transaction_id_is_a_protocol_violation() {
    let mut first = TcpTransport::connected(3000).unwrap();
    let mut second = TcpTransport::connected(3000).unwrap();
    second.link.next_transaction_id = 2;
    let mut bank = ModbusRegisterBank::new();
    bank.write_multiple_registers(0, &[11, 22]).unwrap();
    let request_one = ModbusRequest::new_read(1, ModbusFunction::ReadHoldingRegisters, 0, 1);
    let request_two = ModbusRequest::new_read(1, ModbusFunction::ReadHoldingRegisters, 1, 1);
    let frame_one = first.send_request(&request_one).unwrap();
    let frame_two = second.send_request(&request_two).unwrap();
    let reply_one = process_tcp_frame(&mut bank, &frame_one).unwrap();
    let reply_two = process_tcp_frame(&mut bank, &frame_two).unwrap();
    assert_eq!(
        first.recv_response(&reply_two),
        Err(ModbusError::Protocol {
            violation: Violation::TransactionId { expected_id: 1, actual_id: 2 }
        })
    );
    assert_eq!(first.link.state, ConnectionState::Connected);
    assert_eq!(first.in_flight(), None);
    assert_eq!(first.get_stats().errors, 1);
    assert_eq!(second.recv_response(&reply_two).unwrap().parse_registers(), Ok(vec![22]));
    assert_eq!(
        first.recv_response(&reply_one),
        Err(ModbusError::Protocol { violation: Violation::NoRequestInFlight })
    );
}

#[test]
fn response_must_answer_the_unit_and_function_asked() {
    let request = ModbusRequest::new_read(1, ModbusFunction::ReadHoldingRegisters, 0, 1);
    let mut transport = TcpTransport::connected(3000).unwrap();
    transport.send_request(&request).unwrap();
    let other_unit = encode_tcp_frame(1, 2, &[0x03, 2, 0, 1]).unwrap();
    assert_eq!(
        transport.recv_response(&other_unit),
        Err(ModbusError::Protocol {
            violation: Violation::SlaveId { expected_slave: 1, actual_slave: 2 }
        })
    );
    let mut transport = TcpTransport::connected(3000).unwrap();
    transport.send_request(&request).unwrap();
    let other_function = encode_tcp_frame(1, 1, &[0x04, 2, 0, 1]).unwrap();
    assert_eq!(
        transport.recv_response(&other_function),
        Err(ModbusError::Protocol {
            violation: Violation::Function { expected_function: 3, actual_function: 4 }
        })
    );
    let mut transport = TcpTransport::connected(3000).unwrap();
    transport.send_request(&request).unwrap();
    let malformed = encode_tcp_frame(1, 1, &[0x03, 3, 0, 1, 2]).unwrap();
    assert_eq!(
        transport.recv_response(&malformed),
        Err(ModbusError::Frame { fault: FrameFault::OddByteCount })
    );
    assert_eq!(transport.link.state, ConnectionState::Connected);
}

#[test]
fn broken_framing_closes_the_transport() {
    let request = ModbusRequest::new_read(1, ModbusFunction::ReadHoldingRegisters, 0, 1);
    let mut transport = TcpTransport::connected(3000).unwrap();
    transport.send_request(&request).unwrap();
    assert_eq!(
        transport.recv_response(&[0, 1, 0, 9, 0, 3, 1, 0x83, 2]),
        Err(ModbusError::Frame { fault: FrameFault::ProtocolId })
    );
    assert_eq!(transport.link.state, ConnectionState::Closed);
    assert!(!transport.is_connected());
    assert_eq!(transport.get_stats().errors, 1);
    assert_eq!(transport.get_stats().bytes_received, 9);
    assert_eq!(transport.send_request(&request), Err(ModbusError::Connection));
}

#[test]
fn timeout_closes_the_transport_and_is_counted() {
    let mut client = ModbusTcpClient::from_transport(TcpTransport::connected(100).unwrap());
    client.read_holding_registers(1, 0, 1).unwrap();
    assert!(client.is_connected());
    let error = client.transport_mut().link.on_timeout();
    assert_eq!(error, ModbusError::Timeout { timeout_ms: 100 });
    assert!(!client.is_connected());
    assert_eq!(client.get_stats().timeouts, 1);
    assert_eq!(client.get_stats().errors, 0);
    assert_eq!(client.get_stats().responses_received, 0);
    assert_eq!(client.read_holding_registers(1, 0, 1), Err(ModbusError::Connection));
}

#[test]
fn failed_stream_closes_the_transport() {
    let mut transport = TcpTransport::connected(100).unwrap();
    assert_eq!(transport.link.on_io_error(), ModbusError::Connection);
    assert_eq!(transport.link.state, ConnectionState::Closed);
    assert_eq!(transport.get_stats().errors, 1);
}

#[test]
fn rtu_request_frame_and_response() {
    let mut transport = RtuTransport::new("/dev/ttyUSB0", 9600).unwrap();
    assert!(transport.is_connected());
    let request = ModbusRequest::new_read(1, ModbusFunction::ReadHoldingRegisters, 0, 1);
    let frame = transport.send_request(&request).unwrap();
    assert_eq!(frame, vec![0x01, 0x03, 0x00, 0x00, 0x00, 0x01, 0x84, 0x0A]);
    assert_eq!(transport.link.next_transaction_id, 1);
    let mut bank = ModbusRegisterBank::new();
    bank.write_single_register(0, 0xBEEF).unwrap();
    let reply = process_rtu_frame(&mut bank, 1, &frame).unwrap().unwrap();
    assert_eq!(transport.recv_response(&reply).unwrap().parse_registers(), Ok(vec![0xBEEF]));
    assert_eq!(transport.link.state, ConnectionState::Connected);
}

#[test]
fn rtu_response_from_another_unit_is_a_protocol_violation() {
    let mut transport = RtuTransport::new("COM1", 9600).unwrap();
    let request = ModbusRequest::new_read(1, ModbusFunction::ReadHoldingRegisters, 0, 1);
    transport.send_request(&request).unwrap();
    let reply = encode_rtu_frame(2, &[0x03, 2, 0, 1]).unwrap();
    assert_eq!(
        transport.recv_response(&reply),
        Err(ModbusError::Protocol {
            violation: Violation::SlaveId { expected_slave: 1, actual_slave: 2 }
        })
    );
}

#[test]
fn rtu_checksum_error_closes_the_transport() {
    let mut transport = RtuTransport::new("COM1", 9600).unwrap();
    let request = ModbusRequest::new_read(1, ModbusFunction::ReadHoldingRegisters, 0, 1);
    transport.send_request(&request).unwrap();
    let mut reply = encode_rtu_frame(1, &[0x03, 2, 0, 1]).unwrap();
    reply[3] ^= 1;
    assert!(matches!(transport.recv_response(&reply), Err(ModbusError::CrcMismatch { .. })));
    assert_eq!(transport.link.state, ConnectionState::Closed);
}

#[test]
fn rtu_broadcast_does_not_wait_for_a_response() {
    let mut transport = RtuTransport::new("COM1", 9600).unwrap();
    let request = ModbusRequest::write_single_register(0, 5, 0x0505);
    let frame = transport.send_request(&request).unwrap();
    assert_eq!(transport.link.state, ConnectionState::Connected);
    assert!(!transport.link.awaiting_response());
    assert_eq!(transport.in_flight(), None);
    assert_eq!(transport.get_stats().requests_sent, 1);
    let mut bank = ModbusRegisterBank::new();
    assert_eq!(process_rtu_frame(&mut bank, 9, &frame), Ok(None));
    assert_eq!(bank.read_holding_registers(5, 1), Ok(vec![0x0505]));
    let read = ModbusRequest::new_read(0, ModbusFunction::ReadCoils, 0, 1);
    assert_eq!(
        transport.send_request(&read),
        Err(ModbusError::InvalidRequest { address: 0, quantity: 1 })
    );
}

#[test]
fn serial_settings_and_silent_interval() {
    let settings = SerialSettings::with_baud_rate(9600);
    assert_eq!(settings.data_bits, DataBits::Eight);
    assert_eq!(settings.stop_bits, StopBits::One);
    assert_eq!(settings.parity, Parity::NoParity);
    assert_eq!(settings.bits_per_char(), 10);
    assert_eq!(settings.frame_gap_micros(), Some(3645));
    let full = SerialSettings {
        baud_rate: 19200,
        data_bits: DataBits::Eight,
        stop_bits: StopBits::One,
        parity: Parity::Even,
    };
    assert_eq!(full.bits_per_char(), 11);
    assert_eq!(full.frame_gap_micros(), Some(2005));
    let small = SerialSettings {
        baud_rate: 1,
        data_bits: DataBits::Five,
        stop_bits: StopBits::Two,
        parity: Parity::Odd,
    };
    assert_eq!(small.bits_per_char(), 9);
    assert_eq!(small.frame_gap_micros(), Some(31_500_000));
    assert_eq!(SerialSettings::with_baud_rate(0).frame_gap_micros(), None);
    let six = SerialSettings { data_bits: DataBits::Six, ..settings };
    assert_eq!(six.bits_per_char(), 8);
    let seven = SerialSettings { data_bits: DataBits::Seven, ..settings };
    assert_eq!(seven.bits_per_char(), 9);
}

#[test]
fn rtu_transport_configuration_is_checked() {
    assert_eq!(
        RtuTransport::new("", 9600),
        Err(ModbusError::Configuration { setting: ConfigFault::SerialDevice })
    );
    assert_eq!(
        RtuTransport::new("", 0),
        Err(ModbusError::Configuration { setting: ConfigFault::SerialDevice })
    );
    assert_eq!(
        RtuTransport::new("COM1", 0),
        Err(ModbusError::Configuration { setting: ConfigFault::BaudRate })
    );
    assert_eq!(
        RtuTransport::new_with_config("COM1", SerialSettings::with_baud_rate(0), 0),
        Err(ModbusError::Configuration { setting: ConfigFault::BaudRate })
    );
    assert_eq!(
        RtuTransport::new_with_config("COM1", SerialSettings::with_baud_rate(9600), 0),
        Err(ModbusError::Configuration { setting: ConfigFault::Timeout })
    );
    let transport = RtuTransport::new_with_config("COM1", SerialSettings::with_baud_rate(115200), 250).unwrap();
    assert_eq!(transport.port, "COM1");
    assert_eq!(transport.link.timeout_ms, 250);
    assert_eq!(transport.link.framing, Framing::Rtu);
}

#[test]
fn client_reads_holding_registers() {
    let mut bank = ModbusRegisterBank::new();
    bank.write_multiple_registers(0, &[0x1000, 0x1001, 0x1002]).unwrap();
    let mut client = tcp_client();
    let frame = client.read_holding_registers(1, 0, 3).unwrap();
    assert_eq!(&frame[7..], &[0x03, 0x00, 0x00, 0x00, 0x03]);
    assert_eq!(
        exchange(&mut client, &mut bank, frame),
        Ok(ClientReply::Registers(vec![0x1000, 0x1001, 0x1002]))
    );
}

#[test]
fn client_runs_each_of_the_eight_functions() {
    let mut bank = ModbusRegisterBank::new();
    bank.set_discrete_input(2, true).unwrap();
    bank.set_input_register(2, 0x2002).unwrap();
    let mut client = tcp_client();

    let frame = client.write_single_coil(1, 100, true).unwrap();
    assert_eq!(&frame[7..], &[0x05, 0x00, 0x64, 0xFF, 0x00]);
    assert_eq!(exchange(&mut client, &mut bank, frame), Ok(ClientReply::Written));
    let frame = client.read_coils(1, 100, 1).unwrap();
    assert_eq!(exchange(&mut client, &mut bank, frame), Ok(ClientReply::Bits(vec![true])));

    let frame = client.write_single_register(1, 200, 0xABCD).unwrap();
    assert_eq!(exchange(&mut client, &mut bank, frame), Ok(ClientReply::Written));
    let frame = client.read_holding_registers(1, 200, 1).unwrap();
    assert_eq!(exchange(&mut client, &mut bank, frame), Ok(ClientReply::Registers(vec![0xABCD])));

    let coils = [true, false, true, false, true, false, true, false, true, true, false];
    let frame = client.write_multiple_coils(1, 300, &coils).unwrap();
    assert_eq!(exchange(&mut client, &mut bank, frame), Ok(ClientReply::Written));
    let frame = client.read_coils(1, 300, 11).unwrap();
    assert_eq!(exchange(&mut client, &mut bank, frame), Ok(ClientReply::Bits(coils.to_vec())));

    let frame = client.write_multiple_registers(1, 400, &[0x1111, 0x2222, 0x3333]).unwrap();
    assert_eq!(exchange(&mut client, &mut bank, frame), Ok(ClientReply::Written));
    let frame = client.read_holding_registers(1, 400, 3).unwrap();
    assert_eq!(
        exchange(&mut client, &mut bank, frame),
        Ok(ClientReply::Registers(vec![0x1111, 0x2222, 0x3333]))
    );

    let frame = client.read_discrete_inputs(1, 0, 4).unwrap();
    assert_eq!(
        exchange(&mut client, &mut bank, frame),
        Ok(ClientReply::Bits(vec![false, false, true, false]))
    );
    let frame = client.read_input_registers(1, 1, 2).unwrap();
    assert_eq!(exchange(&mut client, &mut bank, frame), Ok(ClientReply::Registers(vec![0, 0x2002])));

    let stats = client.get_stats();
    assert_eq!(stats.requests_sent, 10);
    assert_eq!(stats.responses_received, 10);
    assert_eq!(stats.errors, 0);
    assert_eq!(stats.timeouts, 0);
}

#[test]
fn client_refuses_zero_and_one_above_each_limit() {
    let mut client = tcp_client();
    let refused = |address: u32, quantity: usize| Err(ModbusError::InvalidRequest { address, quantity });
    assert_eq!(client.read_coils(1, 7, 0), refused(7, 0));
    assert_eq!(client.read_coils(1, 7, 2001), refused(7, 2001));
    assert_eq!(client.read_discrete_inputs(1, 7, 0), refused(7, 0));
    assert_eq!(client.read_discrete_inputs(1, 7, 2001), refused(7, 2001));
    assert_eq!(client.read_holding_registers(1, 7, 0), refused(7, 0));
    assert_eq!(client.read_holding_registers(1, 7, 126), refused(7, 126));
    assert_eq!(client.read_input_registers(1, 7, 0), refused(7, 0));
    assert_eq!(client.read_input_registers(1, 7, 126), refused(7, 126));
    assert_eq!(client.write_multiple_coils(1, 7, &[]), refused(7, 0));
    assert_eq!(client.write_multiple_coils(1, 7, &vec![true; 1969]), refused(7, 1969));
    assert_eq!(client.write_multiple_registers(1, 7, &[]), refused(7, 0));
    assert_eq!(client.write_multiple_registers(1, 7, &vec![1; 124]), refused(7, 124));
    assert_eq!(client.get_stats(), TransportStats::new());
    assert_eq!(client.transport().link.state, ConnectionState::Connected);
    assert!(client.read_coils(1, 7, 2000).is_ok());
}

#[test]
fn client_reports_the_exception_of_the_server() {
    let mut bank = ModbusRegisterBank::with_sizes(10, 10, 10, 10).unwrap();
    let mut client = tcp_client();
    let frame = client.read_holding_registers(1, 8, 5).unwrap();
    assert_eq!(
        exchange(&mut client, &mut bank, frame),
        Err(ModbusError::Exception { function: 3, exception: ModbusException::IllegalDataAddress })
    );
    let frame = client.write_single_coil(1, 10, true).unwrap();
    assert_eq!(
        exchange(&mut client, &mut bank, frame),
        Err(ModbusError::Exception { function: 5, exception: ModbusException::IllegalDataAddress })
    );
    assert!(client.is_connected());
    assert_eq!(client.get_stats().responses_received, 2);
}

#[test]
fn reply_must_hold_the_quantity_asked_for() {
    let pending = Pending {
        transaction_id: 1,
        slave_id: 1,
        function: ModbusFunction::ReadHoldingRegisters,
        address: 0,
        quantity: 2,
    };
    let short = ModbusResponse::new_success(1, ModbusFunction::ReadHoldingRegisters, vec![2, 0, 1]);
    assert_eq!(
        interpret_response(&pending, &short),
        Err(ModbusError::Frame { fault: FrameFault::ByteCount })
    );
    let fine = ModbusResponse::new_success(1, ModbusFunction::ReadHoldingRegisters, vec![4, 0, 1, 0, 2]);
    assert_eq!(interpret_response(&pending, &fine), Ok(ClientReply::Registers(vec![1, 2])));
    let bits = Pending { function: ModbusFunction::ReadCoils, quantity: 9, ..pending };
    let short = ModbusResponse::new_success(1, ModbusFunction::ReadCoils, vec![1, 0xFF]);
    assert_eq!(
        interpret_response(&bits, &short),
        Err(ModbusError::Frame { fault: FrameFault::ByteCount })
    );
    let fine = ModbusResponse::new_success(1, ModbusFunction::ReadCoils, vec![2, 0xFF, 0x01]);
    assert_eq!(interpret_response(&bits, &fine), Ok(ClientReply::Bits(vec![true; 9])));
    let write = Pending { function: ModbusFunction::WriteSingleCoil, quantity: 1, ..pending };
    let echo = ModbusResponse::new_success(1, ModbusFunction::WriteSingleCoil, vec![0, 0, 0xFF, 0]);
    assert_eq!(interpret_response(&write, &echo), Ok(ClientReply::Written));
}

#[test]
fn generic_client_hands_out_its_transport() {
    let mut client = GenericModbusClient::new(TcpTransport::new(750).unwrap());
    assert_eq!(client.transport().link.timeout_ms, 750);
    client.transport_mut().link.begin_connect().unwrap();
    client.transport_mut().link.on_connected().unwrap();
    assert!(client.is_connected());
    let request = ModbusRequest::write_single_register(3, 1, 2);
    let frame = client.execute_request(&request).unwrap();
    assert_eq!(frame, vec![0, 1, 0, 0, 0, 6, 3, 0x06, 0, 1, 0, 2]);
    client.close();
    assert!(!client.is_connected());
}

#[test]
fn write_on_one_connection_is_seen_on_the_other() {
    let mut server = ModbusTcpServer::new();
    server.start();
    assert!(server.accept_connection());
    assert!(server.accept_connection());
    let mut a = tcp_client();
    let mut b = tcp_client();
    for round in 0..100u16 {
        let value = 0xAAAA ^ round;
        let frame = a.write_single_register(1, 10, value).unwrap();
        let reply = match server.handle_frame(&frame) {
            ConnectionAction::Reply(reply) => reply,
            ConnectionAction::Close => panic!("connection closed"),
        };
        assert_eq!(a.receive(&reply), Ok(ClientReply::Written));
        let frame = b.read_holding_registers(1, 10, 1).unwrap();
        let reply = match server.handle_frame(&frame) {
            ConnectionAction::Reply(reply) => reply,
            ConnectionAction::Close => panic!("connection closed"),
        };
        assert_eq!(b.receive(&reply), Ok(ClientReply::Registers(vec![value])));
    }
    assert_eq!(server.get_stats().total_requests, 200);
    assert_eq!(server.get_stats().successful_requests, 200);
    assert_eq!(server.get_stats().failed_requests, 0);
}

#[test]
fn mixed_read_step_by_step() {
    assert_eq!(
        mixed_read_request(1, ModbusFunction::ReadHoldingRegisters, 5, 10),
        Ok(ModbusRequest::new_read(1, ModbusFunction::ReadHoldingRegisters, 5, 10))
    );
    assert_eq!(
        mixed_read_request(1, ModbusFunction::ReadInputRegisters, 5, 125),
        Ok(ModbusRequest::new_read(1, ModbusFunction::ReadInputRegisters, 5, 125))
    );
    assert_eq!(
        mixed_read_request(1, ModbusFunction::ReadCoils, 5, 10),
        Err(ModbusError::InvalidFunction { code: 1 })
    );
    assert_eq!(
        mixed_read_request(1, ModbusFunction::WriteMultipleRegisters, 5, 10),
        Err(ModbusError::InvalidFunction { code: 16 })
    );
    assert_eq!(
        mixed_read_request(1, ModbusFunction::ReadInputRegisters, 5, 0),
        Err(ModbusError::InvalidRequest { address: 5, quantity: 0 })
    );
    assert_eq!(
        mixed_read_request(1, ModbusFunction::ReadInputRegisters, 5, 126),
        Err(ModbusError::InvalidRequest { address: 5, quantity: 126 })
    );
}

#[test]
fn mixed_read_stops_at_the_first_refusal() {
    let operations = [
        (ModbusFunction::ReadHoldingRegisters, 0, 2),
        (ModbusFunction::ReadInputRegisters, 10, 3),
        (ModbusFunction::ReadCoils, 0, 1),
        (ModbusFunction::ReadHoldingRegisters, 20, 1),
    ];
    let batch = read_mixed_registers(7, &operations);
    assert_eq!(
        batch.requests,
        vec![
            ModbusRequest::new_read(7, ModbusFunction::ReadHoldingRegisters, 0, 2),
            ModbusRequest::new_read(7, ModbusFunction::ReadInputRegisters, 10, 3),
        ]
    );
    assert_eq!(batch.error, Some(ModbusError::InvalidFunction { code: 1 }));
    let batch = read_mixed_registers(7, &operations[..2]);
    assert_eq!(batch.requests.len(), 2);
    assert_eq!(batch.error, None);
    let batch = read_mixed_registers(7, &[]);
    assert!(batch.requests.is_empty());
    assert_eq!(batch.error, None);
}

#[test]
fn batch_write_chooses_the_function_by_the_number_of_values() {
    assert_eq!(
        batch_write_request(1, 10, &[0xAAAA]),
        Ok(ModbusRequest::write_single_register(1, 10, 0xAAAA))
    );
    assert_eq!(
        batch_write_request(1, 10, &[1, 2]),
        ModbusRequest::write_multiple_registers(1, 10, &[1, 2])
    );
    assert_eq!(
        batch_write_request(1, 10, &[]),
        Err(ModbusError::InvalidRequest { address: 10, quantity: 0 })
    );
    assert_eq!(
        batch_write_request(1, 10, &vec![0; 124]),
        Err(ModbusError::InvalidRequest { address: 10, quantity: 124 })
    );
}

#[test]
fn batch_write_stops_at_the_first_refusal() {
    let writes = vec![(0u16, vec![1u16]), (10, vec![1, 2, 3]), (20, vec![]), (30, vec![4])];
    let batch = batch_write_registers(1, &writes);
    assert_eq!(
        batch.requests,
        vec![
            ModbusRequest::write_single_register(1, 0, 1),
            ModbusRequest::write_multiple_registers(1, 10, &[1, 2, 3]).unwrap(),
        ]
    );
    assert_eq!(batch.error, Some(ModbusError::InvalidRequest { address: 20, quantity: 0 }));
    let batch = batch_write_registers(1, &writes[..2]);
    assert_eq!(batch.requests.len(), 2);
    assert_eq!(batch.error, None);
}
