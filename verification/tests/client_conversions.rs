use voltage_modbus::client::utils::{registers_to_i32_be, registers_to_u32_be, u32_to_registers_be};
use voltage_modbus::client::{ModbusClient, ModbusRtuClient};
use voltage_modbus::error::{ConfigFault, ModbusError};
use voltage_modbus::transport::{DataBits, Parity, SerialSettings, StopBits};

#[test]
fn test_register_conversion() {
    let registers = vec![0x1234, 0x5678, 0xABCD, 0xEF01];
    let u32_values = registers_to_u32_be(&registers);
    assert_eq!(u32_values, vec![0x12345678, 0xABCDEF01]);

    let back_to_registers = u32_to_registers_be(&u32_values);
    assert_eq!(back_to_registers, registers);
}

#[test]
fn test_float_conversion() {
    let float_values = vec![1.5f32, -2.75f32];
    let bits: Vec<u32> = float_values.iter().map(|v| v.to_bits()).collect();
    let registers = u32_to_registers_be(&bits);
    let back_to_floats: Vec<f32> =
        registers_to_u32_be(&registers).into_iter().map(f32::from_bits).collect();

    for (value, converted) in float_values.iter().zip(back_to_floats.iter()) {
        assert!((value - converted).abs() < f32::EPSILON);
    }
}

#[test]
fn test_rtu_client_creation() {
    let result = ModbusRtuClient::new("/dev/ttyUSB0", 9600);
    println!("RTU client creation result: {:?}", result.is_ok());

    let result = ModbusRtuClient::with_config(
        "/dev/ttyUSB0",
        SerialSettings {
            baud_rate: 9600,
            data_bits: DataBits::Eight,
            stop_bits: StopBits::One,
            parity: Parity::NoParity,
        },
        1000,
    );
    println!("RTU client with config creation result: {:?}", result.is_ok());
}

#[test]
fn test_rtu_client_configuration() {
    let configs = vec![
        ("/dev/ttyUSB0", 9600),
        ("/dev/ttyUSB1", 19200),
        ("/dev/ttyS0", 38400),
        ("COM1", 115200),
    ];

    for (port, baud) in configs {
        let result = ModbusRtuClient::new(port, baud);
        println!("RTU client creation for {} at {} baud: {}", port, baud, result.is_ok());
    }
}

#[test]
fn rtu_client_keeps_its_configuration() {
    let client = ModbusRtuClient::new("/dev/ttyUSB0", 19200).unwrap();
    assert_eq!(client.transport().port, "/dev/ttyUSB0");
    assert_eq!(client.transport().settings.baud_rate, 19200);
    assert_eq!(client.transport().settings.data_bits, DataBits::Eight);
    assert_eq!(client.transport().settings.stop_bits, StopBits::One);
    assert_eq!(client.transport().settings.parity, Parity::NoParity);
    assert_eq!(client.transport().link.timeout_ms, 3000);
    assert!(client.is_connected());
}

#[test]
fn rtu_client_refuses_bad_configuration() {
    assert_eq!(
        ModbusRtuClient::new("", 9600).err(),
        Some(ModbusError::Configuration { setting: ConfigFault::SerialDevice })
    );
    assert_eq!(
        ModbusRtuClient::new("COM1", 0).err(),
        Some(ModbusError::Configuration { setting: ConfigFault::BaudRate })
    );
    assert_eq!(
        ModbusRtuClient::with_config("COM1", SerialSettings::with_baud_rate(9600), 0).err(),
        Some(ModbusError::Configuration { setting: ConfigFault::Timeout })
    );
}

#[test]
fn signed_values_use_twos_complement() {
    assert_eq!(registers_to_i32_be(&[0xFFFF, 0xFFFF]), vec![-1]);
    assert_eq!(registers_to_i32_be(&[0x8000, 0x0000]), vec![i32::MIN]);
    assert_eq!(registers_to_i32_be(&[0x7FFF, 0xFFFF]), vec![i32::MAX]);
    assert_eq!(registers_to_i32_be(&[0x0000, 0x0001, 0xFFFF, 0xFFFE]), vec![1, -2]);
}

#[test]
fn register_left_over_is_dropped() {
    assert_eq!(registers_to_u32_be(&[0x0001, 0x0002, 0x0003]), vec![0x0001_0002]);
    assert_eq!(registers_to_u32_be(&[0x0001]), Vec::<u32>::new());
    assert_eq!(registers_to_u32_be(&[]), Vec::<u32>::new());
    assert_eq!(u32_to_registers_be(&[]), Vec::<u16>::new());
    assert_eq!(u32_to_registers_be(&[0xDEADBEEF]), vec![0xDEAD, 0xBEEF]);
}
