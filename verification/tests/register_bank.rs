use voltage_modbus::error::{ConfigFault, ModbusError};
use voltage_modbus::register_bank::{ModbusRegisterBank, RegisterBankStats};

#[test]
fn new_bank_maps_every_address_with_zeros() {
    let bank = ModbusRegisterBank::new();
    assert_eq!(
        bank.get_stats(),
        RegisterBankStats {
            coils_count: 65536,
            discrete_inputs_count: 65536,
            holding_registers_count: 65536,
            input_registers_count: 65536,
        }
    );
    assert_eq!(bank.read_coils(0, 3), Ok(vec![false, false, false]));
    assert_eq!(bank.read_discrete_inputs(65535, 1), Ok(vec![false]));
    assert_eq!(bank.read_holding_registers(65411, 125), Ok(vec![0; 125]));
    assert_eq!(bank.read_input_registers(100, 2), Ok(vec![0, 0]));
}

#[test]
fn sizes_are_what_was_asked_for() {
    let bank = ModbusRegisterBank::with_sizes(10, 20, 30, 40).unwrap();
    assert_eq!(
        bank.get_stats(),
        RegisterBankStats {
            coils_count: 10,
            discrete_inputs_count: 20,
            holding_registers_count: 30,
            input_registers_count: 40,
        }
    );
    let empty = ModbusRegisterBank::with_sizes(0, 0, 0, 0).unwrap();
    assert_eq!(empty.read_coils(0, 1), Err(ModbusError::InvalidAddress { start: 0, count: 1 }));
}

#[test]
fn a_space_cannot_map_more_than_65536_addresses() {
    let refused = Err(ModbusError::Configuration { setting: ConfigFault::BankSize });
    assert_eq!(ModbusRegisterBank::with_sizes(65537, 0, 0, 0), refused);
    assert_eq!(ModbusRegisterBank::with_sizes(0, 65537, 0, 0), refused);
    assert_eq!(ModbusRegisterBank::with_sizes(0, 0, 65537, 0), refused);
    assert_eq!(ModbusRegisterBank::with_sizes(0, 0, 0, 65537), refused);
    assert!(ModbusRegisterBank::with_sizes(65536, 65536, 65536, 65536).is_ok());
}

#[test]
fn single_writes_are_read_back() {
    let mut bank = ModbusRegisterBank::new();
    assert_eq!(bank.write_single_coil(100, true), Ok(()));
    assert_eq!(bank.read_coils(99, 3), Ok(vec![false, true, false]));
    assert_eq!(bank.write_single_coil(100, false), Ok(()));
    assert_eq!(bank.read_coils(100, 1), Ok(vec![false]));
    assert_eq!(bank.write_single_register(200, 0xABCD), Ok(()));
    assert_eq!(bank.read_holding_registers(199, 3), Ok(vec![0, 0xABCD, 0]));
    assert_eq!(bank.set_discrete_input(7, true), Ok(()));
    assert_eq!(bank.read_discrete_inputs(6, 3), Ok(vec![false, true, false]));
    assert_eq!(bank.set_input_register(8, 0x2008), Ok(()));
    assert_eq!(bank.read_input_registers(8, 1), Ok(vec![0x2008]));
}

#[test]
fn multiple_registers_written_are_read_back() {
    let mut bank = ModbusRegisterBank::new();
    let values: Vec<u16> = (0..123).map(|i| 0x1000 + i).collect();
    assert_eq!(bank.write_multiple_registers(400, &values), Ok(()));
    assert_eq!(bank.read_holding_registers(400, 123), Ok(values));
    assert_eq!(bank.read_holding_registers(399, 1), Ok(vec![0]));
    assert_eq!(bank.read_holding_registers(523, 1), Ok(vec![0]));
    assert_eq!(bank.write_multiple_registers(65535, &[9]), Ok(()));
    assert_eq!(bank.read_holding_registers(65535, 1), Ok(vec![9]));
}

#[test]
fn multiple_coils_written_are_read_back() {
    let mut bank = ModbusRegisterBank::new();
    let values: Vec<bool> = (0..1968).map(|i| i % 3 == 0).collect();
    assert_eq!(bank.write_multiple_coils(300, &values), Ok(()));
    assert_eq!(bank.read_coils(300, 1968), Ok(values));
    assert_eq!(bank.read_coils(299, 1), Ok(vec![false]));
}

#[test]
fn the_four_spaces_do_not_touch_each_other() {
    let mut bank = ModbusRegisterBank::new();
    bank.write_single_coil(5, true).unwrap();
    bank.write_single_register(5, 0x5555).unwrap();
    assert_eq!(bank.read_discrete_inputs(5, 1), Ok(vec![false]));
    assert_eq!(bank.read_input_registers(5, 1), Ok(vec![0]));
    bank.set_discrete_input(6, true).unwrap();
    bank.set_input_register(6, 0x6666).unwrap();
    assert_eq!(bank.read_coils(5, 2), Ok(vec![true, false]));
    assert_eq!(bank.read_holding_registers(5, 2), Ok(vec![0x5555, 0]));
}

#[test]
fn unmapped_addresses_are_refused() {
    let mut bank = ModbusRegisterBank::with_sizes(10, 10, 10, 10).unwrap();
    assert_eq!(bank.read_coils(10, 1), Err(ModbusError::InvalidAddress { start: 10, count: 1 }));
    assert_eq!(bank.read_coils(5, 6), Err(ModbusError::InvalidAddress { start: 5, count: 6 }));
    assert_eq!(bank.read_coils(5, 5), Ok(vec![false; 5]));
    assert_eq!(
        bank.read_discrete_inputs(9, 2),
        Err(ModbusError::InvalidAddress { start: 9, count: 2 })
    );
    assert_eq!(
        bank.read_holding_registers(0, 11),
        Err(ModbusError::InvalidAddress { start: 0, count: 11 })
    );
    assert_eq!(
        bank.read_input_registers(65535, 1),
        Err(ModbusError::InvalidAddress { start: 65535, count: 1 })
    );
    assert_eq!(bank.write_single_coil(10, true), Err(ModbusError::InvalidAddress { start: 10, count: 1 }));
    assert_eq!(
        bank.write_single_register(10, 1),
        Err(ModbusError::InvalidAddress { start: 10, count: 1 })
    );
    assert_eq!(bank.set_discrete_input(10, true), Err(ModbusError::InvalidAddress { start: 10, count: 1 }));
    assert_eq!(bank.set_input_register(10, 1), Err(ModbusError::InvalidAddress { start: 10, count: 1 }));
}

#[test]
fn a_write_that_fails_changes_nothing() {
    let mut bank = ModbusRegisterBank::with_sizes(10, 10, 10, 10).unwrap();
    bank.write_multiple_registers(0, &[1, 2, 3, 4, 5, 6, 7, 8, 9, 10]).unwrap();
    let before = bank.clone();
    assert_eq!(
        bank.write_multiple_registers(8, &[0xAA, 0xBB, 0xCC]),
        Err(ModbusError::InvalidAddress { start: 8, count: 3 })
    );
    assert_eq!(bank, before);
    assert_eq!(
        bank.write_multiple_coils(9, &[true, true]),
        Err(ModbusError::InvalidAddress { start: 9, count: 2 })
    );
    assert_eq!(bank, before);
    assert_eq!(bank.read_holding_registers(0, 10), Ok(vec![1, 2, 3, 4, 5, 6, 7, 8, 9, 10]));
}

#[test]
fn bank_refuses_zero_and_one_above_each_limit() {
    let mut bank = ModbusRegisterBank::new();
    assert_eq!(bank.read_coils(1, 0), Err(ModbusError::InvalidRequest { address: 1, quantity: 0 }));
    assert_eq!(bank.read_coils(1, 2001), Err(ModbusError::InvalidRequest { address: 1, quantity: 2001 }));
    assert!(bank.read_coils(1, 2000).is_ok());
    assert_eq!(
        bank.read_discrete_inputs(1, 0),
        Err(ModbusError::InvalidRequest { address: 1, quantity: 0 })
    );
    assert_eq!(
        bank.read_discrete_inputs(1, 2001),
        Err(ModbusError::InvalidRequest { address: 1, quantity: 2001 })
    );
    assert_eq!(
        bank.read_holding_registers(1, 0),
        Err(ModbusError::InvalidRequest { address: 1, quantity: 0 })
    );
    assert_eq!(
        bank.read_holding_registers(1, 126),
        Err(ModbusError::InvalidRequest { address: 1, quantity: 126 })
    );
    assert!(bank.read_holding_registers(1, 125).is_ok());
    assert_eq!(
        bank.read_input_registers(1, 0),
        Err(ModbusError::InvalidRequest { address: 1, quantity: 0 })
    );
    assert_eq!(
        bank.read_input_registers(1, 126),
        Err(ModbusError::InvalidRequest { address: 1, quantity: 126 })
    );
    assert_eq!(
        bank.write_multiple_coils(1, &[]),
        Err(ModbusError::InvalidRequest { address: 1, quantity: 0 })
    );
    assert_eq!(
        bank.write_multiple_coils(1, &vec![true; 1969]),
        Err(ModbusError::InvalidRequest { address: 1, quantity: 1969 })
    );
    assert_eq!(
        bank.write_multiple_registers(1, &[]),
        Err(ModbusError::InvalidRequest { address: 1, quantity: 0 })
    );
    assert_eq!(
        bank.write_multiple_registers(1, &vec![1; 124]),
        Err(ModbusError::InvalidRequest { address: 1, quantity: 124 })
    );
}

#[test]
fn quantity_is_checked_before_the_address() {
    let bank = ModbusRegisterBank::with_sizes(1, 1, 1, 1).unwrap();
    assert_eq!(bank.read_coils(500, 0), Err(ModbusError::InvalidRequest { address: 500, quantity: 0 }));
    assert_eq!(
        bank.read_holding_registers(500, 126),
        Err(ModbusError::InvalidRequest { address: 500, quantity: 126 })
    );
}
