//! Helpers around the client: 32-bit values held in pairs of registers, the
//! more significant register first, and the choice of the request for one
//! step of a batch.

use vstd::prelude::*;
use crate::error::{ModbusError, ModbusResult, result_view};
use crate::data_utils::be_bytes;
use crate::protocol::{ModbusFunction, ModbusRequest, RequestView, SlaveId};

verus! {

/// The 32-bit value made of two registers, the more significant one first.
pub open spec fn pair_value(hi: u16, lo: u16) -> u32 {
    (hi * 65536 + lo) as u32
}

/// The 32-bit values that pairs of registers hold. A register left over at
/// the end belongs to no pair and is dropped.
pub open spec fn paired_values(registers: Seq<u16>) -> Seq<u32> {
    Seq::new(registers.len() / 2, |i: int| pair_value(registers[2 * i], registers[2 * i + 1]))
}

/// The registers that hold 32-bit values, two for each.
pub open spec fn value_registers(values: Seq<u32>) -> Seq<u16> {
    Seq::new(
        2 * values.len(),
        |i: int|
            if i % 2 == 0 {
                (values[i / 2] / 65536) as u16
            } else {
                (values[i / 2] % 65536) as u16
            },
    )
}

/// A 32-bit pattern read as a signed number in two's complement.
pub open spec fn signed_value(value: u32) -> i32 {
    if value >= 0x8000_0000 {
        (value - 0x1_0000_0000) as i32
    } else {
        value as i32
    }
}

/// Reads pairs of registers as unsigned 32-bit values, big-endian.
pub fn registers_to_u32_be(registers: &[u16]) -> (values: Vec<u32>)
    ensures
        values@ == paired_values(registers@),
{
    let count: usize = registers.len() / 2;
    let mut values: Vec<u32> = Vec::new();
    let mut i: usize = 0;
    while i < count
        invariant
            i <= count,
            count == registers@.len() / 2,
            2 * count <= registers.len(),
            values@.len() == i,
            forall|m: int|
                0 <= m < i ==> values@[m] == pair_value(registers@[2 * m], registers@[2 * m + 1]),
        decreases count - i,
    {
        let hi: u32 = registers[2 * i] as u32;
        let lo: u32 = registers[2 * i + 1] as u32;
        values.push(hi * 65536 + lo);
        i += 1;
    }
    assert(values@ =~= paired_values(registers@));
    values
}

/// Reads a 32-bit pattern as a signed number.
fn to_signed(value: u32) -> (signed: i32)
    ensures
        signed == signed_value(value),
{
    if value >= 0x8000_0000 {
        ((value - 0x8000_0000) as i32) + i32::MIN
    } else {
        value as i32
    }
}

/// Reads pairs of registers as signed 32-bit values, big-endian.
pub fn registers_to_i32_be(registers: &[u16]) -> (values: Vec<i32>)
    ensures
        values@ == paired_values(registers@).map_values(|v: u32| signed_value(v)),
{
    let unsigned = registers_to_u32_be(registers);
    let mut values: Vec<i32> = Vec::new();
    let mut i: usize = 0;
    while i < unsigned.len()
        invariant
            i <= unsigned.len(),
            values@.len() == i,
            forall|m: int| 0 <= m < i ==> values@[m] == signed_value(unsigned@[m]),
        decreases unsigned.len() - i,
    {
        values.push(to_signed(unsigned[i]));
        i += 1;
    }
    assert(values@ =~= unsigned@.map_values(|v: u32| signed_value(v)));
    values
}

/// Writes unsigned 32-bit values as pairs of registers, big-endian.
pub fn u32_to_registers_be(values: &[u32]) -> (registers: Vec<u16>)
    ensures
        registers@ == value_registers(values@),
{
    let mut registers: Vec<u16> = Vec::new();
    let mut i: usize = 0;
    while i < values.len()
        invariant
            i <= values.len(),
            registers@.len() == 2 * i,
            forall|m: int| 0 <= m < 2 * i ==> registers@[m] == #[trigger] value_registers(values@)[m],
        decreases values.len() - i,
    {
        let value: u32 = values[i];
        registers.push((value / 65536) as u16);
        registers.push((value % 65536) as u16);
        i += 1;
    }
    assert(registers@ =~= value_registers(values@));
    registers
}

/// 32-bit values survive the trip through their registers.
pub proof fn lemma_values_roundtrip(values: Seq<u32>)
    ensures
        paired_values(value_registers(values)) == values,
{
    let registers = value_registers(values);
    assert forall|i: int| 0 <= i < values.len() implies paired_values(registers)[i]
        == values[i] by {
        assert(registers[2 * i] == (values[i] / 65536) as u16);
        assert(registers[2 * i + 1] == (values[i] % 65536) as u16);
    }
    assert(paired_values(registers) =~= values);
}

/// An even number of registers survives the trip through the 32-bit values
/// they hold.
pub proof fn lemma_registers_roundtrip(registers: Seq<u16>)
    requires
        registers.len() % 2 == 0,
    ensures
        value_registers(paired_values(registers)) == registers,
{
    let values = paired_values(registers);
    assert forall|m: int| 0 <= m < registers.len() implies value_registers(values)[m]
        == registers[m] by {
        let i = m / 2;
        assert(values[i] == pair_value(registers[2 * i], registers[2 * i + 1]));
    }
    assert(value_registers(values) =~= registers);
}

/// The request for one step of a mixed read: a read of holding or of input
/// registers. Any other function is refused with `InvalidFunction`, a
/// quantity of zero or above 125 with `InvalidRequest`.
pub fn mixed_read_request(slave_id: SlaveId, function: ModbusFunction, address: u16, quantity: u16) -> (request:
    ModbusResult<ModbusRequest>)
    ensures
        result_view(request) == mixed_read_step(slave_id, (function, address, quantity)),
{
    match function {
        ModbusFunction::ReadHoldingRegisters | ModbusFunction::ReadInputRegisters => {
            if quantity == 0 || quantity > crate::MAX_REGISTERS_PER_REQUEST {
                Err(
                    ModbusError::InvalidRequest {
                        address: address as u32,
                        quantity: quantity as usize,
                    },
                )
            } else {
                Ok(ModbusRequest::new_read(slave_id, function, address, quantity))
            }
        },
        _ => Err(ModbusError::InvalidFunction { code: function.to_u8() }),
    }
}

/// The request for one step of a batch of writes: a write of one register
/// for a single value, a write of several for any other number of values.
/// No value and more than 123 of them are refused with `InvalidRequest`.
pub fn batch_write_request(slave_id: SlaveId, address: u16, values: &[u16]) -> (request: ModbusResult<
    ModbusRequest,
>)
    ensures
        result_view(request) == batch_write_step(slave_id, address, values@),
{
    if values.len() == 1 {
        Ok(ModbusRequest::write_single_register(slave_id, address, values[0]))
    } else {
        ModbusRequest::write_multiple_registers(slave_id, address, values)
    }
}

/// The request of one step of a mixed read, or the refusal.
pub open spec fn mixed_read_step(slave_id: SlaveId, operation: (ModbusFunction, u16, u16)) -> ModbusResult<
    RequestView,
> {
    let (function, address, quantity) = operation;
    if !function.reads_registers() {
        Err(ModbusError::InvalidFunction { code: function.code() })
    } else if quantity == 0 || quantity > 125 {
        Err(ModbusError::InvalidRequest { address: address as u32, quantity: quantity as usize })
    } else {
        Ok(RequestView { slave_id, function, address, quantity, data: Seq::empty() })
    }
}

/// The request of one step of a batch of writes, or the refusal.
pub open spec fn batch_write_step(slave_id: SlaveId, address: u16, values: Seq<u16>) -> ModbusResult<
    RequestView,
> {
    if values.len() == 1 {
        Ok(
            RequestView {
                slave_id,
                function: ModbusFunction::WriteSingleRegister,
                address,
                quantity: 1,
                data: be_bytes(values[0]),
            },
        )
    } else if 2 <= values.len() <= 123 {
        Ok(
            RequestView {
                slave_id,
                function: ModbusFunction::WriteMultipleRegisters,
                address,
                quantity: values.len() as u16,
                data: crate::data_utils::registers_bytes(values),
            },
        )
    } else {
        Err(ModbusError::InvalidRequest { address: address as u32, quantity: values.len() as usize })
    }
}

/// The requests of a batch, in the order in which they are to be issued,
/// and the error that ends the batch after them, if there is one.
#[derive(Debug, Clone, PartialEq, Eq)]
pub struct Batch {
    pub requests: Vec<ModbusRequest>,
    pub error: Option<ModbusError>,
}

/// Plans a series of register reads for one unit. Each operation names a
/// function, an address and a quantity. The requests stand in the order of
/// the operations, up to the first operation that is no read of holding or
/// input registers or names a quantity outside 1 to 125: its refusal ends
/// the batch, and the operations before it are still to be carried out.
pub fn read_mixed_registers(slave_id: SlaveId, operations: &[(ModbusFunction, u16, u16)]) -> (batch:
    Batch)
    ensures
        batch.requests@.len() <= operations@.len(),
        forall|i: int|
            0 <= i < batch.requests@.len() ==> mixed_read_step(slave_id, operations@[i]) == Ok::<
                RequestView,
                ModbusError,
            >(#[trigger] batch.requests@[i]@),
        match batch.error {
            None => batch.requests@.len() == operations@.len(),
            Some(error) => batch.requests@.len() < operations@.len() && mixed_read_step(
                slave_id,
                operations@[batch.requests@.len() as int],
            ) == Err::<RequestView, ModbusError>(error),
        },
{
    let mut requests: Vec<ModbusRequest> = Vec::new();
    let mut i: usize = 0;
    while i < operations.len()
        invariant
            i <= operations.len(),
            requests@.len() == i,
            forall|m: int|
                0 <= m < i ==> mixed_read_step(slave_id, operations@[m]) == Ok::<
                    RequestView,
                    ModbusError,
                >(#[trigger] requests@[m]@),
        decreases operations.len() - i,
    {
        let (function, address, quantity) = operations[i];
        match mixed_read_request(slave_id, function, address, quantity) {
            Ok(request) => {
                requests.push(request);
            },
            Err(error) => {
                return Batch { requests, error: Some(error) };
            },
        }
        i += 1;
    }
    Batch { requests, error: None }
}

/// Plans a series of register writes for one unit. Each write names an
/// address and the values for the registers from there on. The requests
/// stand in the order of the writes, up to the first write without values
/// or with more than 123 of them: its refusal ends the batch, and the
/// writes before it are still to be carried out.
pub fn batch_write_registers(slave_id: SlaveId, writes: &[(u16, Vec<u16>)]) -> (batch: Batch)
    ensures
        batch.requests@.len() <= writes@.len(),
        forall|i: int|
            0 <= i < batch.requests@.len() ==> batch_write_step(
                slave_id,
                writes@[i].0,
                writes@[i].1@,
            ) == Ok::<RequestView, ModbusError>(#[trigger] batch.requests@[i]@),
        match batch.error {
            None => batch.requests@.len() == writes@.len(),
            Some(error) => batch.requests@.len() < writes@.len() && batch_write_step(
                slave_id,
                writes@[batch.requests@.len() as int].0,
                writes@[batch.requests@.len() as int].1@,
            ) == Err::<RequestView, ModbusError>(error),
        },
{
    let mut requests: Vec<ModbusRequest> = Vec::new();
    let mut i: usize = 0;
    while i < writes.len()
        invariant
            i <= writes.len(),
            requests@.len() == i,
            forall|m: int|
                0 <= m < i ==> batch_write_step(slave_id, writes@[m].0, writes@[m].1@) == Ok::<
                    RequestView,
                    ModbusError,
                >(#[trigger] requests@[m]@),
        decreases writes.len() - i,
    {
        let address: u16 = writes[i].0;
        match batch_write_request(slave_id, address, writes[i].1.as_slice()) {
            Ok(request) => {
                requests.push(request);
            },
            Err(error) => {
                return Batch { requests, error: Some(error) };
            },
        }
        i += 1;
    }
    Batch { requests, error: None }
}

} // verus!
