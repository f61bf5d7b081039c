//! The data bank of a responder: four independent spaces, each mapped from
//! address 0 up to its size.
//!
//! | space | item | written by |
//! |---|---|---|
//! | coils | bit | requests |
//! | discrete inputs | bit | the device only |
//! | holding registers | 16-bit word | requests |
//! | input registers | 16-bit word | the device only |
//!
//! An address at or above the size of its space is unmapped: every access
//! that touches one is refused with `InvalidAddress`, and nothing is read or
//! written. A quantity of zero or above the limit of the operation is refused
//! with `InvalidRequest` before any address is looked at. Every operation
//! either takes effect as a whole or leaves the bank as it was.

use vstd::prelude::*;
use crate::error::{ConfigFault, ModbusError, ModbusResult, result_view};

verus! {

/// The largest number of addresses a space can map: addresses are 16 bits wide.
pub const MAX_SPACE_SIZE: usize = 65536;

/// The items from `address` on, `quantity` of them, or the refusal.
pub open spec fn read_range<T>(space: Seq<T>, address: u16, quantity: u16, limit: u16) -> ModbusResult<
    Seq<T>,
> {
    if quantity == 0 || quantity > limit {
        Err(ModbusError::InvalidRequest { address: address as u32, quantity: quantity as usize })
    } else if address + quantity > space.len() {
        Err(ModbusError::InvalidAddress { start: address, count: quantity })
    } else {
        Ok(space.subrange(address as int, address + quantity))
    }
}

/// The space with `values` written from `address` on, or the refusal.
pub open spec fn write_range<T>(space: Seq<T>, address: u16, values: Seq<T>, limit: u16) -> ModbusResult<
    Seq<T>,
> {
    if values.len() == 0 || values.len() > limit {
        Err(ModbusError::InvalidRequest { address: address as u32, quantity: values.len() as usize })
    } else if address + values.len() > space.len() {
        Err(ModbusError::InvalidAddress { start: address, count: values.len() as u16 })
    } else {
        Ok(
            space.subrange(0, address as int) + values + space.subrange(
                address + values.len(),
                space.len() as int,
            ),
        )
    }
}

/// The space with one item written at `address`, or the refusal.
pub open spec fn write_one<T>(space: Seq<T>, address: u16, value: T) -> ModbusResult<Seq<T>> {
    if address >= space.len() {
        Err(ModbusError::InvalidAddress { start: address, count: 1 })
    } else {
        Ok(space.update(address as int, value))
    }
}

/// What a bank holds, as four sequences indexed by address.
#[verifier::ext_equal]
pub struct BankView {
    pub coils: Seq<bool>,
    pub discrete_inputs: Seq<bool>,
    pub holding_registers: Seq<u16>,
    pub input_registers: Seq<u16>,
}

impl BankView {
    /// Whether no space maps more than 65536 addresses.
    pub open spec fn wf(self) -> bool {
        &&& self.coils.len() <= 65536
        &&& self.discrete_inputs.len() <= 65536
        &&& self.holding_registers.len() <= 65536
        &&& self.input_registers.len() <= 65536
    }

    /// The bank with other coils.
    pub open spec fn with_coils(self, coils: Seq<bool>) -> BankView {
        BankView { coils, ..self }
    }

    /// The bank with other discrete inputs.
    pub open spec fn with_discrete_inputs(self, discrete_inputs: Seq<bool>) -> BankView {
        BankView { discrete_inputs, ..self }
    }

    /// The bank with other holding registers.
    pub open spec fn with_holding_registers(self, holding_registers: Seq<u16>) -> BankView {
        BankView { holding_registers, ..self }
    }

    /// The bank with other input registers.
    pub open spec fn with_input_registers(self, input_registers: Seq<u16>) -> BankView {
        BankView { input_registers, ..self }
    }
}

/// The number of mapped addresses of each space.
#[derive(Debug, Clone, Copy, PartialEq, Eq, Structural)]
pub struct RegisterBankStats {
    pub coils_count: usize,
    pub discrete_inputs_count: usize,
    pub holding_registers_count: usize,
    pub input_registers_count: usize,
}

/// The volatile in-memory bank.
#[derive(Debug, Clone, PartialEq, Eq)]
pub struct ModbusRegisterBank {
    coils: Vec<bool>,
    discrete_inputs: Vec<bool>,
    holding_registers: Vec<u16>,
    input_registers: Vec<u16>,
}

impl View for ModbusRegisterBank {
    type V = BankView;

    closed spec fn view(&self) -> BankView {
        BankView {
            coils: self.coils@,
            discrete_inputs: self.discrete_inputs@,
            holding_registers: self.holding_registers@,
            input_registers: self.input_registers@,
        }
    }
}

/// Copies `quantity` items from `address` on, after the checks of `read_range`.
fn read_from<T: Copy>(space: &Vec<T>, address: u16, quantity: u16, limit: u16) -> (items: ModbusResult<
    Vec<T>,
>)
    ensures
        result_view(items) == read_range(space@, address, quantity, limit),
{
    if quantity == 0 || quantity > limit {
        return Err(
            ModbusError::InvalidRequest { address: address as u32, quantity: quantity as usize },
        );
    }
    let start: usize = address as usize;
    let count: usize = quantity as usize;
    if start + count > space.len() {
        return Err(ModbusError::InvalidAddress { start: address, count: quantity });
    }
    let mut items: Vec<T> = Vec::new();
    let mut i: usize = 0;
    while i < count
        invariant
            i <= count,
            start + count <= space.len(),
            items@.len() == i,
            forall|m: int| 0 <= m < i ==> items@[m] == space@[start + m],
        decreases count - i,
    {
        items.push(space[start + i]);
        i += 1;
    }
    assert(items@ =~= space@.subrange(start as int, start + count));
    Ok(items)
}

/// Writes `values` from `address` on, after the checks of `write_range`.
fn write_to<T: Copy>(space: &mut Vec<T>, address: u16, values: &[T], limit: u16) -> (written: ModbusResult<
    (),
>)
    ensures
        match written {
            Ok(()) => write_range(old(space)@, address, values@, limit) == Ok::<Seq<T>, ModbusError>(
                final(space)@,
            ),
            Err(error) => write_range(old(space)@, address, values@, limit) == Err::<
                Seq<T>,
                ModbusError,
            >(error) && final(space)@ == old(space)@,
        },
{
    let count: usize = values.len();
    if count == 0 || count > limit as usize {
        return Err(ModbusError::InvalidRequest { address: address as u32, quantity: count });
    }
    let start: usize = address as usize;
    if start + count > space.len() {
        return Err(ModbusError::InvalidAddress { start: address, count: count as u16 });
    }
    let mut i: usize = 0;
    while i < count
        invariant
            i <= count,
            count == values@.len(),
            space@.len() == old(space)@.len(),
            start + count <= space.len(),
            forall|m: int| 0 <= m < i ==> space@[start + m] == values@[m],
            forall|m: int|
                0 <= m < space@.len() && !(start <= m < start + i) ==> space@[m] == old(space)@[m],
        decreases count - i,
    {
        space.set(start + i, values[i]);
        i += 1;
    }
    assert(space@ =~= old(space)@.subrange(0, start as int) + values@ + old(space)@.subrange(
        start + count,
        old(space)@.len() as int,
    ));
    Ok(())
}

/// Writes one item at `address`, after the check of `write_one`.
fn put<T: Copy>(space: &mut Vec<T>, address: u16, value: T) -> (written: ModbusResult<()>)
    ensures
        match written {
            Ok(()) => write_one(old(space)@, address, value) == Ok::<Seq<T>, ModbusError>(
                final(space)@,
            ),
            Err(error) => write_one(old(space)@, address, value) == Err::<Seq<T>, ModbusError>(
                error,
            ) && final(space)@ == old(space)@,
        },
{
    if address as usize >= space.len() {
        return Err(ModbusError::InvalidAddress { start: address, count: 1 });
    }
    space.set(address as usize, value);
    Ok(())
}

/// A vector of `size` copies of `value`.
fn filled<T: Copy>(size: usize, value: T) -> (space: Vec<T>)
    ensures
        space@ == Seq::new(size as nat, |i: int| value),
{
    let mut space: Vec<T> = Vec::new();
    let mut i: usize = 0;
    while i < size
        invariant
            i <= size,
            space@.len() == i,
            forall|m: int| 0 <= m < i ==> space@[m] == value,
        decreases size - i,
    {
        space.push(value);
        i += 1;
    }
    assert(space@ =~= Seq::new(size as nat, |i: int| value));
    space
}

impl ModbusRegisterBank {
    /// The bank of the given sizes in which every bit is off and every
    /// register is zero.
    pub open spec fn blank(
        coils: nat,
        discrete_inputs: nat,
        holding_registers: nat,
        input_registers: nat,
    ) -> BankView {
        BankView {
            coils: Seq::new(coils, |i: int| false),
            discrete_inputs: Seq::new(discrete_inputs, |i: int| false),
            holding_registers: Seq::new(holding_registers, |i: int| 0u16),
            input_registers: Seq::new(input_registers, |i: int| 0u16),
        }
    }

    /// Creates a bank that maps all 65536 addresses of every space, every
    /// bit off and every register zero.
    pub fn new() -> (bank: ModbusRegisterBank)
        ensures
            bank@ == Self::blank(65536, 65536, 65536, 65536),
            bank@.wf(),
    {
        ModbusRegisterBank {
            coils: filled(MAX_SPACE_SIZE, false),
            discrete_inputs: filled(MAX_SPACE_SIZE, false),
            holding_registers: filled(MAX_SPACE_SIZE, 0u16),
            input_registers: filled(MAX_SPACE_SIZE, 0u16),
        }
    }

    /// Creates a bank whose spaces map the addresses below the given sizes,
    /// every bit off and every register zero. A size above 65536 is refused
    /// with `Configuration`, naming `BankSize`.
    pub fn with_sizes(
        coils: usize,
        discrete_inputs: usize,
        holding_registers: usize,
        input_registers: usize,
    ) -> (bank: ModbusResult<ModbusRegisterBank>)
        ensures
            result_view(bank) == if coils <= 65536 && discrete_inputs <= 65536 && holding_registers
                <= 65536 && input_registers <= 65536 {
                Ok::<BankView, ModbusError>(
                    Self::blank(
                        coils as nat,
                        discrete_inputs as nat,
                        holding_registers as nat,
                        input_registers as nat,
                    ),
                )
            } else {
                Err(ModbusError::Configuration { setting: ConfigFault::BankSize })
            },
            bank matches Ok(b) ==> b@.wf(),
    {
        if coils > MAX_SPACE_SIZE || discrete_inputs > MAX_SPACE_SIZE || holding_registers
            > MAX_SPACE_SIZE || input_registers > MAX_SPACE_SIZE {
            return Err(ModbusError::Configuration { setting: ConfigFault::BankSize });
        }
        Ok(
            ModbusRegisterBank {
                coils: filled(coils, false),
                discrete_inputs: filled(discrete_inputs, false),
                holding_registers: filled(holding_registers, 0u16),
                input_registers: filled(input_registers, 0u16),
            },
        )
    }

    /// Reads 1 to 2000 coils from `address` on.
    pub fn read_coils(&self, address: u16, quantity: u16) -> (bits: ModbusResult<Vec<bool>>)
        ensures
            result_view(bits) == read_range(self@.coils, address, quantity, 2000),
    {
        read_from(&self.coils, address, quantity, crate::MAX_COILS_PER_REQUEST)
    }

    /// Reads 1 to 2000 discrete inputs from `address` on.
    pub fn read_discrete_inputs(&self, address: u16, quantity: u16) -> (bits: ModbusResult<
        Vec<bool>,
    >)
        ensures
            result_view(bits) == read_range(self@.discrete_inputs, address, quantity, 2000),
    {
        read_from(&self.discrete_inputs, address, quantity, crate::MAX_COILS_PER_REQUEST)
    }

    /// Reads 1 to 125 holding registers from `address` on.
    pub fn read_holding_registers(&self, address: u16, quantity: u16) -> (words: ModbusResult<
        Vec<u16>,
    >)
        ensures
            result_view(words) == read_range(self@.holding_registers, address, quantity, 125),
    {
        read_from(&self.holding_registers, address, quantity, crate::MAX_REGISTERS_PER_REQUEST)
    }

    /// Reads 1 to 125 input registers from `address` on.
    pub fn read_input_registers(&self, address: u16, quantity: u16) -> (words: ModbusResult<
        Vec<u16>,
    >)
        ensures
            result_view(words) == read_range(self@.input_registers, address, quantity, 125),
    {
        read_from(&self.input_registers, address, quantity, crate::MAX_REGISTERS_PER_REQUEST)
    }

    /// Switches the coil at `address` on or off.
    pub fn write_single_coil(&mut self, address: u16, value: bool) -> (written: ModbusResult<()>)
        ensures
            match written {
                Ok(()) => write_one(old(self)@.coils, address, value) is Ok && final(self)@ == old(self)@.with_coils(write_one(old(self)@.coils, address, value)->Ok_0),
                Err(error) => write_one(old(self)@.coils, address, value) == Err::<
                    Seq<bool>,
                    ModbusError,
                >(error) && final(self)@ == old(self)@,
            },
    {
        put(&mut self.coils, address, value)
    }

    /// Sets the holding register at `address`.
    pub fn write_single_register(&mut self, address: u16, value: u16) -> (written: ModbusResult<
        (),
    >)
        ensures
            match written {
                Ok(()) => write_one(old(self)@.holding_registers, address, value) is Ok && final(self)@ == old(self)@.with_holding_registers(
                    write_one(old(self)@.holding_registers, address, value)->Ok_0,
                ),
                Err(error) => write_one(old(self)@.holding_registers, address, value) == Err::<
                    Seq<u16>,
                    ModbusError,
                >(error) && final(self)@ == old(self)@,
            },
    {
        put(&mut self.holding_registers, address, value)
    }

    /// Writes 1 to 1968 coils from `address` on, all of them or none.
    pub fn write_multiple_coils(&mut self, address: u16, values: &[bool]) -> (written: ModbusResult<
        (),
    >)
        ensures
            match written {
                Ok(()) => write_range(old(self)@.coils, address, values@, 1968) is Ok && final(self)@ == old(self)@.with_coils(
                    write_range(old(self)@.coils, address, values@, 1968)->Ok_0,
                ),
                Err(error) => write_range(old(self)@.coils, address, values@, 1968) == Err::<
                    Seq<bool>,
                    ModbusError,
                >(error) && final(self)@ == old(self)@,
            },
    {
        write_to(&mut self.coils, address, values, crate::protocol::MAX_WRITE_COILS)
    }

    /// Writes 1 to 123 holding registers from `address` on, all of them or
    /// none.
    pub fn write_multiple_registers(&mut self, address: u16, values: &[u16]) -> (written:
        ModbusResult<()>)
        ensures
            match written {
                Ok(()) => write_range(old(self)@.holding_registers, address, values@, 123) is Ok
                    && final(self)@ == old(self)@.with_holding_registers(
                    write_range(old(self)@.holding_registers, address, values@, 123)->Ok_0,
                ),
                Err(error) => write_range(old(self)@.holding_registers, address, values@, 123)
                    == Err::<Seq<u16>, ModbusError>(error) && final(self)@ == old(self)@,
            },
    {
        write_to(&mut self.holding_registers, address, values, crate::protocol::MAX_WRITE_REGISTERS)
    }

    /// Sets the discrete input at `address`. No request can do this: it is
    /// for the device that owns the bank.
    pub fn set_discrete_input(&mut self, address: u16, value: bool) -> (written: ModbusResult<()>)
        ensures
            match written {
                Ok(()) => write_one(old(self)@.discrete_inputs, address, value) is Ok && final(self)@ == old(self)@.with_discrete_inputs(
                    write_one(old(self)@.discrete_inputs, address, value)->Ok_0,
                ),
                Err(error) => write_one(old(self)@.discrete_inputs, address, value) == Err::<
                    Seq<bool>,
                    ModbusError,
                >(error) && final(self)@ == old(self)@,
            },
    {
        put(&mut self.discrete_inputs, address, value)
    }

    /// Sets the input register at `address`. No request can do this: it is
    /// for the device that owns the bank.
    pub fn set_input_register(&mut self, address: u16, value: u16) -> (written: ModbusResult<()>)
        ensures
            match written {
                Ok(()) => write_one(old(self)@.input_registers, address, value) is Ok && final(self)@ == old(self)@.with_input_registers(
                    write_one(old(self)@.input_registers, address, value)->Ok_0,
                ),
                Err(error) => write_one(old(self)@.input_registers, address, value) == Err::<
                    Seq<u16>,
                    ModbusError,
                >(error) && final(self)@ == old(self)@,
            },
    {
        put(&mut self.input_registers, address, value)
    }

    /// Returns the number of mapped addresses of each space.
    pub fn get_stats(&self) -> (stats: RegisterBankStats)
        ensures
            stats.coils_count == self@.coils.len(),
            stats.discrete_inputs_count == self@.discrete_inputs.len(),
            stats.holding_registers_count == self@.holding_registers.len(),
            stats.input_registers_count == self@.input_registers.len(),
    {
        RegisterBankStats {
            coils_count: self.coils.len(),
            discrete_inputs_count: self.discrete_inputs.len(),
            holding_registers_count: self.holding_registers.len(),
            input_registers_count: self.input_registers.len(),
        }
    }
}

/// What was written is what is read back: after a write of several items
/// that succeeded, a read of as many items from the same address gives the
/// values written, provided the read may ask for that many.
pub proof fn lemma_read_after_write<T>(
    space: Seq<T>,
    address: u16,
    values: Seq<T>,
    write_limit: u16,
    read_limit: u16,
)
    requires
        write_range(space, address, values, write_limit) is Ok,
        write_limit <= read_limit,
    ensures
        read_range(
            write_range(space, address, values, write_limit)->Ok_0,
            address,
            values.len() as u16,
            read_limit,
        ) == Ok::<Seq<T>, ModbusError>(values),
{
    let after = write_range(space, address, values, write_limit)->Ok_0;
    assert(after.subrange(address as int, address + values.len()) =~= values);
}

/// A write of several items leaves every address outside its range as it
/// was, and the size of the space too.
pub proof fn lemma_write_is_local<T>(space: Seq<T>, address: u16, values: Seq<T>, limit: u16, at: int)
    requires
        write_range(space, address, values, limit) is Ok,
        0 <= at < space.len(),
        at < address || at >= address + values.len(),
    ensures
        write_range(space, address, values, limit)->Ok_0.len() == space.len(),
        write_range(space, address, values, limit)->Ok_0[at] == space[at],
{
}

/// One item that was written is read back.
pub proof fn lemma_read_after_write_one<T>(space: Seq<T>, address: u16, value: T, limit: u16)
    requires
        write_one(space, address, value) is Ok,
        limit >= 1,
    ensures
        read_range(write_one(space, address, value)->Ok_0, address, 1, limit) == Ok::<
            Seq<T>,
            ModbusError,
        >(seq![value]),
{
    let after = write_one(space, address, value)->Ok_0;
    assert(after.subrange(address as int, address + 1) =~= seq![value]);
}

/// A quantity of zero and a quantity one above the limit are refused with
/// `InvalidRequest`, for reads and for writes, whatever the address.
pub proof fn lemma_quantity_bounds<T>(space: Seq<T>, address: u16, values: Seq<T>, limit: u16)
    requires
        limit < 0xFFFF,
        values.len() == limit + 1,
    ensures
        read_range(space, address, 0, limit) is Err,
        read_range(space, address, 0, limit)->Err_0 is InvalidRequest,
        read_range(space, address, (limit + 1) as u16, limit) is Err,
        read_range(space, address, (limit + 1) as u16, limit)->Err_0 is InvalidRequest,
        write_range(space, address, Seq::<T>::empty(), limit) is Err,
        write_range(space, address, Seq::<T>::empty(), limit)->Err_0 is InvalidRequest,
        write_range(space, address, values, limit) is Err,
        write_range(space, address, values, limit)->Err_0 is InvalidRequest,
{
}

} // verus!
