//! Conversions between values and the bytes that carry them: big-endian
//! 16-bit words and bits packed eight to a byte, lowest address in bit 0.

use vstd::prelude::*;
use crate::packed_len;
use crate::error::{FrameFault, ModbusError, ModbusResult};

verus! {

/// The more significant byte of a word.
pub open spec fn hi_byte(word: u16) -> u8 {
    (word / 256) as u8
}

/// The less significant byte of a word.
pub open spec fn lo_byte(word: u16) -> u8 {
    (word % 256) as u8
}

/// The word made of two bytes, the more significant one first.
pub open spec fn word_of(hi: u8, lo: u8) -> u16 {
    (hi * 256 + lo) as u16
}

/// A word as two bytes in big-endian order.
pub open spec fn be_bytes(word: u16) -> Seq<u8> {
    seq![hi_byte(word), lo_byte(word)]
}

/// The big-endian word that starts at `at` in `bytes`.
pub open spec fn be_word_at(bytes: Seq<u8>, at: int) -> u16 {
    word_of(bytes[at], bytes[at + 1])
}

/// Registers as bytes: two per register, big-endian, in register order.
pub open spec fn registers_bytes(registers: Seq<u16>) -> Seq<u8> {
    Seq::new(
        2 * registers.len(),
        |i: int|
            if i % 2 == 0 {
                hi_byte(registers[i / 2])
            } else {
                lo_byte(registers[i / 2])
            },
    )
}

/// The registers that an even number of bytes holds.
pub open spec fn bytes_registers(bytes: Seq<u8>) -> Seq<u16> {
    Seq::new(bytes.len() / 2, |i: int| be_word_at(bytes, 2 * i))
}

/// Two to the power `k`, for the eight bit positions of a byte.
pub open spec fn bit_weight(k: int) -> int {
    if k == 0 {
        1
    } else if k == 1 {
        2
    } else if k == 2 {
        4
    } else if k == 3 {
        8
    } else if k == 4 {
        16
    } else if k == 5 {
        32
    } else if k == 6 {
        64
    } else {
        128
    }
}

/// Bit `k` of a byte, bit 0 being the least significant.
pub open spec fn bit_of(byte: u8, k: int) -> bool {
    (byte as int / bit_weight(k)) % 2 == 1
}

/// The bit at `i` as a number; positions past the end count as 0.
pub open spec fn bit_at(bits: Seq<bool>, i: int) -> int {
    if 0 <= i < bits.len() && bits[i] {
        1
    } else {
        0
    }
}

/// The value of byte `j` of the packed form: bit `k` of it is `bits[8 * j + k]`.
pub open spec fn packed_value(bits: Seq<bool>, j: int) -> int {
    bit_at(bits, 8 * j) + 2 * bit_at(bits, 8 * j + 1) + 4 * bit_at(bits, 8 * j + 2) + 8 * bit_at(
        bits,
        8 * j + 3,
    ) + 16 * bit_at(bits, 8 * j + 4) + 32 * bit_at(bits, 8 * j + 5) + 64 * bit_at(bits, 8 * j + 6)
        + 128 * bit_at(bits, 8 * j + 7)
}

/// Bits packed eight to a byte; the last byte is padded with zero bits.
pub open spec fn packed_bits(bits: Seq<bool>) -> Seq<u8> {
    Seq::new(packed_len(bits.len() as int) as nat, |j: int| packed_value(bits, j) as u8)
}

/// The first `quantity` bits that `bytes` holds, or all of them if there are fewer.
pub open spec fn unpacked_bits(bytes: Seq<u8>, quantity: nat) -> Seq<bool> {
    Seq::new(
        if quantity <= 8 * bytes.len() {
            quantity
        } else {
            8 * bytes.len()
        },
        |i: int| bit_of(bytes[i / 8], i % 8),
    )
}

/// Splits a word into its two bytes, the more significant one first.
pub fn split_word(word: u16) -> (bytes: (u8, u8))
    ensures
        bytes.0 == hi_byte(word),
        bytes.1 == lo_byte(word),
{
    ((word / 256) as u8, (word % 256) as u8)
}

/// Joins two bytes into a word, the more significant one first.
pub fn join_word(hi: u8, lo: u8) -> (word: u16)
    ensures
        word == word_of(hi, lo),
{
    (hi as u16) * 256 + (lo as u16)
}

/// Appends a word to `out` in big-endian order.
pub fn push_word(out: &mut Vec<u8>, word: u16)
    ensures
        final(out)@ == old(out)@ + be_bytes(word),
{
    let (hi, lo) = split_word(word);
    out.push(hi);
    out.push(lo);
}

/// Joining the two bytes of a word gives the word back, and splitting the
/// word made of two bytes gives the bytes back.
pub proof fn lemma_word_roundtrip(word: u16, hi: u8, lo: u8)
    ensures
        word_of(hi_byte(word), lo_byte(word)) == word,
        hi_byte(word_of(hi, lo)) == hi,
        lo_byte(word_of(hi, lo)) == lo,
{
}

/// Converts registers to bytes, two per register, big-endian.
pub fn registers_to_bytes(registers: &[u16]) -> (bytes: Vec<u8>)
    ensures
        bytes@ == registers_bytes(registers@),
{
    let mut bytes: Vec<u8> = Vec::new();
    let mut i: usize = 0;
    while i < registers.len()
        invariant
            i <= registers.len(),
            bytes@.len() == 2 * i,
            forall|m: int|
                0 <= m < 2 * i ==> bytes@[m] == #[trigger] registers_bytes(registers@)[m],
        decreases registers.len() - i,
    {
        push_word(&mut bytes, registers[i]);
        i += 1;
    }
    bytes
}

/// Converts an even number of big-endian bytes to registers. An odd number
/// of bytes is refused with `FrameFault::OddByteCount`.
pub fn bytes_to_registers(bytes: &[u8]) -> (registers: ModbusResult<Vec<u16>>)
    ensures
        bytes@.len() % 2 == 0 ==> (registers matches Ok(r) && r@ == bytes_registers(bytes@)),
        bytes@.len() % 2 != 0 ==> registers == Err::<Vec<u16>, ModbusError>(
            ModbusError::Frame { fault: FrameFault::OddByteCount },
        ),
{
    if bytes.len() % 2 != 0 {
        return Err(ModbusError::Frame { fault: FrameFault::OddByteCount });
    }
    let count: usize = bytes.len() / 2;
    let mut registers: Vec<u16> = Vec::new();
    let mut i: usize = 0;
    while i < count
        invariant
            i <= count,
            count == bytes@.len() / 2,
            bytes@.len() % 2 == 0,
            2 * count <= bytes.len(),
            registers@.len() == i,
            forall|m: int| 0 <= m < i ==> registers@[m] == be_word_at(bytes@, 2 * m),
        decreases count - i,
    {
        registers.push(join_word(bytes[2 * i], bytes[2 * i + 1]));
        i += 1;
    }
    Ok(registers)
}

/// Registers survive the trip through their bytes.
pub proof fn lemma_registers_roundtrip(registers: Seq<u16>)
    ensures
        registers_bytes(registers).len() == 2 * registers.len(),
        bytes_registers(registers_bytes(registers)) == registers,
{
    let bytes = registers_bytes(registers);
    assert forall|i: int| 0 <= i < registers.len() implies bytes_registers(bytes)[i]
        == registers[i] by {
        assert(bytes[2 * i] == hi_byte(registers[i]));
        assert(bytes[2 * i + 1] == lo_byte(registers[i]));
    }
    assert(bytes_registers(bytes) =~= registers);
}

/// An even number of bytes survives the trip through the registers it holds.
pub proof fn lemma_bytes_roundtrip(bytes: Seq<u8>)
    requires
        bytes.len() % 2 == 0,
    ensures
        registers_bytes(bytes_registers(bytes)) == bytes,
{
    let registers = bytes_registers(bytes);
    assert forall|m: int| 0 <= m < bytes.len() implies registers_bytes(registers)[m]
        == bytes[m] by {
        let i = m / 2;
        assert(registers[i] == word_of(bytes[2 * i], bytes[2 * i + 1]));
    }
    assert(registers_bytes(registers) =~= bytes);
}

/// The byte in which one bit is set is the weight of that bit.
proof fn lemma_shift_weight(k: u8)
    requires
        k < 8,
    ensures
        (1u8 << k) as int == bit_weight(k as int),
{
    assert(k < 8 ==> (k == 0 ==> 1u8 << k == 1) && (k == 1 ==> 1u8 << k == 2) && (k == 2 ==> 1u8
        << k == 4) && (k == 3 ==> 1u8 << k == 8) && (k == 4 ==> 1u8 << k == 16) && (k == 5 ==> 1u8
        << k == 32) && (k == 6 ==> 1u8 << k == 64) && (k == 7 ==> 1u8 << k == 128))
        by (bit_vector);
}

/// Setting a bit above every bit that is set adds the weight of that bit.
proof fn lemma_set_bit(byte: u8, k: u8)
    requires
        k < 8,
        (byte as int) < bit_weight(k as int),
    ensures
        (byte | (1u8 << k)) as int == byte + bit_weight(k as int),
{
    lemma_shift_weight(k);
    assert(k < 8 && byte < (1u8 << k) ==> (byte | (1u8 << k)) == byte + (1u8 << k))
        by (bit_vector);
}

/// Testing a bit with a mask agrees with `bit_of`.
proof fn lemma_test_bit(byte: u8, k: u8)
    requires
        k < 8,
    ensures
        (byte & (1u8 << k) != 0) == bit_of(byte, k as int),
{
    lemma_shift_weight(k);
    assert(k < 8 ==> ((byte & (1u8 << k) != 0) == ((byte / (1u8 << k)) % 2 == 1)))
        by (bit_vector);
}

/// The value of the lowest `k` bits of byte `j` of the packed form.
spec fn packed_partial(bits: Seq<bool>, j: int, k: int) -> int
    decreases k,
{
    if k <= 0 {
        0
    } else {
        packed_partial(bits, j, k - 1) + bit_weight(k - 1) * bit_at(bits, 8 * j + k - 1)
    }
}

/// The lowest eight bits are the whole byte.
proof fn lemma_packed_partial_full(bits: Seq<bool>, j: int)
    ensures
        packed_partial(bits, j, 8) == packed_value(bits, j),
        0 <= packed_value(bits, j) < 256,
{
    reveal_with_fuel(packed_partial, 9);
    assert(bit_weight(0) == 1 && bit_weight(1) == 2 && bit_weight(2) == 4 && bit_weight(3) == 8
        && bit_weight(4) == 16 && bit_weight(5) == 32 && bit_weight(6) == 64 && bit_weight(7)
        == 128);
}

/// Bits past the end of the sequence add nothing.
proof fn lemma_packed_partial_past_end(bits: Seq<bool>, j: int, k: int, m: int)
    requires
        0 <= k <= m <= 8,
        8 * j + k >= bits.len(),
    ensures
        packed_partial(bits, j, m) == packed_partial(bits, j, k),
    decreases m - k,
{
    if k < m {
        lemma_packed_partial_past_end(bits, j, k, m - 1);
    }
}

/// Packs bits eight to a byte. Bit 0 of byte 0 holds `bits[0]`; the unused
/// high bits of the last byte are zero.
pub fn pack_bits(bits: &[bool]) -> (bytes: Vec<u8>)
    ensures
        bytes@ == packed_bits(bits@),
{
    let n: usize = bits.len();
    let count: usize = crate::packed_byte_count(n);
    let mut bytes: Vec<u8> = Vec::new();
    let mut j: usize = 0;
    while j < count
        invariant
            n == bits@.len(),
            count == packed_len(n as int),
            j <= count,
            bytes@.len() == j,
            forall|m: int| 0 <= m < j ==> bytes@[m] == packed_value(bits@, m) as u8,
        decreases count - j,
    {
        let base: usize = j * 8;
        let mut byte: u8 = 0;
        let mut k: u8 = 0;
        while k < 8 && (k as usize) < n - base
            invariant
                n == bits@.len(),
                base == 8 * j,
                base < n,
                k <= 8,
                byte as int == packed_partial(bits@, j as int, k as int),
                k < 8 ==> (byte as int) < bit_weight(k as int),
            decreases 8 - k,
        {
            if bits[base + k as usize] {
                proof {
                    lemma_set_bit(byte, k);
                }
                byte = byte | (1u8 << k);
            }
            k += 1;
        }
        proof {
            if k < 8 {
                lemma_packed_partial_past_end(bits@, j as int, k as int, 8);
            }
            lemma_packed_partial_full(bits@, j as int);
        }
        bytes.push(byte);
        j += 1;
    }
    assert(bytes@ =~= packed_bits(bits@));
    bytes
}

/// Unpacks the first `quantity` bits of `bytes`, lowest bit of each byte
/// first. Where `bytes` holds fewer bits, all of them are returned.
pub fn unpack_bits(bytes: &[u8], quantity: usize) -> (bits: Vec<bool>)
    ensures
        bits@ == unpacked_bits(bytes@, quantity as nat),
{
    let mut bits: Vec<bool> = Vec::new();
    let mut i: usize = 0;
    while i < quantity && i / 8 < bytes.len()
        invariant
            i <= quantity,
            i <= 8 * bytes@.len(),
            bits@.len() == i,
            forall|m: int| 0 <= m < i ==> bits@[m] == bit_of(bytes@[m / 8], m % 8),
        decreases quantity - i,
    {
        let byte: u8 = bytes[i / 8];
        let k: u8 = (i % 8) as u8;
        proof {
            lemma_test_bit(byte, k);
        }
        bits.push(byte & (1u8 << k) != 0);
        i += 1;
    }
    assert(bits@ =~= unpacked_bits(bytes@, quantity as nat));
    bits
}

/// Bit `k` of the sum of eight weighted bits is the bit of weight `k`.
proof fn lemma_weighted_bit(b: Seq<u8>, k: int)
    requires
        b.len() == 8,
        0 <= k < 8,
        forall|m: int| 0 <= m < 8 ==> b[m] <= 1,
    ensures
        0 <= b[0] + 2 * b[1] + 4 * b[2] + 8 * b[3] + 16 * b[4] + 32 * b[5] + 64 * b[6] + 128 * b[7]
            < 256,
        ((b[0] + 2 * b[1] + 4 * b[2] + 8 * b[3] + 16 * b[4] + 32 * b[5] + 64 * b[6] + 128 * b[7])
            / bit_weight(k)) % 2 == b[k],
{
    let b0: u8 = b[0];
    let b1: u8 = b[1];
    let b2: u8 = b[2];
    let b3: u8 = b[3];
    let b4: u8 = b[4];
    let b5: u8 = b[5];
    let b6: u8 = b[6];
    let b7: u8 = b[7];
    assert(b0 <= 1 && b1 <= 1 && b2 <= 1 && b3 <= 1 && b4 <= 1 && b5 <= 1 && b6 <= 1 && b7 <= 1 ==> {
        let v = b0 + 2 * b1 + 4 * b2 + 8 * b3 + 16 * b4 + 32 * b5 + 64 * b6 + 128 * b7;
        &&& v < 256
        &&& (v / 1) % 2 == b0
        &&& (v / 2) % 2 == b1
        &&& (v / 4) % 2 == b2
        &&& (v / 8) % 2 == b3
        &&& (v / 16) % 2 == b4
        &&& (v / 32) % 2 == b5
        &&& (v / 64) % 2 == b6
        &&& (v / 128) % 2 == b7
    }) by (bit_vector);
}

/// Bit `k` of a packed byte is the bit that was packed into it.
pub proof fn lemma_packed_bit(bits: Seq<bool>, i: int)
    requires
        0 <= i < bits.len(),
    ensures
        i / 8 < packed_bits(bits).len(),
        bit_of(packed_bits(bits)[i / 8], i % 8) == bits[i],
{
    let j = i / 8;
    let k = i % 8;
    let b = Seq::new(8, |m: int| bit_at(bits, 8 * j + m) as u8);
    lemma_weighted_bit(b, k);
    assert(packed_value(bits, j) == b[0] + 2 * b[1] + 4 * b[2] + 8 * b[3] + 16 * b[4] + 32 * b[5]
        + 64 * b[6] + 128 * b[7]);
    assert(b[k] == bit_at(bits, i));
}

/// Unpacking what was packed, with the number of bits that went in, gives
/// the bits back, whatever their number.
pub proof fn lemma_pack_unpack(bits: Seq<bool>)
    ensures
        unpacked_bits(packed_bits(bits), bits.len()) == bits,
{
    let bytes = packed_bits(bits);
    assert forall|i: int| 0 <= i < bits.len() implies bit_of(bytes[i / 8], i % 8) == bits[i] by {
        lemma_packed_bit(bits, i);
    }
    assert(unpacked_bits(bytes, bits.len()) =~= bits);
}

} // verus!
