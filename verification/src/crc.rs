//! The checksum of RTU frames: CRC-16 with the reflected polynomial 0xA001
//! and the initial value 0xFFFF, computed bit by bit.

use vstd::prelude::*;
use crate::data_utils::{hi_byte, lo_byte};

verus! {

/// The initial value of the checksum register.
pub const CRC_INIT: u16 = 0xFFFF;

/// The reflected generator polynomial.
pub const CRC_POLY: u16 = 0xA001;

/// One shift of the checksum register: the lowest bit leaves, and the
/// polynomial is added where that bit was set.
pub open spec fn crc_shift(crc: u16) -> u16 {
    if crc & 1 == 1 {
        (crc >> 1) ^ 0xA001
    } else {
        crc >> 1
    }
}

/// The checksum register after one more byte: the byte is added to the low
/// half, then the register is shifted eight times.
pub open spec fn crc_update(crc: u16, byte: u8) -> u16 {
    crc_shift(
        crc_shift(
            crc_shift(crc_shift(crc_shift(crc_shift(crc_shift(crc_shift(crc ^ (byte as u16))))))),
        ),
    )
}

/// The checksum register after `bytes`, starting from `crc`.
pub open spec fn crc_fold(crc: u16, bytes: Seq<u8>) -> u16
    decreases bytes.len(),
{
    if bytes.len() == 0 {
        crc
    } else {
        crc_update(crc_fold(crc, bytes.drop_last()), bytes.last())
    }
}

/// The checksum of `bytes`.
pub open spec fn crc16_of(bytes: Seq<u8>) -> u16 {
    crc_fold(0xFFFF, bytes)
}

/// A checksum as the two bytes that go on the wire, the low byte first.
pub open spec fn crc_bytes(crc: u16) -> Seq<u8> {
    seq![lo_byte(crc), hi_byte(crc)]
}

/// Shifts the checksum register once.
fn shift(crc: u16) -> (next: u16)
    ensures
        next == crc_shift(crc),
{
    if crc & 1 == 1 {
        (crc >> 1) ^ CRC_POLY
    } else {
        crc >> 1
    }
}

/// Feeds one byte to the checksum register.
pub fn update(crc: u16, byte: u8) -> (next: u16)
    ensures
        next == crc_update(crc, byte),
{
    let x: u16 = crc ^ (byte as u16);
    shift(shift(shift(shift(shift(shift(shift(shift(x))))))))
}

/// Computes the checksum of `bytes`.
pub fn crc16(bytes: &[u8]) -> (crc: u16)
    ensures
        crc == crc16_of(bytes@),
{
    let mut crc: u16 = CRC_INIT;
    let mut i: usize = 0;
    while i < bytes.len()
        invariant
            i <= bytes.len(),
            crc == crc_fold(0xFFFF, bytes@.take(i as int)),
        decreases bytes.len() - i,
    {
        assert(bytes@.take(i + 1).drop_last() =~= bytes@.take(i as int));
        crc = update(crc, bytes[i]);
        i += 1;
    }
    assert(bytes@.take(i as int) =~= bytes@);
    crc
}

/// The checksum of a concatenation continues from the checksum of its
/// first part.
pub proof fn lemma_crc_concat(crc: u16, first: Seq<u8>, second: Seq<u8>)
    ensures
        crc_fold(crc, first + second) == crc_fold(crc_fold(crc, first), second),
    decreases second.len(),
{
    if second.len() == 0 {
        assert(first + second =~= first);
    } else {
        lemma_crc_concat(crc, first, second.drop_last());
        assert((first + second).drop_last() =~= first + second.drop_last());
    }
}

/// A register whose low bit is clear is only shifted.
proof fn lemma_shift_aligned(high: u16, k: u16)
    requires
        high < 256,
        k < 8,
    ensures
        crc_shift(high << ((8 - k) as u16)) == high << ((7 - k) as u16),
{
    assert(high < 256 && k < 8 ==> crc_shift(high << ((8 - k) as u16)) == high << ((7 - k) as u16))
        by (bit_vector);
}

/// Feeding a checksum register its own two bytes, low byte first, clears it.
pub proof fn lemma_crc_cancels(crc: u16)
    ensures
        crc_update(crc_update(crc, lo_byte(crc)), hi_byte(crc)) == 0,
{
    let lo: u8 = lo_byte(crc);
    let hi: u8 = hi_byte(crc);
    let high: u16 = crc >> 8;
    assert((crc >> 8) < 256 && crc ^ (((crc % 256) as u8) as u16) == (crc >> 8) << 8u16 && (crc >> 8) << 0u16
        == crc >> 8 && (crc >> 8) ^ (((crc / 256) as u8) as u16) == 0) by (bit_vector);
    lemma_shift_aligned(high, 0);
    lemma_shift_aligned(high, 1);
    lemma_shift_aligned(high, 2);
    lemma_shift_aligned(high, 3);
    lemma_shift_aligned(high, 4);
    lemma_shift_aligned(high, 5);
    lemma_shift_aligned(high, 6);
    lemma_shift_aligned(high, 7);
    assert(crc_update(crc, lo) == high);
    assert(crc_shift(0) == 0) by (bit_vector);
}

/// The checksum of bytes followed by their own checksum, low byte first, is
/// zero.
pub proof fn lemma_crc_residue(bytes: Seq<u8>)
    ensures
        crc16_of(bytes + crc_bytes(crc16_of(bytes))) == 0,
{
    let crc = crc16_of(bytes);
    let tail = crc_bytes(crc);
    lemma_crc_concat(0xFFFF, bytes, tail);
    assert(tail.drop_last() =~= seq![lo_byte(crc)]);
    assert(tail.drop_last().drop_last() =~= Seq::<u8>::empty());
    reveal_with_fuel(crc_fold, 3);
    lemma_crc_cancels(crc);
}

/// Two registers that differ still differ after one shift.
proof fn lemma_shift_keeps_difference(a: u16, b: u16)
    ensures
        a != b ==> crc_shift(a) != crc_shift(b),
{
    assert(a != b ==> crc_shift(a) != crc_shift(b)) by (bit_vector);
}

/// Two registers that differ still differ after eight shifts.
proof fn lemma_shifts_keep_difference(a: u16, b: u16)
    requires
        a != b,
    ensures
        crc_shift(
            crc_shift(crc_shift(crc_shift(crc_shift(crc_shift(crc_shift(crc_shift(a))))))),
        ) != crc_shift(
            crc_shift(crc_shift(crc_shift(crc_shift(crc_shift(crc_shift(crc_shift(b))))))),
        ),
{
    let a1 = crc_shift(a);
    let b1 = crc_shift(b);
    lemma_shift_keeps_difference(a, b);
    let a2 = crc_shift(a1);
    let b2 = crc_shift(b1);
    lemma_shift_keeps_difference(a1, b1);
    let a3 = crc_shift(a2);
    let b3 = crc_shift(b2);
    lemma_shift_keeps_difference(a2, b2);
    let a4 = crc_shift(a3);
    let b4 = crc_shift(b3);
    lemma_shift_keeps_difference(a3, b3);
    let a5 = crc_shift(a4);
    let b5 = crc_shift(b4);
    lemma_shift_keeps_difference(a4, b4);
    let a6 = crc_shift(a5);
    let b6 = crc_shift(b5);
    lemma_shift_keeps_difference(a5, b5);
    let a7 = crc_shift(a6);
    let b7 = crc_shift(b6);
    lemma_shift_keeps_difference(a6, b6);
    lemma_shift_keeps_difference(a7, b7);
}

/// Two registers that differ still differ after the same byte.
pub proof fn lemma_update_keeps_difference(a: u16, b: u16, byte: u8)
    requires
        a != b,
    ensures
        crc_update(a, byte) != crc_update(b, byte),
{
    let x: u16 = byte as u16;
    assert(a != b ==> a ^ x != b ^ x) by (bit_vector);
    lemma_shifts_keep_difference(a ^ x, b ^ x);
}

/// One register gives different results for different bytes.
pub proof fn lemma_update_tells_bytes_apart(crc: u16, x: u8, y: u8)
    requires
        x != y,
    ensures
        crc_update(crc, x) != crc_update(crc, y),
{
    assert(x != y ==> crc ^ (x as u16) != crc ^ (y as u16)) by (bit_vector);
    lemma_shifts_keep_difference(crc ^ (x as u16), crc ^ (y as u16));
}

/// Two registers that differ still differ after the same bytes.
pub proof fn lemma_fold_keeps_difference(a: u16, b: u16, bytes: Seq<u8>)
    requires
        a != b,
    ensures
        crc_fold(a, bytes) != crc_fold(b, bytes),
    decreases bytes.len(),
{
    if bytes.len() > 0 {
        lemma_fold_keeps_difference(a, b, bytes.drop_last());
        lemma_update_keeps_difference(
            crc_fold(a, bytes.drop_last()),
            crc_fold(b, bytes.drop_last()),
            bytes.last(),
        );
    }
}

/// Changing one byte changes the checksum.
pub proof fn lemma_crc_detects_changed_byte(bytes: Seq<u8>, at: int, byte: u8)
    requires
        0 <= at < bytes.len(),
        byte != bytes[at],
    ensures
        crc16_of(bytes.update(at, byte)) != crc16_of(bytes),
{
    let changed = bytes.update(at, byte);
    let before = bytes.take(at);
    let after = bytes.skip(at + 1);
    assert(bytes =~= before + seq![bytes[at]] + after);
    assert(changed =~= before + seq![byte] + after);
    let start = crc_fold(0xFFFF, before);
    lemma_crc_concat(0xFFFF, before + seq![bytes[at]], after);
    lemma_crc_concat(0xFFFF, before + seq![byte], after);
    lemma_crc_concat(0xFFFF, before, seq![bytes[at]]);
    lemma_crc_concat(0xFFFF, before, seq![byte]);
    assert(seq![bytes[at]].drop_last() =~= Seq::<u8>::empty());
    assert(seq![byte].drop_last() =~= Seq::<u8>::empty());
    reveal_with_fuel(crc_fold, 2);
    assert(crc_fold(start, seq![bytes[at]]) == crc_update(start, bytes[at]));
    assert(crc_fold(start, seq![byte]) == crc_update(start, byte));
    lemma_update_tells_bytes_apart(start, bytes[at], byte);
    lemma_fold_keeps_difference(crc_update(start, bytes[at]), crc_update(start, byte), after);
}

} // verus!
