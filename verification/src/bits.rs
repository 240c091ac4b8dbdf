//! Single-bit access to bytes and byte access to 16-bit words.

use vstd::prelude::*;

verus! {

/// The byte that has only bit `index` set.
pub open spec fn bit_mask(index: usize) -> u8
    recommends
        index < 8,
{
    1u8 << (index as u8)
}

/// Whether bit `index` of `byte` is set; bit 0 is the least significant one.
pub open spec fn bit_is_set(byte: u8, index: usize) -> bool
    recommends
        index < 8,
{
    byte & bit_mask(index) != 0
}

/// `byte` with bit `index` forced to `value` and every other bit kept.
pub open spec fn with_bit(byte: u8, index: usize, value: bool) -> u8
    recommends
        index < 8,
{
    if value {
        byte | bit_mask(index)
    } else {
        byte & !bit_mask(index)
    }
}

fn mask_of(index: usize) -> (m: u8)
    requires
        index < 8,
    ensures
        m == bit_mask(index),
{
    1u8 << (index as u8)
}

/// Reads bit `index` of `byte`.
pub fn get_bit(byte: u8, index: usize) -> (b: bool)
    requires
        index < 8,
    ensures
        b == bit_is_set(byte, index),
{
    byte & mask_of(index) != 0
}

/// Sets bit `index` of `byte`.
pub fn set_bit(byte: &mut u8, index: usize)
    requires
        index < 8,
    ensures
        *final(byte) == with_bit(*old(byte), index, true),
{
    *byte = *byte | mask_of(index);
}

/// Clears bit `index` of `byte`.
pub fn clear_bit(byte: &mut u8, index: usize)
    requires
        index < 8,
    ensures
        *final(byte) == with_bit(*old(byte), index, false),
{
    *byte = *byte & !mask_of(index);
}

/// Writes `value` to bit `index` of `byte`.
pub fn set_bit_enabled(byte: &mut u8, index: usize, value: bool)
    requires
        index < 8,
    ensures
        *final(byte) == with_bit(*old(byte), index, value),
{
    if value {
        set_bit(byte, index);
    } else {
        clear_bit(byte, index);
    }
}

/// What writing one bit does to the bits of a byte, on the masks.
proof fn lemma_masks(byte: u8, i: u8, j: u8)
    by (bit_vector)
    requires
        i < 8,
        j < 8,
    ensures
        (byte | (1u8 << i)) & (1u8 << i) != 0,
        (byte & !(1u8 << i)) & (1u8 << i) == 0,
        i != j ==> (byte | (1u8 << i)) & (1u8 << j) == byte & (1u8 << j),
        i != j ==> (byte & !(1u8 << i)) & (1u8 << j) == byte & (1u8 << j),
{
}

/// A bit that was written reads back as written.
pub proof fn lemma_written_bit(byte: u8, index: usize, value: bool)
    requires
        index < 8,
    ensures
        bit_is_set(with_bit(byte, index, value), index) == value,
{
    lemma_masks(byte, index as u8, index as u8);
}

/// Writing one bit leaves every other bit as it was.
pub proof fn lemma_other_bit(byte: u8, index: usize, value: bool, other: usize)
    requires
        index < 8,
        other < 8,
        other != index,
    ensures
        bit_is_set(with_bit(byte, index, value), other) == bit_is_set(byte, other),
{
    lemma_masks(byte, index as u8, other as u8);
}

/// The upper eight bits of `word`.
pub open spec fn high_byte(word: u16) -> u8 {
    ((word >> 8) & 0xFF) as u8
}

/// The lower eight bits of `word`.
pub open spec fn low_byte(word: u16) -> u8 {
    (word & 0xFF) as u8
}

/// Returns the upper eight bits of `word`.
pub fn get_high_byte(word: u16) -> (b: u8)
    ensures
        b == high_byte(word),
{
    ((word >> 8) & 0xFF) as u8
}

/// Returns the lower eight bits of `word`.
pub fn get_low_byte(word: u16) -> (b: u8)
    ensures
        b == low_byte(word),
{
    (word & 0xFF) as u8
}

} // verus!
