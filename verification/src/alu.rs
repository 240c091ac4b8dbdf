//! The arithmetic of the instruction set on single bytes: results and the
//! flags that depend on them.

use vstd::prelude::*;

verus! {

/// The sum of two bytes, wrapped to eight bits.
pub open spec fn sum8(a: u8, b: u8) -> u8 {
    ((a + b) % 256) as u8
}

/// Whether the sum of two bytes carries out of bit 7.
pub open spec fn add_carries(a: u8, b: u8) -> bool {
    a + b > 255
}

/// Whether the sum of two bytes carries out of the low nibble.
pub open spec fn add_digit_carries(a: u8, b: u8) -> bool {
    (a % 16) + (b % 16) > 15
}

/// `a - b`, wrapped to eight bits.
pub open spec fn difference8(a: u8, b: u8) -> u8 {
    ((a - b) % 256) as u8
}

/// Whether `a - b` needs no borrow: the carry flag after a subtraction.
pub open spec fn sub_carries(a: u8, b: u8) -> bool {
    a >= b
}

/// Whether `a - b` needs no borrow into the low nibble: the digit-carry
/// flag after a subtraction.
pub open spec fn sub_digit_carries(a: u8, b: u8) -> bool {
    a % 16 >= b % 16
}

/// A byte with its two nibbles exchanged.
pub open spec fn swapped(f: u8) -> u8 {
    (f << 4) | (f >> 4)
}

/// A byte rotated left through the carry: the carry enters at bit 0.
pub open spec fn rotated_left(f: u8, carry: bool) -> u8 {
    (f << 1) | if carry {
        1u8
    } else {
        0u8
    }
}

/// A byte rotated right through the carry: the carry enters at bit 7.
pub open spec fn rotated_right(f: u8, carry: bool) -> u8 {
    (f >> 1) | if carry {
        0x80u8
    } else {
        0u8
    }
}

/// Adds two bytes; returns the wrapped sum and the carry.
pub fn add_bytes(a: u8, b: u8) -> (r: (u8, bool))
    ensures
        r.0 == sum8(a, b),
        r.1 == add_carries(a, b),
{
    (a.wrapping_add(b), a > 255 - b)
}

/// Subtracts `b` from `a`; returns the wrapped difference, the carry (set
/// where no borrow was needed) and the digit carry (set where the low nibble
/// needed none).
pub fn sub_bytes(a: u8, b: u8) -> (r: (u8, bool, bool))
    ensures
        r.0 == difference8(a, b),
        r.1 == sub_carries(a, b),
        r.2 == sub_digit_carries(a, b),
{
    let difference = a.wrapping_sub(b);
    (difference, a >= b, a % 16 >= b % 16)
}

/// Adds one to a byte; 255 wraps to 0.
pub fn increment(f: u8) -> (r: u8)
    ensures
        r == sum8(f, 1),
{
    f.wrapping_add(1)
}

/// Subtracts one from a byte; 0 wraps to 255.
pub fn decrement(f: u8) -> (r: u8)
    ensures
        r == difference8(f, 1),
{
    f.wrapping_sub(1)
}

/// Exchanges the nibbles of a byte.
pub fn swap_nibbles(f: u8) -> (r: u8)
    ensures
        r == swapped(f),
{
    (f << 4) | (f >> 4)
}

/// Rotates a byte left through the carry; returns the byte and the new
/// carry, which is the old bit 7.
pub fn rotate_left(f: u8, carry: bool) -> (r: (u8, bool))
    ensures
        r.0 == rotated_left(f, carry),
        r.1 == crate::bits::bit_is_set(f, 7),
{
    let low: u8 = if carry {
        1
    } else {
        0
    };
    ((f << 1) | low, crate::bits::get_bit(f, 7))
}

/// Rotates a byte right through the carry; returns the byte and the new
/// carry, which is the old bit 0.
pub fn rotate_right(f: u8, carry: bool) -> (r: (u8, bool))
    ensures
        r.0 == rotated_right(f, carry),
        r.1 == crate::bits::bit_is_set(f, 0),
{
    let high: u8 = if carry {
        0x80
    } else {
        0
    };
    ((f >> 1) | high, crate::bits::get_bit(f, 0))
}

/// Exchanging the nibbles of a byte twice gives the byte back.
pub proof fn lemma_swap_twice(f: u8)
    ensures
        swapped(swapped(f)) == f,
{
    assert(((((f << 4) | (f >> 4)) << 4) | (((f << 4) | (f >> 4)) >> 4)) == f) by (bit_vector);
}

/// Complementing a byte twice gives the byte back.
pub proof fn lemma_complement_twice(f: u8)
    ensures
        !(!f) == f,
{
    assert(!(!f) == f) by (bit_vector);
}

/// The complement of a byte is zero exactly where the byte is all ones.
pub proof fn lemma_complement_zero(f: u8)
    ensures
        (!f == 0) == (f == 0xFF),
{
    assert((!f == 0) == (f == 0xFF)) by (bit_vector);
}

} // verus!
