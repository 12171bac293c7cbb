use vstd::prelude::*;
use crate::flags::{carry_in, is_negative, CARRY, NEGETIVE};

verus! {

/// A byte read as a two's complement number.
pub open spec fn signed_value(v: u8) -> int {
    if v < 0x80 {
        v as int
    } else {
        v - 0x100
    }
}

/// The low byte of `a + m + c`.
pub open spec fn add_result(a: u8, m: u8, c: int) -> u8 {
    ((a + m + c) % 0x100) as u8
}

/// Whether `a + m + c` does not fit in a byte.
pub open spec fn add_carries(a: u8, m: u8, c: int) -> bool {
    a + m + c > 0xFF
}

/// Whether the signed sum of `a`, `m` and `c` leaves the range of a signed byte.
pub open spec fn add_overflows(a: u8, m: u8, c: int) -> bool {
    let s = signed_value(a) + signed_value(m) + c;
    s < -0x80 || s > 0x7F
}

/// The low byte of `a - m - (1 - c)`: subtraction with the carry as inverted borrow.
pub open spec fn sub_result(a: u8, m: u8, c: int) -> u8 {
    ((a - m - (1 - c)) % 0x100) as u8
}

/// Whether `a - m - (1 - c)` needs no borrow.
pub open spec fn sub_carries(a: u8, m: u8, c: int) -> bool {
    a - m - (1 - c) >= 0
}

/// Whether the signed difference leaves the range of a signed byte.
pub open spec fn sub_overflows(a: u8, m: u8, c: int) -> bool {
    let d = signed_value(a) - signed_value(m) - (1 - c);
    d < -0x80 || d > 0x7F
}

/// `v` shifted left by one bit, bit 7 dropped.
pub open spec fn shift_left(v: u8) -> u8 {
    ((2 * v) % 0x100) as u8
}

/// `v` shifted right by one bit.
pub open spec fn shift_right(v: u8) -> u8 {
    v / 2
}

/// `v` shifted left with `c` entering at bit 0.
pub open spec fn rotate_left(v: u8, c: int) -> u8 {
    ((2 * v + c) % 0x100) as u8
}

/// `v` shifted right with `c` entering at bit 7.
pub open spec fn rotate_right(v: u8, c: int) -> u8 {
    (v / 2 + 0x80 * c) as u8
}

/// The carry bit of a status byte, as the low bit of the byte.
pub proof fn lemma_carry_in(p: u8)
    by (bit_vector)
    ensures
        carry_in(p) == (p & CARRY) as int,
        (p & CARRY) <= 1,
{
}

/// What the byte-wise addition with carry computes.
pub proof fn lemma_add_bits(a: u8, m: u8, c: u8, sum: u16, r: u8)
    by (bit_vector)
    requires
        c <= 1,
        sum == a as u16 + m as u16 + c as u16,
        r == sum as u8,
    ensures
        r == add_result(a, m, c as int),
        (sum > 0xFF) == add_carries(a, m, c as int),
        (((a ^ r) & (m ^ r) & 0x80) != 0) == add_overflows(a, m, c as int),
{
}

/// What the byte-wise subtraction with borrow computes: it adds the complement of `m`.
pub proof fn lemma_sub_bits(a: u8, m: u8, c: u8, sum: u16, r: u8)
    by (bit_vector)
    requires
        c <= 1,
        sum == a as u16 + (m ^ 0xFF) as u16 + c as u16,
        r == sum as u8,
    ensures
        r == sub_result(a, m, c as int),
        (sum > 0xFF) == sub_carries(a, m, c as int),
        (((a ^ r) & (a ^ m) & 0x80) != 0) == sub_overflows(a, m, c as int),
{
}

/// The shifts and rotations, written with the bit operators.
pub proof fn lemma_shift_bits(v: u8, p: u8)
    by (bit_vector)
    ensures
        v << 1u8 == shift_left(v),
        v >> 1u8 == shift_right(v),
        (v << 1u8) | (p & CARRY) == rotate_left(v, carry_in(p)),
        (v >> 1u8) | ((p & CARRY) << 7u8) == rotate_right(v, carry_in(p)),
        (v >> 1u8) | ((p << 7u8) & NEGETIVE) == rotate_right(v, carry_in(p)),
        (v & NEGETIVE == NEGETIVE) == is_negative(v),
        (v & CARRY == CARRY) == (v % 2 == 1),
{
}

} // verus!
