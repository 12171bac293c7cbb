use vstd::prelude::*;

verus! {

/// Carry flag (bit 0 of the status register).
pub const CARRY: u8 = 0b0000_0001;

/// Zero flag (bit 1).
pub const ZERO: u8 = 0b0000_0010;

/// Interrupt-disable flag (bit 2).
pub const INTERRUPT: u8 = 0b0000_0100;

/// Decimal-mode flag (bit 3).
pub const DECIMAL: u8 = 0b0000_1000;

/// Overflow flag (bit 6).
pub const OVERFLOW: u8 = 0b0100_0000;

/// Negative flag (bit 7).
pub const NEGETIVE: u8 = 0b1000_0000;

/// Whether every bit of `flag` is set in the status byte `p`.
pub open spec fn flag_set(p: u8, flag: u8) -> bool {
    p & flag == flag
}

/// The status byte `p` with the bits of `flag` set when `on`, cleared otherwise.
pub open spec fn assign_flag(p: u8, flag: u8, on: bool) -> u8 {
    if on {
        p | flag
    } else {
        p & !flag
    }
}

/// Whether `v`, read as a two's complement number, is negative (bit 7 set).
pub open spec fn is_negative(v: u8) -> bool {
    v >= 0x80
}

/// The status byte `p` after a result `v`: ZERO tells whether `v` is zero,
/// NEGATIVE whether `v` is negative; the other bits stay.
pub open spec fn with_nz(p: u8, v: u8) -> u8 {
    assign_flag(assign_flag(p, ZERO, v == 0), NEGETIVE, is_negative(v))
}

/// The carry flag of `p` as a number, 0 or 1.
pub open spec fn carry_in(p: u8) -> int {
    if flag_set(p, CARRY) {
        1
    } else {
        0
    }
}

/// Bit 7 of a byte is set exactly when the byte is negative.
pub proof fn lemma_negative_bit(v: u8)
    ensures
        (v & NEGETIVE == NEGETIVE) == is_negative(v),
{
    assert((v & 0x80u8 == 0x80u8) == (v >= 0x80u8)) by (bit_vector);
}

/// Bit 0 of a byte is set exactly when the byte is odd.
pub proof fn lemma_carry_bit(v: u8)
    ensures
        (v & CARRY == CARRY) == (v % 2 == 1),
{
    assert((v & 1u8 == 1u8) == (v % 2 == 1)) by (bit_vector);
}

/// Setting NEGATIVE before ZERO gives the same byte as `with_nz`.
pub proof fn lemma_nz_order(p: u8, v: u8)
    ensures
        assign_flag(assign_flag(p, NEGETIVE, is_negative(v)), ZERO, v == 0) == with_nz(p, v),
{
    let n = is_negative(v);
    let z = v == 0;
    assert(assign_flag(assign_flag(p, NEGETIVE, n), ZERO, z) == assign_flag(
        assign_flag(p, ZERO, z),
        NEGETIVE,
        n,
    )) by (bit_vector);
}

/// A one-bit flag is clear exactly when it is not set.
pub proof fn lemma_flag_clear(p: u8)
    by (bit_vector)
    ensures
        (p & CARRY == 0) == !flag_set(p, CARRY),
        (p & OVERFLOW == 0) == !flag_set(p, OVERFLOW),
{
}

} // verus!
