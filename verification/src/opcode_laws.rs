//! What single instructions do, stated over the raw bytes of the machine: the opcode at
//! the program counter, its operand bytes, the registers and the status bits (carry
//! 0x01, zero 0x02, interrupt 0x04, decimal 0x08, overflow 0x40, negative 0x80).
use vstd::prelude::*;
use crate::alu::{
    add_carries, add_overflows, add_result, lemma_carry_in, rotate_left, rotate_right, shift_left,
    shift_right, sub_carries, sub_overflows, sub_result,
};
use crate::flags::{assign_flag, carry_in, is_negative, with_nz, CARRY, DECIMAL, INTERRUPT, NEGETIVE, OVERFLOW, ZERO};
use crate::isa::AddressingMode;
use crate::semantics::{add_status, bit_status, compare_status, step_outcome, sub_status};
use crate::state::{group_wrap, word_at, wrap16, wrap8, CpuState};

verus! {

broadcast use group_wrap;

/// The status bits after a result `r` that sets ZERO and NEGATIVE only.
pub(crate) proof fn bits_result(p: u8, r: u8)
    by (bit_vector)
    ensures
        (with_nz(p, r) & 0x02 == 0x02) == (r == 0),
        (with_nz(p, r) & 0x80 == 0x80) == (r >= 0x80),
        with_nz(p, r) & 0x7D == p & 0x7D,
{
}

/// The status bits after an addition or subtraction: CARRY, OVERFLOW, then ZERO and
/// NEGATIVE from the result.
pub(crate) proof fn bits_arith(p: u8, cy: bool, ov: bool, r: u8)
    by (bit_vector)
    ensures
        ({
            let q = with_nz(assign_flag(assign_flag(p, CARRY, cy), OVERFLOW, ov), r);
            &&& (q & 0x01 == 0x01) == cy
            &&& (q & 0x40 == 0x40) == ov
            &&& (q & 0x02 == 0x02) == (r == 0)
            &&& (q & 0x80 == 0x80) == (r >= 0x80)
            &&& q & 0x3C == p & 0x3C
        }),
{
}

/// The status bits after a shift, rotation or comparison: CARRY and ZERO, NEGATIVE from
/// the result, in either order.
pub(crate) proof fn bits_carry_result(p: u8, cy: bool, r: u8)
    by (bit_vector)
    ensures
        ({
            let q = with_nz(assign_flag(p, CARRY, cy), r);
            &&& (q & 0x01 == 0x01) == cy
            &&& (q & 0x02 == 0x02) == (r == 0)
            &&& (q & 0x80 == 0x80) == (r >= 0x80)
            &&& q & 0x7C == p & 0x7C
        }),
        ({
            let q = assign_flag(with_nz(p, r), CARRY, cy);
            &&& (q & 0x01 == 0x01) == cy
            &&& (q & 0x02 == 0x02) == (r == 0)
            &&& (q & 0x80 == 0x80) == (r >= 0x80)
            &&& q & 0x7C == p & 0x7C
        }),
{
}

/// The status bits after BIT.
pub(crate) proof fn bits_test(p: u8, z: bool, n: bool, v: bool)
    by (bit_vector)
    ensures
        ({
            let q = assign_flag(assign_flag(assign_flag(p, ZERO, z), NEGETIVE, n), OVERFLOW, v);
            &&& (q & 0x02 == 0x02) == z
            &&& (q & 0x80 == 0x80) == n
            &&& (q & 0x40 == 0x40) == v
            &&& q & 0x3D == p & 0x3D
        }),
{
}

/// The status bytes after the instructions that set or clear one flag.
proof fn bits_single(p: u8)
    by (bit_vector)
    ensures
        assign_flag(p, CARRY, false) == p & 0xFE,
        assign_flag(p, CARRY, true) == p | 0x01,
        assign_flag(p, INTERRUPT, false) == p & 0xFB,
        assign_flag(p, INTERRUPT, true) == p | 0x04,
        assign_flag(p, OVERFLOW, false) == p & 0xBF,
        assign_flag(p, DECIMAL, true) == p | 0x08,
{
}

/// The signed overflow of a byte addition happens exactly when both operands have the
/// same sign and the result's sign differs from it.
pub(crate) proof fn overflow_sign_rule(a: u8, m: u8, c: int)
    requires
        0 <= c <= 1,
    ensures
        ({
            let sa = if a < 0x80 { a as int } else { a - 0x100 };
            let sm = if m < 0x80 { m as int } else { m - 0x100 };
            let r = (a + m + c) % 0x100;
            (sa + sm + c < -0x80 || sa + sm + c > 0x7F) == ((a < 0x80) == (m < 0x80) && (r
                < 0x80) != (a < 0x80))
        }),
{
}

/// ADC #imm (0x69) adds the operand byte and the carry to A: A becomes the sum modulo
/// 256, CARRY tells whether the sum exceeds 255, OVERFLOW whether A and the operand have
/// the same sign and the result the other one (whatever OVERFLOW was before), ZERO and
/// NEGATIVE follow the result; the program counter moves past the operand and nothing
/// else changes.
#[verifier::spinoff_prover]
#[verifier::rlimit(40)]
pub proof fn law_adc_immediate(s: CpuState)
    requires
        s.valid(),
        s.pc < 0xFFFD,
        s.mem[s.pc as int] == 0x69,
    ensures
        ({
            let m = s.mem[s.pc + 1];
            let c = (s.status & 0x01) as int;
            let sum = s.a + m + c;
            &&& step_outcome(s) matches Some((t, halted))
            &&& !halted
            &&& t.a as int == sum % 0x100
            &&& (t.status & 0x01 == 0x01) == (sum > 0xFF)
            &&& (t.status & 0x40 == 0x40) == ((s.a < 0x80) == (m < 0x80) && (t.a < 0x80) != (
            s.a < 0x80))
            &&& (t.status & 0x02 == 0x02) == (t.a == 0)
            &&& (t.status & 0x80 == 0x80) == (t.a >= 0x80)
            &&& t.status & 0x3C == s.status & 0x3C
            &&& t.pc == s.pc + 2
            &&& t.x == s.x && t.y == s.y && t.sp == s.sp && t.mem == s.mem
        }),
{
    let m = s.mem[s.pc + 1];
    let c = (s.status & 0x01) as int;
    lemma_carry_in(s.status);
    overflow_sign_rule(s.a, m, c);
    let s1 = s.with_pc(wrap16(s.pc + 1));
    assert(s1.operand_address(AddressingMode::Immediate) == Some(((s.pc + 1) as u16, (s.pc + 2) as u16)));
    assert(carry_in(s.status) == c);
    let r = add_result(s.a, m, c);
    assert(step_outcome(s) == Some((CpuState { a: r, status: add_status(s.status, s.a, m, c), pc: (s.pc + 2) as u16, ..s }, false)));
    bits_arith(s.status, add_carries(s.a, m, c), add_overflows(s.a, m, c), r);
}

/// The signed overflow of a byte subtraction happens exactly when the operands have
/// different signs and the result's sign differs from the minuend's.
pub(crate) proof fn overflow_sign_rule_sub(a: u8, m: u8, c: int)
    requires
        0 <= c <= 1,
    ensures
        ({
            let sa = if a < 0x80 { a as int } else { a - 0x100 };
            let sm = if m < 0x80 { m as int } else { m - 0x100 };
            let r = (a - m - (1 - c)) % 0x100;
            (sa - sm - (1 - c) < -0x80 || sa - sm - (1 - c) > 0x7F) == ((a < 0x80) != (m
                < 0x80) && (r < 0x80) != (a < 0x80))
        }),
{
}

/// SBC #imm (0xE9) subtracts the operand byte and the borrow (CARRY clear) from A: A
/// becomes the difference modulo 256, CARRY tells whether no borrow was needed, OVERFLOW
/// whether A and the operand have different signs and the result's sign differs from
/// A's, ZERO and NEGATIVE follow the result; nothing else but the program counter changes.
#[verifier::spinoff_prover]
#[verifier::rlimit(40)]
pub proof fn law_sbc_immediate(s: CpuState)
    requires
        s.valid(),
        s.pc < 0xFFFD,
        s.mem[s.pc as int] == 0xE9,
    ensures
        ({
            let m = s.mem[s.pc + 1];
            let c = (s.status & 0x01) as int;
            let diff = s.a - m - (1 - c);
            &&& step_outcome(s) matches Some((t, halted))
            &&& !halted
            &&& t.a as int == diff % 0x100
            &&& (t.status & 0x01 == 0x01) == (diff >= 0)
            &&& (t.status & 0x40 == 0x40) == ((s.a < 0x80) != (m < 0x80) && (t.a < 0x80) != (
            s.a < 0x80))
            &&& (t.status & 0x02 == 0x02) == (t.a == 0)
            &&& (t.status & 0x80 == 0x80) == (t.a >= 0x80)
            &&& t.status & 0x3C == s.status & 0x3C
            &&& t.pc == s.pc + 2
            &&& t.x == s.x && t.y == s.y && t.sp == s.sp && t.mem == s.mem
        }),
{
    let m = s.mem[s.pc + 1];
    let c = (s.status & 0x01) as int;
    lemma_carry_in(s.status);
    overflow_sign_rule_sub(s.a, m, c);
    let s1 = s.with_pc(wrap16(s.pc + 1));
    assert(s1.operand_address(AddressingMode::Immediate) == Some(((s.pc + 1) as u16, (s.pc + 2) as u16)));
    assert(carry_in(s.status) == c);
    let r = sub_result(s.a, m, c);
    assert(step_outcome(s) == Some((CpuState { a: r, status: sub_status(s.status, s.a, m, c), pc: (s.pc + 2) as u16, ..s }, false)));
    bits_arith(s.status, sub_carries(s.a, m, c), sub_overflows(s.a, m, c), r);
}

/// AND #imm (0x29), ORA #imm (0x09) and EOR #imm (0x49) combine A with the operand byte
/// bit by bit; ZERO and NEGATIVE follow the result and the other flags stay.
#[verifier::spinoff_prover]
#[verifier::rlimit(40)]
pub proof fn law_logic_immediate(s: CpuState)
    requires
        s.valid(),
        s.pc < 0xFFFD,
        s.mem[s.pc as int] == 0x29 || s.mem[s.pc as int] == 0x09 || s.mem[s.pc as int] == 0x49,
    ensures
        ({
            let op = s.mem[s.pc as int];
            let m = s.mem[s.pc + 1];
            &&& step_outcome(s) matches Some((t, halted))
            &&& !halted
            &&& t.a == (if op == 0x29 { s.a & m } else if op == 0x09 { s.a | m } else { s.a ^ m })
            &&& (t.status & 0x02 == 0x02) == (t.a == 0)
            &&& (t.status & 0x80 == 0x80) == (t.a >= 0x80)
            &&& t.status & 0x7D == s.status & 0x7D
            &&& t.pc == s.pc + 2
            &&& t.x == s.x && t.y == s.y && t.sp == s.sp && t.mem == s.mem
        }),
{
    let op = s.mem[s.pc as int];
    let m = s.mem[s.pc + 1];
    let s1 = s.with_pc(wrap16(s.pc + 1));
    assert(s1.operand_address(AddressingMode::Immediate) == Some(((s.pc + 1) as u16, (s.pc + 2) as u16)));
    let r = if op == 0x29 { s.a & m } else if op == 0x09 { s.a | m } else { s.a ^ m };
    assert(step_outcome(s) == Some((CpuState { a: r, status: with_nz(s.status, r), pc: (s.pc + 2) as u16, ..s }, false)));
    bits_result(s.status, r);
}

/// LDA #imm (0xA9), LDX #imm (0xA2) and LDY #imm (0xA0) load the operand byte into
/// their register; ZERO and NEGATIVE follow it, the other flags and registers stay.
#[verifier::spinoff_prover]
#[verifier::rlimit(40)]
pub proof fn law_load_immediate(s: CpuState)
    requires
        s.valid(),
        s.pc < 0xFFFD,
        s.mem[s.pc as int] == 0xA9 || s.mem[s.pc as int] == 0xA2 || s.mem[s.pc as int] == 0xA0,
    ensures
        ({
            let op = s.mem[s.pc as int];
            let m = s.mem[s.pc + 1];
            &&& step_outcome(s) matches Some((t, halted))
            &&& !halted
            &&& t.a == (if op == 0xA9 { m } else { s.a })
            &&& t.x == (if op == 0xA2 { m } else { s.x })
            &&& t.y == (if op == 0xA0 { m } else { s.y })
            &&& (t.status & 0x02 == 0x02) == (m == 0)
            &&& (t.status & 0x80 == 0x80) == (m >= 0x80)
            &&& t.status & 0x7D == s.status & 0x7D
            &&& t.pc == s.pc + 2
            &&& t.sp == s.sp && t.mem == s.mem
        }),
{
    let op = s.mem[s.pc as int];
    let m = s.mem[s.pc + 1];
    let s1 = s.with_pc(wrap16(s.pc + 1));
    assert(s1.operand_address(AddressingMode::Immediate) == Some(((s.pc + 1) as u16, (s.pc + 2) as u16)));
    bits_result(s.status, m);
}

/// CMP #imm (0xC9), CPX #imm (0xE0) and CPY #imm (0xC0) compare their register `r` with
/// the operand byte `m`: CARRY when `r >= m`, ZERO when `r == m`, NEGATIVE from bit 7 of
/// `r - m` modulo 256; no register changes and the other flags stay.
#[verifier::spinoff_prover]
#[verifier::rlimit(40)]
pub proof fn law_compare_immediate(s: CpuState)
    requires
        s.valid(),
        s.pc < 0xFFFD,
        s.mem[s.pc as int] == 0xC9 || s.mem[s.pc as int] == 0xE0 || s.mem[s.pc as int] == 0xC0,
    ensures
        ({
            let op = s.mem[s.pc as int];
            let m = s.mem[s.pc + 1];
            let r = if op == 0xC9 { s.a } else if op == 0xE0 { s.x } else { s.y };
            &&& step_outcome(s) matches Some((t, halted))
            &&& !halted
            &&& (t.status & 0x01 == 0x01) == (r >= m)
            &&& (t.status & 0x02 == 0x02) == (r == m)
            &&& (t.status & 0x80 == 0x80) == ((r - m) % 0x100 >= 0x80)
            &&& t.status & 0x7C == s.status & 0x7C
            &&& t.pc == s.pc + 2
            &&& t.a == s.a && t.x == s.x && t.y == s.y && t.sp == s.sp && t.mem == s.mem
        }),
{
    let op = s.mem[s.pc as int];
    let m = s.mem[s.pc + 1];
    let r = if op == 0xC9 { s.a } else if op == 0xE0 { s.x } else { s.y };
    let s1 = s.with_pc(wrap16(s.pc + 1));
    assert(s1.operand_address(AddressingMode::Immediate) == Some(((s.pc + 1) as u16, (s.pc + 2) as u16)));
    let d = wrap8(r - m);
    assert(d as int == (r - m) % 0x100);
    let expected = CpuState { status: compare_status(s.status, r, m), pc: (s.pc + 2) as u16, ..s };
    if op == 0xC9 {
        assert(step_outcome(s) == Some((expected, false)));
    } else if op == 0xE0 {
        assert(step_outcome(s) == Some((expected, false)));
    } else {
        assert(step_outcome(s) == Some((expected, false)));
    }
    bits_carry_result(s.status, r >= m, d);
}

/// BIT zp (0x24) tests the byte `m` at the zero-page address in the operand: ZERO when
/// `A & m` is zero, NEGATIVE and OVERFLOW copied from bits 7 and 6 of `m` (not of
/// `A & m`); registers, memory and the other flags stay.
#[verifier::spinoff_prover]
#[verifier::rlimit(40)]
pub proof fn law_bit_zero_page(s: CpuState)
    requires
        s.valid(),
        s.pc < 0xFFFD,
        s.mem[s.pc as int] == 0x24,
    ensures
        ({
            let m = s.mem[s.mem[s.pc + 1] as int];
            &&& step_outcome(s) matches Some((t, halted))
            &&& !halted
            &&& (t.status & 0x02 == 0x02) == (s.a & m == 0)
            &&& (t.status & 0x80 == 0x80) == (m & 0x80 == 0x80)
            &&& (t.status & 0x40 == 0x40) == (m & 0x40 == 0x40)
            &&& t.status & 0x3D == s.status & 0x3D
            &&& t.pc == s.pc + 2
            &&& t.a == s.a && t.x == s.x && t.y == s.y && t.sp == s.sp && t.mem == s.mem
        }),
{
    let addr = s.mem[s.pc + 1];
    let m = s.mem[addr as int];
    let s1 = s.with_pc(wrap16(s.pc + 1));
    assert(s1.operand_address(AddressingMode::ZeroPage) == Some((addr as u16, (s.pc + 2) as u16)));
    assert(step_outcome(s) == Some((CpuState { status: bit_status(s.status, s.a, m), pc: (s.pc + 2) as u16, ..s }, false)));
    bits_test(s.status, s.a & m == 0, m >= 0x80, m & 0x40 == 0x40);
    assert((m & 0x80 == 0x80) == (m >= 0x80)) by (bit_vector);
}

/// STA zp (0x85), STX zp (0x86) and STY zp (0x84) store their register at the zero-page
/// address in the operand; STX zp,Y (0x96) and STY (0x94) add Y to that address modulo
/// 256. Registers and flags stay; memory changes in that one byte only.
#[verifier::spinoff_prover]
#[verifier::rlimit(40)]
pub proof fn law_store_zero_page(s: CpuState)
    requires
        s.valid(),
        s.pc < 0xFFFD,
        s.mem[s.pc as int] == 0x85 || s.mem[s.pc as int] == 0x86 || s.mem[s.pc as int] == 0x84
            || s.mem[s.pc as int] == 0x96 || s.mem[s.pc as int] == 0x94,
    ensures
        ({
            let op = s.mem[s.pc as int];
            let z = s.mem[s.pc + 1];
            let addr = if op == 0x96 || op == 0x94 { (z + s.y) % 0x100 } else { z as int };
            let v = if op == 0x85 { s.a } else if op == 0x86 || op == 0x96 { s.x } else { s.y };
            &&& step_outcome(s) matches Some((t, halted))
            &&& !halted
            &&& t.mem == s.mem.update(addr, v)
            &&& t.pc == s.pc + 2
            &&& t.a == s.a && t.x == s.x && t.y == s.y && t.sp == s.sp && t.status == s.status
        }),
{
    let op = s.mem[s.pc as int];
    let s1 = s.with_pc(wrap16(s.pc + 1));
    let z = s.mem[s.pc + 1];
    let next = s.with_pc((s.pc + 2) as u16);
    let zy = wrap8(z + s.y);
    assert(zy as int == (z + s.y) % 0x100);
    if op == 0x85 {
        assert(s1.operand_address(AddressingMode::ZeroPage) == Some((z as u16, (s.pc + 2) as u16)));
        assert(step_outcome(s) == Some((next.with_byte(z as u16, s.a), false)));
    } else if op == 0x86 {
        assert(s1.operand_address(AddressingMode::ZeroPage) == Some((z as u16, (s.pc + 2) as u16)));
        assert(step_outcome(s) == Some((next.with_byte(z as u16, s.x), false)));
    } else if op == 0x84 {
        assert(s1.operand_address(AddressingMode::ZeroPage) == Some((z as u16, (s.pc + 2) as u16)));
        assert(step_outcome(s) == Some((next.with_byte(z as u16, s.y), false)));
    } else if op == 0x96 {
        assert(s1.operand_address(AddressingMode::ZeroPageY) == Some((zy as u16, (s.pc + 2) as u16)));
        assert(step_outcome(s) == Some((next.with_byte(zy as u16, s.x), false)));
    } else {
        assert(s1.operand_address(AddressingMode::ZeroPageY) == Some((zy as u16, (s.pc + 2) as u16)));
        assert(step_outcome(s) == Some((next.with_byte(zy as u16, s.y), false)));
    }
}

/// INC zp (0xE6) and DEC zp (0xC6) add or subtract one, modulo 256, to the byte at the
/// zero-page address in the operand; ZERO and NEGATIVE follow the new byte; registers and
/// the other flags stay.
#[verifier::spinoff_prover]
#[verifier::rlimit(40)]
pub proof fn law_inc_dec_zero_page(s: CpuState)
    requires
        s.valid(),
        s.pc < 0xFFFD,
        s.mem[s.pc as int] == 0xE6 || s.mem[s.pc as int] == 0xC6,
    ensures
        ({
            let op = s.mem[s.pc as int];
            let addr = s.mem[s.pc + 1] as int;
            let m = s.mem[addr];
            let r = if op == 0xE6 { (m + 1) % 0x100 } else { (m + 0xFF) % 0x100 };
            &&& step_outcome(s) matches Some((t, halted))
            &&& !halted
            &&& t.mem == s.mem.update(addr, r as u8)
            &&& (t.status & 0x02 == 0x02) == (r == 0)
            &&& (t.status & 0x80 == 0x80) == (r >= 0x80)
            &&& t.status & 0x7D == s.status & 0x7D
            &&& t.pc == s.pc + 2
            &&& t.a == s.a && t.x == s.x && t.y == s.y && t.sp == s.sp
        }),
{
    let op = s.mem[s.pc as int];
    let z = s.mem[s.pc + 1];
    let m = s.mem[z as int];
    let s1 = s.with_pc(wrap16(s.pc + 1));
    assert(s1.operand_address(AddressingMode::ZeroPage) == Some((z as u16, (s.pc + 2) as u16)));
    let next = s.with_pc((s.pc + 2) as u16);
    if op == 0xE6 {
        let r = wrap8(m + 1);
        assert(r as int == (m + 1) % 0x100);
        assert(step_outcome(s) == Some((next.with_byte(z as u16, r).with_status(with_nz(s.status, r)), false)));
        bits_result(s.status, r);
    } else {
        let r = wrap8(m - 1);
        assert(r as int == (m + 0xFF) % 0x100);
        assert(step_outcome(s) == Some((next.with_byte(z as u16, r).with_status(with_nz(s.status, r)), false)));
        bits_result(s.status, r);
    }
}

/// ASL (0x06), LSR (0x46), ROL (0x26) and ROR (0x66) on the byte `m` at the zero-page
/// address in the operand, with `c` the carry before: ASL stores `2m` modulo 256 and
/// moves bit 7 of `m` to CARRY; LSR stores `m / 2` and moves bit 0 to CARRY; ROL stores
/// `2m + c` modulo 256 (the old carry enters bit 0) and moves bit 7 to CARRY; ROR stores
/// `m / 2 + 128c` (the old carry enters bit 7) and moves bit 0 to CARRY. ZERO and
/// NEGATIVE follow the stored byte; registers and the other flags stay.
#[verifier::spinoff_prover]
#[verifier::rlimit(40)]
pub proof fn law_shift_zero_page(s: CpuState)
    requires
        s.valid(),
        s.pc < 0xFFFD,
        s.mem[s.pc as int] == 0x06 || s.mem[s.pc as int] == 0x46 || s.mem[s.pc as int] == 0x26
            || s.mem[s.pc as int] == 0x66,
    ensures
        ({
            let op = s.mem[s.pc as int];
            let addr = s.mem[s.pc + 1] as int;
            let m = s.mem[addr];
            let c = (s.status & 0x01) as int;
            let r = if op == 0x06 {
                (2 * m) % 0x100
            } else if op == 0x46 {
                m as int / 2
            } else if op == 0x26 {
                (2 * m + c) % 0x100
            } else {
                m / 2 + 0x80 * c
            };
            let carry_out = if op == 0x06 || op == 0x26 { m >= 0x80 } else { m % 2 == 1 };
            &&& step_outcome(s) matches Some((t, halted))
            &&& !halted
            &&& t.mem == s.mem.update(addr, r as u8)
            &&& (t.status & 0x01 == 0x01) == carry_out
            &&& (t.status & 0x02 == 0x02) == (r == 0)
            &&& (t.status & 0x80 == 0x80) == (r >= 0x80)
            &&& t.status & 0x7C == s.status & 0x7C
            &&& t.pc == s.pc + 2
            &&& t.a == s.a && t.x == s.x && t.y == s.y && t.sp == s.sp
        }),
{
    let op = s.mem[s.pc as int];
    let z = s.mem[s.pc + 1];
    let m = s.mem[z as int];
    let c = (s.status & 0x01) as int;
    lemma_carry_in(s.status);
    let s1 = s.with_pc(wrap16(s.pc + 1));
    assert(s1.operand_address(AddressingMode::ZeroPage) == Some((z as u16, (s.pc + 2) as u16)));
    let r: u8 = if op == 0x06 {
        shift_left(m)
    } else if op == 0x46 {
        shift_right(m)
    } else if op == 0x26 {
        rotate_left(m, c)
    } else {
        rotate_right(m, c)
    };
    let cy = if op == 0x06 || op == 0x26 { is_negative(m) } else { m % 2 == 1 };
    bits_carry_result(s.status, cy, r);
}

/// The accumulator forms ASL A (0x0A), LSR A (0x4A), ROL A (0x2A) and ROR A (0x6A) do
/// to A what the memory forms do to a byte; memory and the other registers stay.
#[verifier::spinoff_prover]
#[verifier::rlimit(40)]
pub proof fn law_shift_accumulator(s: CpuState)
    requires
        s.valid(),
        s.pc < 0xFFFE,
        s.mem[s.pc as int] == 0x0A || s.mem[s.pc as int] == 0x4A || s.mem[s.pc as int] == 0x2A
            || s.mem[s.pc as int] == 0x6A,
    ensures
        ({
            let op = s.mem[s.pc as int];
            let m = s.a;
            let c = (s.status & 0x01) as int;
            let r = if op == 0x0A {
                (2 * m) % 0x100
            } else if op == 0x4A {
                m as int / 2
            } else if op == 0x2A {
                (2 * m + c) % 0x100
            } else {
                m / 2 + 0x80 * c
            };
            let carry_out = if op == 0x0A || op == 0x2A { m >= 0x80 } else { m % 2 == 1 };
            &&& step_outcome(s) matches Some((t, halted))
            &&& !halted
            &&& t.a as int == r
            &&& (t.status & 0x01 == 0x01) == carry_out
            &&& (t.status & 0x02 == 0x02) == (r == 0)
            &&& (t.status & 0x80 == 0x80) == (r >= 0x80)
            &&& t.status & 0x7C == s.status & 0x7C
            &&& t.pc == s.pc + 1
            &&& t.x == s.x && t.y == s.y && t.sp == s.sp && t.mem == s.mem
        }),
{
    let op = s.mem[s.pc as int];
    let m = s.a;
    let c = (s.status & 0x01) as int;
    lemma_carry_in(s.status);
    let r: u8 = if op == 0x0A {
        shift_left(m)
    } else if op == 0x4A {
        shift_right(m)
    } else if op == 0x2A {
        rotate_left(m, c)
    } else {
        rotate_right(m, c)
    };
    let cy = if op == 0x0A || op == 0x2A { is_negative(m) } else { m % 2 == 1 };
    bits_carry_result(s.status, cy, r);
}

/// INX (0xE8), INY (0xC8), DEX (0xCA) and DEY (0x88) add or subtract one, modulo 256, to
/// X or Y; ZERO and NEGATIVE follow the new value; the rest stays.
#[verifier::spinoff_prover]
#[verifier::rlimit(40)]
pub proof fn law_inc_dec_register(s: CpuState)
    requires
        s.valid(),
        s.pc < 0xFFFE,
        s.mem[s.pc as int] == 0xE8 || s.mem[s.pc as int] == 0xC8 || s.mem[s.pc as int] == 0xCA
            || s.mem[s.pc as int] == 0x88,
    ensures
        ({
            let op = s.mem[s.pc as int];
            let old_v = if op == 0xE8 || op == 0xCA { s.x } else { s.y };
            let r = if op == 0xE8 || op == 0xC8 { (old_v + 1) % 0x100 } else { (old_v + 0xFF) % 0x100 };
            &&& step_outcome(s) matches Some((t, halted))
            &&& !halted
            &&& t.x as int == (if op == 0xE8 || op == 0xCA { r } else { s.x as int })
            &&& t.y as int == (if op == 0xC8 || op == 0x88 { r } else { s.y as int })
            &&& (t.status & 0x02 == 0x02) == (r == 0)
            &&& (t.status & 0x80 == 0x80) == (r >= 0x80)
            &&& t.status & 0x7D == s.status & 0x7D
            &&& t.pc == s.pc + 1
            &&& t.a == s.a && t.sp == s.sp && t.mem == s.mem
        }),
{
    let op = s.mem[s.pc as int];
    let next = s.with_pc((s.pc + 1) as u16);
    assert(wrap8(s.x + 1) as int == (s.x + 1) % 0x100);
    assert(wrap8(s.y + 1) as int == (s.y + 1) % 0x100);
    assert(wrap8(s.x - 1) as int == (s.x + 0xFF) % 0x100);
    assert(wrap8(s.y - 1) as int == (s.y + 0xFF) % 0x100);
    if op == 0xE8 {
        assert(step_outcome(s) == Some((next.load_x(wrap8(s.x + 1)), false)));
        bits_result(s.status, wrap8(s.x + 1));
    } else if op == 0xC8 {
        assert(step_outcome(s) == Some((next.load_y(wrap8(s.y + 1)), false)));
        bits_result(s.status, wrap8(s.y + 1));
    } else if op == 0xCA {
        assert(step_outcome(s) == Some((next.load_x(wrap8(s.x - 1)), false)));
        bits_result(s.status, wrap8(s.x - 1));
    } else {
        assert(step_outcome(s) == Some((next.load_y(wrap8(s.y - 1)), false)));
        bits_result(s.status, wrap8(s.y - 1));
    }
}

/// TAX (0xAA), TAY (0xA8), TXA (0x8A), TYA (0x98) and TSX (0xBA) copy one register into
/// another (A to X, A to Y, X to A, Y to A, the stack pointer to X), with ZERO and
/// NEGATIVE following the copied value; TXS (0x9A) copies X into the stack pointer and
/// leaves the flags. Everything else stays.
#[verifier::spinoff_prover]
#[verifier::rlimit(40)]
pub proof fn law_transfer(s: CpuState)
    requires
        s.valid(),
        s.pc < 0xFFFE,
        s.mem[s.pc as int] == 0xAA || s.mem[s.pc as int] == 0xA8 || s.mem[s.pc as int] == 0x8A
            || s.mem[s.pc as int] == 0x98 || s.mem[s.pc as int] == 0xBA || s.mem[s.pc as int]
            == 0x9A,
    ensures
        ({
            let op = s.mem[s.pc as int];
            let v = if op == 0xAA || op == 0xA8 {
                s.a
            } else if op == 0x8A || op == 0x9A {
                s.x
            } else if op == 0x98 {
                s.y
            } else {
                s.sp
            };
            &&& step_outcome(s) matches Some((t, halted))
            &&& !halted
            &&& t.a == (if op == 0x8A || op == 0x98 { v } else { s.a })
            &&& t.x == (if op == 0xAA || op == 0xBA { v } else { s.x })
            &&& t.y == (if op == 0xA8 { v } else { s.y })
            &&& t.sp == (if op == 0x9A { v } else { s.sp })
            &&& (op == 0x9A ==> t.status == s.status)
            &&& (op != 0x9A ==> (t.status & 0x02 == 0x02) == (v == 0) && (t.status & 0x80 == 0x80)
                == (v >= 0x80) && t.status & 0x7D == s.status & 0x7D)
            &&& t.pc == s.pc + 1
            &&& t.mem == s.mem
        }),
{
    let op = s.mem[s.pc as int];
    let v = if op == 0xAA || op == 0xA8 {
        s.a
    } else if op == 0x8A || op == 0x9A {
        s.x
    } else if op == 0x98 {
        s.y
    } else {
        s.sp
    };
    bits_result(s.status, v);
}

/// CLC (0x18), SEC (0x38), CLI (0x58), SEI (0x78), CLV (0xB8) and SED (0xF8) clear or set
/// one flag (carry, interrupt, overflow, decimal) and leave every other bit; NOP (0xEA)
/// changes nothing. Only the program counter moves besides.
#[verifier::spinoff_prover]
#[verifier::rlimit(40)]
pub proof fn law_flag_instructions(s: CpuState)
    requires
        s.valid(),
        s.pc < 0xFFFE,
        s.mem[s.pc as int] == 0x18 || s.mem[s.pc as int] == 0x38 || s.mem[s.pc as int] == 0x58
            || s.mem[s.pc as int] == 0x78 || s.mem[s.pc as int] == 0xB8 || s.mem[s.pc as int]
            == 0xF8 || s.mem[s.pc as int] == 0xEA,
    ensures
        ({
            let op = s.mem[s.pc as int];
            let p = s.status;
            &&& step_outcome(s) matches Some((t, halted))
            &&& !halted
            &&& t.status == (if op == 0x18 {
                p & 0xFE
            } else if op == 0x38 {
                p | 0x01
            } else if op == 0x58 {
                p & 0xFB
            } else if op == 0x78 {
                p | 0x04
            } else if op == 0xB8 {
                p & 0xBF
            } else if op == 0xF8 {
                p | 0x08
            } else {
                p
            })
            &&& t.pc == s.pc + 1
            &&& t.a == s.a && t.x == s.x && t.y == s.y && t.sp == s.sp && t.mem == s.mem
        }),
{
    bits_single(s.status);
    assert(!is_negative(!NEGETIVE)) by (bit_vector);
    assert(CARRY % 2 == 1);
}

/// How the bit operator reads single flags.
pub(crate) proof fn bits_flag_tests(p: u8)
    by (bit_vector)
    ensures
        (p & 0x01 == 0) == !(p & 0x01 == 0x01),
        (p & 0x02 == 0) == !(p & 0x02 == 0x02),
        (p & 0x40 == 0) == !(p & 0x40 == 0x40),
        (p & 0x80 == 0) == !(p & 0x80 == 0x80),
{
}

/// The conditional branches BCC (0x90), BCS (0xB0), BEQ (0xF0), BNE (0xD0), BMI (0x30),
/// BPL (0x10), BVC (0x50) and BVS (0x70) are taken when, respectively, CARRY is clear,
/// CARRY is set, ZERO is set, ZERO is clear, NEGATIVE is set, NEGATIVE is clear,
/// OVERFLOW is clear, OVERFLOW is set. A taken branch moves the program counter from the
/// offset byte forward by the offset (read unsigned, modulo 65536), and fails when the
/// offset is 0; a branch not taken steps over the offset byte. Nothing else changes.
#[verifier::spinoff_prover]
#[verifier::rlimit(40)]
pub proof fn law_branch(s: CpuState)
    requires
        s.valid(),
        s.pc < 0xFFFD,
        s.mem[s.pc as int] == 0x90 || s.mem[s.pc as int] == 0xB0 || s.mem[s.pc as int] == 0xF0
            || s.mem[s.pc as int] == 0xD0 || s.mem[s.pc as int] == 0x30 || s.mem[s.pc as int]
            == 0x10 || s.mem[s.pc as int] == 0x50 || s.mem[s.pc as int] == 0x70,
    ensures
        ({
            let op = s.mem[s.pc as int];
            let p = s.status;
            let taken = if op == 0x90 {
                p & 0x01 == 0
            } else if op == 0xB0 {
                p & 0x01 == 0x01
            } else if op == 0xF0 {
                p & 0x02 == 0x02
            } else if op == 0xD0 {
                p & 0x02 == 0
            } else if op == 0x30 {
                p & 0x80 == 0x80
            } else if op == 0x10 {
                p & 0x80 == 0
            } else if op == 0x50 {
                p & 0x40 == 0
            } else {
                p & 0x40 == 0x40
            };
            let offset = s.mem[s.pc + 1];
            &&& (taken && offset == 0) ==> step_outcome(s) is None
            &&& !(taken && offset == 0) ==> {
                &&& step_outcome(s) matches Some((t, halted))
                &&& !halted
                &&& t.pc as int == (if taken { (s.pc + 1 + offset) % 0x10000 } else { s.pc + 2 })
                &&& t.a == s.a && t.x == s.x && t.y == s.y && t.sp == s.sp
                &&& t.status == s.status && t.mem == s.mem
            }
        }),
{
    bits_flag_tests(s.status);
}

/// PHA (0x48) and PHP (0x08) move the stack pointer down by one (modulo 256) and store A
/// or the status register at 0x0100 plus the new stack pointer; nothing else changes.
#[verifier::spinoff_prover]
#[verifier::rlimit(40)]
pub proof fn law_push(s: CpuState)
    requires
        s.valid(),
        s.pc < 0xFFFE,
        s.mem[s.pc as int] == 0x48 || s.mem[s.pc as int] == 0x08,
    ensures
        ({
            let v = if s.mem[s.pc as int] == 0x48 { s.a } else { s.status };
            &&& step_outcome(s) matches Some((t, halted))
            &&& !halted
            &&& t.sp as int == (s.sp + 0xFF) % 0x100
            &&& t.mem == s.mem.update(0x100 + t.sp, v)
            &&& t.pc == s.pc + 1
            &&& t.a == s.a && t.x == s.x && t.y == s.y && t.status == s.status
        }),
{
}

/// PLA (0x68) and PLP (0x28) read the byte at 0x0100 plus the stack pointer into A (with
/// ZERO and NEGATIVE following it) or into the status register, and move the stack
/// pointer up by one; they fail when the stack pointer is 0xFF. Memory stays.
#[verifier::spinoff_prover]
#[verifier::rlimit(40)]
pub proof fn law_pull(s: CpuState)
    requires
        s.valid(),
        s.pc < 0xFFFE,
        s.mem[s.pc as int] == 0x68 || s.mem[s.pc as int] == 0x28,
    ensures
        s.sp == 0xFF ==> step_outcome(s) is None,
        s.sp != 0xFF ==> ({
            let op = s.mem[s.pc as int];
            let v = s.mem[0x100 + s.sp];
            &&& step_outcome(s) matches Some((t, halted))
            &&& !halted
            &&& t.sp == s.sp + 1
            &&& (op == 0x68 ==> t.a == v && (t.status & 0x02 == 0x02) == (v == 0) && (t.status
                & 0x80 == 0x80) == (v >= 0x80) && t.status & 0x7D == s.status & 0x7D)
            &&& (op == 0x28 ==> t.status == v && t.a == s.a)
            &&& t.pc == s.pc + 1
            &&& t.x == s.x && t.y == s.y && t.mem == s.mem
        }),
{
    if s.sp != 0xFF {
        bits_result(s.status, s.mem[0x100 + s.sp]);
    }
}

/// JSR (0x20) moves the stack pointer down by two (modulo 256), stores the address of the
/// next instruction (the JSR's own address plus 3) little-endian at 0x0100 plus the new
/// stack pointer, and jumps to the word in its operand. Registers and flags stay.
#[verifier::spinoff_prover]
#[verifier::rlimit(40)]
pub proof fn law_jsr(s: CpuState)
    requires
        s.valid(),
        s.pc < 0xFFFD,
        s.mem[s.pc as int] == 0x20,
    ensures
        ({
            let target = s.mem[s.pc + 1] + 0x100 * s.mem[s.pc + 2];
            let ret = s.pc + 3;
            &&& step_outcome(s) matches Some((t, halted))
            &&& !halted
            &&& t.pc as int == target
            &&& t.sp as int == (s.sp + 0xFE) % 0x100
            &&& t.mem == s.mem.update(0x100 + t.sp, (ret % 0x100) as u8).update(
                0x101 + t.sp,
                (ret / 0x100) as u8,
            )
            &&& t.a == s.a && t.x == s.x && t.y == s.y && t.status == s.status
        }),
{
    let s1 = s.with_pc(wrap16(s.pc + 1));
    assert(s1.operand_address(AddressingMode::Absolute) == Some((word_at(s.mem, s.pc + 1), (s.pc + 3) as u16)));
}

/// RTS (0x60) loads the program counter from the little-endian word at 0x0100 plus the
/// stack pointer and moves the stack pointer up by two (modulo 256); RTI (0x40) first
/// loads the status register from the byte there, then the program counter from the word
/// after it, moving the stack pointer up by three. They fail when a pull would start at
/// stack pointer 0xFF. Registers and memory stay.
#[verifier::spinoff_prover]
#[verifier::rlimit(40)]
pub proof fn law_return(s: CpuState)
    requires
        s.valid(),
        s.pc < 0xFFFE,
        s.mem[s.pc as int] == 0x60 || s.mem[s.pc as int] == 0x40,
    ensures
        ({
            let op = s.mem[s.pc as int];
            let fails = s.sp == 0xFF || (op == 0x40 && s.sp == 0xFE);
            let base = 0x100 + s.sp + (if op == 0x40 { 1int } else { 0 });
            &&& fails ==> step_outcome(s) is None
            &&& !fails ==> {
                &&& step_outcome(s) matches Some((t, halted))
                &&& !halted
                &&& t.pc as int == s.mem[base] + 0x100 * s.mem[base + 1]
                &&& t.sp as int == (s.sp + (if op == 0x40 { 3int } else { 2 })) % 0x100
                &&& t.status == (if op == 0x40 { s.mem[0x100 + s.sp] } else { s.status })
                &&& t.a == s.a && t.x == s.x && t.y == s.y && t.mem == s.mem
            }
        }),
{
}

/// JMP (0x4C) loads the program counter from the word stored at the address that its
/// operand word gives; JMP (0x6C) takes that address from the word at the zero-page
/// address in its operand. The jump fails when that address is 0xFFFF. Registers, flags
/// and memory stay.
#[verifier::spinoff_prover]
#[verifier::rlimit(40)]
pub proof fn law_jmp(s: CpuState)
    requires
        s.valid(),
        s.pc < 0xFFFD,
        s.mem[s.pc as int] == 0x4C || s.mem[s.pc as int] == 0x6C,
    ensures
        ({
            let z = s.mem[s.pc + 1] as int;
            let addr = if s.mem[s.pc as int] == 0x4C {
                z + 0x100 * s.mem[s.pc + 2]
            } else {
                s.mem[z] + 0x100 * s.mem[z + 1]
            };
            &&& addr == 0xFFFF ==> step_outcome(s) is None
            &&& addr != 0xFFFF ==> {
                &&& step_outcome(s) matches Some((t, halted))
                &&& !halted
                &&& t.pc as int == s.mem[addr] + 0x100 * s.mem[addr + 1]
                &&& t.a == s.a && t.x == s.x && t.y == s.y && t.sp == s.sp
                &&& t.status == s.status && t.mem == s.mem
            }
        }),
{
    let s1 = s.with_pc(wrap16(s.pc + 1));
    assert(s1.operand_address(AddressingMode::Absolute) == Some((word_at(s.mem, s.pc + 1), (s.pc + 3) as u16)));
    assert(s1.operand_address(AddressingMode::Indirect) == Some((word_at(s.mem, s.mem[s.pc + 1] as int), (s.pc + 2) as u16)));
}

/// LDA zp (0xA5) loads A from the zero-page address in its operand byte; ZERO and
/// NEGATIVE follow the loaded byte. The program counter moves past the operand; memory
/// and the other registers stay.
#[verifier::spinoff_prover]
#[verifier::rlimit(40)]
pub proof fn law_lda_zero_page(s: CpuState)
    requires
        s.valid(),
        s.pc < 0xFFFD,
        s.mem[s.pc as int] == 0xA5,
    ensures
        ({
            let v = s.mem[s.mem[s.pc + 1] as int];
            &&& step_outcome(s) matches Some((t, halted))
            &&& !halted
            &&& t.a == v
            &&& (t.status & 0x02 == 0x02) == (v == 0)
            &&& (t.status & 0x80 == 0x80) == (v >= 0x80)
            &&& t.status & 0x7D == s.status & 0x7D
            &&& t.pc == s.pc + 2
            &&& t.x == s.x && t.y == s.y && t.sp == s.sp && t.mem == s.mem
        }),
{
    let o = s.mem[s.pc + 1];
    let s1 = s.with_pc(wrap16(s.pc + 1));
    assert(s1.operand_address(AddressingMode::ZeroPage) == Some((o as u16, (s.pc + 2) as u16)));
    bits_result(s.status, s.mem[o as int]);
}

/// LDA zp,X (0xB5) loads A from zero-page address `o + X` modulo 256, with `o` the
/// operand byte: the address wraps within page zero. The program counter moves past the
/// operand; memory and the other registers stay.
#[verifier::spinoff_prover]
#[verifier::rlimit(40)]
pub proof fn law_lda_zero_page_x(s: CpuState)
    requires
        s.valid(),
        s.pc < 0xFFFD,
        s.mem[s.pc as int] == 0xB5,
    ensures
        ({
            let addr = (s.mem[s.pc + 1] + s.x) % 0x100;
            &&& step_outcome(s) matches Some((t, halted))
            &&& !halted
            &&& t.a == s.mem[addr]
            &&& t.pc == s.pc + 2
            &&& t.x == s.x && t.y == s.y && t.sp == s.sp && t.mem == s.mem
        }),
{
    let o = s.mem[s.pc + 1];
    let s1 = s.with_pc(wrap16(s.pc + 1));
    let zx = wrap8(o + s.x);
    assert(zx as int == (o + s.x) % 0x100);
    assert(s1.operand_address(AddressingMode::ZeroPageX) == Some((zx as u16, (s.pc + 2) as u16)));
}

/// LDX zp,Y (0xB6) loads X from zero-page address `o + Y` modulo 256, with `o` the
/// operand byte. The program counter moves past the operand; memory and the other
/// registers stay.
#[verifier::spinoff_prover]
#[verifier::rlimit(40)]
pub proof fn law_ldx_zero_page_y(s: CpuState)
    requires
        s.valid(),
        s.pc < 0xFFFD,
        s.mem[s.pc as int] == 0xB6,
    ensures
        ({
            let addr = (s.mem[s.pc + 1] + s.y) % 0x100;
            &&& step_outcome(s) matches Some((t, halted))
            &&& !halted
            &&& t.x == s.mem[addr]
            &&& t.pc == s.pc + 2
            &&& t.a == s.a && t.y == s.y && t.sp == s.sp && t.mem == s.mem
        }),
{
    let o = s.mem[s.pc + 1];
    let s1 = s.with_pc(wrap16(s.pc + 1));
    let zy = wrap8(o + s.y);
    assert(zy as int == (o + s.y) % 0x100);
    assert(s1.operand_address(AddressingMode::ZeroPageY) == Some((zy as u16, (s.pc + 2) as u16)));
}

/// LDA abs (0xAD) loads A from the address given by its little-endian operand word.
/// The program counter moves past the two operand bytes; memory and the other registers
/// stay.
#[verifier::spinoff_prover]
#[verifier::rlimit(40)]
pub proof fn law_lda_absolute(s: CpuState)
    requires
        s.valid(),
        s.pc < 0xFFFD,
        s.mem[s.pc as int] == 0xAD,
    ensures
        ({
            let o = s.mem[s.pc + 1] as int;
            let w = o + 0x100 * s.mem[s.pc + 2];
            let addr = w;
            &&& step_outcome(s) matches Some((t, halted))
            &&& !halted
            &&& t.a == s.mem[addr]
            &&& t.pc == s.pc + 3
            &&& t.x == s.x && t.y == s.y && t.sp == s.sp && t.mem == s.mem
        }),
{
    let o = s.mem[s.pc + 1];
    let s1 = s.with_pc(wrap16(s.pc + 1));
    let w = word_at(s.mem, s.pc + 1);
    assert(w as int == s.mem[s.pc + 1] + 0x100 * s.mem[s.pc + 2]);
    let e = w;
    assert(s1.operand_address(AddressingMode::Absolute) == Some((e, (s.pc + 3) as u16)));
}

/// LDA abs,X (0xBD) loads A from the operand word plus X, modulo 65536.
#[verifier::spinoff_prover]
#[verifier::rlimit(40)]
pub proof fn law_lda_absolute_x(s: CpuState)
    requires
        s.valid(),
        s.pc < 0xFFFD,
        s.mem[s.pc as int] == 0xBD,
    ensures
        ({
            let o = s.mem[s.pc + 1] as int;
            let w = o + 0x100 * s.mem[s.pc + 2];
            let addr = (w + s.x) % 0x10000;
            &&& step_outcome(s) matches Some((t, halted))
            &&& !halted
            &&& t.a == s.mem[addr]
            &&& t.pc == s.pc + 3
            &&& t.x == s.x && t.y == s.y && t.sp == s.sp && t.mem == s.mem
        }),
{
    let o = s.mem[s.pc + 1];
    let s1 = s.with_pc(wrap16(s.pc + 1));
    let w = word_at(s.mem, s.pc + 1);
    assert(w as int == s.mem[s.pc + 1] + 0x100 * s.mem[s.pc + 2]);
    let e = wrap16(w + s.x);
    assert(e as int == (w + s.x) % 0x10000);
    assert(s1.operand_address(AddressingMode::AbsoluteX) == Some((e, (s.pc + 3) as u16)));
}

/// LDA abs,Y (0xB9) loads A from the operand word plus Y, modulo 65536.
#[verifier::spinoff_prover]
#[verifier::rlimit(40)]
pub proof fn law_lda_absolute_y(s: CpuState)
    requires
        s.valid(),
        s.pc < 0xFFFD,
        s.mem[s.pc as int] == 0xB9,
    ensures
        ({
            let o = s.mem[s.pc + 1] as int;
            let w = o + 0x100 * s.mem[s.pc + 2];
            let addr = (w + s.y) % 0x10000;
            &&& step_outcome(s) matches Some((t, halted))
            &&& !halted
            &&& t.a == s.mem[addr]
            &&& t.pc == s.pc + 3
            &&& t.x == s.x && t.y == s.y && t.sp == s.sp && t.mem == s.mem
        }),
{
    let o = s.mem[s.pc + 1];
    let s1 = s.with_pc(wrap16(s.pc + 1));
    let w = word_at(s.mem, s.pc + 1);
    assert(w as int == s.mem[s.pc + 1] + 0x100 * s.mem[s.pc + 2]);
    let e = wrap16(w + s.y);
    assert(e as int == (w + s.y) % 0x10000);
    assert(s1.operand_address(AddressingMode::AbsoluteY) == Some((e, (s.pc + 3) as u16)));
}

/// LDA (zp,X) (0xA1) loads A from the address stored as a little-endian word at
/// zero-page address `o + X` modulo 256, with `o` the operand byte.
#[verifier::spinoff_prover]
#[verifier::rlimit(40)]
pub proof fn law_lda_indirect_x(s: CpuState)
    requires
        s.valid(),
        s.pc < 0xFFFD,
        s.mem[s.pc as int] == 0xA1,
    ensures
        ({
            let o = s.mem[s.pc + 1] as int;
            let w = o + 0x100 * s.mem[s.pc + 2];
            let addr = s.mem[(o + s.x) % 0x100] + 0x100 * s.mem[(o + s.x) % 0x100 + 1];
            &&& step_outcome(s) matches Some((t, halted))
            &&& !halted
            &&& t.a == s.mem[addr]
            &&& t.pc == s.pc + 2
            &&& t.x == s.x && t.y == s.y && t.sp == s.sp && t.mem == s.mem
        }),
{
    let o = s.mem[s.pc + 1];
    let s1 = s.with_pc(wrap16(s.pc + 1));
    let w = word_at(s.mem, s.pc + 1);
    assert(w as int == s.mem[s.pc + 1] + 0x100 * s.mem[s.pc + 2]);
    let zx = wrap8(o + s.x);
    assert(zx as int == (o + s.x) % 0x100);
    let e = word_at(s.mem, zx as int);
    assert(e as int == s.mem[zx as int] + 0x100 * s.mem[zx + 1]);
    assert(s1.operand_address(AddressingMode::IndirectX) == Some((e, (s.pc + 2) as u16)));
}

/// LDA (zp),Y (0xB1) loads A from the little-endian word stored at zero-page address
/// `o` (the operand byte) plus Y, modulo 65536.
#[verifier::spinoff_prover]
#[verifier::rlimit(40)]
pub proof fn law_lda_indirect_y(s: CpuState)
    requires
        s.valid(),
        s.pc < 0xFFFD,
        s.mem[s.pc as int] == 0xB1,
    ensures
        ({
            let o = s.mem[s.pc + 1] as int;
            let w = o + 0x100 * s.mem[s.pc + 2];
            let addr = (s.mem[o] + 0x100 * s.mem[o + 1] + s.y) % 0x10000;
            &&& step_outcome(s) matches Some((t, halted))
            &&& !halted
            &&& t.a == s.mem[addr]
            &&& t.pc == s.pc + 2
            &&& t.x == s.x && t.y == s.y && t.sp == s.sp && t.mem == s.mem
        }),
{
    let o = s.mem[s.pc + 1];
    let s1 = s.with_pc(wrap16(s.pc + 1));
    let w = word_at(s.mem, s.pc + 1);
    assert(w as int == s.mem[s.pc + 1] + 0x100 * s.mem[s.pc + 2]);
    let v = word_at(s.mem, o as int);
    assert(v as int == s.mem[o as int] + 0x100 * s.mem[o + 1]);
    let e = wrap16(v + s.y);
    assert(e as int == (v + s.y) % 0x10000);
    assert(s1.operand_address(AddressingMode::IndirectY) == Some((e, (s.pc + 2) as u16)));
}

/// BRK (0x00) halts the interpreter with the program counter just past it and nothing
/// else changed.
#[verifier::spinoff_prover]
#[verifier::rlimit(40)]
pub proof fn law_brk(s: CpuState)
    requires
        s.valid(),
        s.pc < 0xFFFF,
        s.mem[s.pc as int] == 0x00,
    ensures
        step_outcome(s) matches Some((t, halted)) && halted && t.pc == s.pc + 1 && t.a == s.a
            && t.x == s.x && t.y == s.y && t.sp == s.sp && t.status == s.status && t.mem
            == s.mem,
{
}

} // verus!
