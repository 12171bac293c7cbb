//! The regular layout of the instruction set: for the arithmetic and logic group (opcodes
//! whose low two bits are 01), bits 5..7 of the opcode select the operation and bits
//! 2..4 the addressing mode, so the same mode bits always read the same operand address.
use vstd::prelude::*;
use crate::alu::{lemma_carry_in, rotate_left, rotate_right, shift_left, shift_right};
use crate::flags::{carry_in, is_negative};
use crate::isa::{opcode_table, AddressingMode, Instruction};
use crate::opcode_laws::{
    bits_arith, bits_carry_result, bits_result, bits_test, overflow_sign_rule, overflow_sign_rule_sub,
};
use crate::semantics::{addressed_effect, step_outcome};
use crate::state::{group_wrap, word_at, wrap16, wrap8, CpuState};

verus! {

broadcast use group_wrap;

/// The little-endian word at `k`.
pub open spec fn word(s: CpuState, k: int) -> int {
    s.mem[k] + 0x100 * s.mem[k + 1]
}

/// The operand address that the mode bits `b` select for the instruction at the program
/// counter, with `o` the first operand byte and `w` the operand word: 0 the word at
/// zero-page address `o + X` modulo 256, 1 `o`, 2 the operand byte itself, 3 `w`, 4 the
/// word at zero-page address `o` plus Y modulo 65536, 5 `o + X` modulo 256, 6 `w + Y` and
/// 7 `w + X` modulo 65536.
pub open spec fn mode_address(s: CpuState, b: int) -> int {
    let o = s.mem[s.pc + 1] as int;
    let w = word(s, s.pc + 1);
    if b == 0 {
        word(s, (o + s.x) % 0x100)
    } else if b == 1 {
        o
    } else if b == 2 {
        s.pc + 1
    } else if b == 3 {
        w
    } else if b == 4 {
        (word(s, o) + s.y) % 0x10000
    } else if b == 5 {
        (o + s.x) % 0x100
    } else if b == 6 {
        (w + s.y) % 0x10000
    } else {
        (w + s.x) % 0x10000
    }
}

/// The length in bytes of an instruction whose mode bits are `b`.
pub open spec fn mode_length(b: int) -> int {
    if b == 3 || b == 6 || b == 7 { 3 } else { 2 }
}

/// ZERO and NEGATIVE of `q` follow `v`; the other bits are those of `p`.
pub open spec fn result_flags(p: u8, q: u8, v: u8) -> bool {
    &&& (q & 0x02 == 0x02) == (v == 0)
    &&& (q & 0x80 == 0x80) == (v >= 0x80)
    &&& q & 0x7D == p & 0x7D
}

spec fn group_one_mode(b: int) -> AddressingMode {
    if b == 0 {
        AddressingMode::IndirectX
    } else if b == 1 {
        AddressingMode::ZeroPage
    } else if b == 2 {
        AddressingMode::Immediate
    } else if b == 3 {
        AddressingMode::Absolute
    } else if b == 4 {
        AddressingMode::IndirectY
    } else if b == 5 {
        AddressingMode::ZeroPageX
    } else if b == 6 {
        AddressingMode::AbsoluteY
    } else {
        AddressingMode::AbsoluteX
    }
}

spec fn group_one_instruction(a: int) -> Instruction {
    if a == 0 {
        Instruction::Ora
    } else if a == 1 {
        Instruction::And
    } else if a == 2 {
        Instruction::Eor
    } else if a == 3 {
        Instruction::Adc
    } else if a == 4 {
        Instruction::Sta
    } else if a == 5 {
        Instruction::Lda
    } else if a == 6 {
        Instruction::Cmp
    } else {
        Instruction::Sbc
    }
}

proof fn group_one_table(op: u8)
    requires
        op % 4 == 1,
        op != 0x89,
    ensures
        opcode_table(op) == Some((group_one_instruction((op / 32) as int), group_one_mode(((op / 4) % 8) as int))),
{
    if op == 0x1 {
    } else if op == 0x5 {
    } else if op == 0x9 {
    } else if op == 0xD {
    } else if op == 0x11 {
    } else if op == 0x15 {
    } else if op == 0x19 {
    } else if op == 0x1D {
    } else if op == 0x21 {
    } else if op == 0x25 {
    } else if op == 0x29 {
    } else if op == 0x2D {
    } else if op == 0x31 {
    } else if op == 0x35 {
    } else if op == 0x39 {
    } else if op == 0x3D {
    } else if op == 0x41 {
    } else if op == 0x45 {
    } else if op == 0x49 {
    } else if op == 0x4D {
    } else if op == 0x51 {
    } else if op == 0x55 {
    } else if op == 0x59 {
    } else if op == 0x5D {
    } else if op == 0x61 {
    } else if op == 0x65 {
    } else if op == 0x69 {
    } else if op == 0x6D {
    } else if op == 0x71 {
    } else if op == 0x75 {
    } else if op == 0x79 {
    } else if op == 0x7D {
    } else if op == 0x81 {
    } else if op == 0x85 {
    } else if op == 0x8D {
    } else if op == 0x91 {
    } else if op == 0x95 {
    } else if op == 0x99 {
    } else if op == 0x9D {
    } else if op == 0xA1 {
    } else if op == 0xA5 {
    } else if op == 0xA9 {
    } else if op == 0xAD {
    } else if op == 0xB1 {
    } else if op == 0xB5 {
    } else if op == 0xB9 {
    } else if op == 0xBD {
    } else if op == 0xC1 {
    } else if op == 0xC5 {
    } else if op == 0xC9 {
    } else if op == 0xCD {
    } else if op == 0xD1 {
    } else if op == 0xD5 {
    } else if op == 0xD9 {
    } else if op == 0xDD {
    } else if op == 0xE1 {
    } else if op == 0xE5 {
    } else if op == 0xE9 {
    } else if op == 0xED {
    } else if op == 0xF1 {
    } else if op == 0xF5 {
    } else if op == 0xF9 {
    } else if op == 0xFD {
    }
}

#[verifier::spinoff_prover]
#[verifier::rlimit(40)]
proof fn group_one_operand(s: CpuState, b: int)
    requires
        s.valid(),
        s.pc < 0xFFFD,
        0 <= b < 8,
    ensures
        s.with_pc(wrap16(s.pc + 1)).operand_address(group_one_mode(b)) == Some(
            (mode_address(s, b) as u16, (s.pc + mode_length(b)) as u16),
        ),
        0 <= mode_address(s, b) < 0x10000,
{
    let s1 = s.with_pc(wrap16(s.pc + 1));
    let o = s.mem[s.pc + 1];
    assert(word_at(s.mem, s.pc + 1) as int == word(s, s.pc + 1));
    assert(word_at(s.mem, o as int) as int == word(s, o as int));
    let zx = wrap8(o + s.x);
    assert(zx as int == (o + s.x) % 0x100);
    assert(word_at(s.mem, zx as int) as int == word(s, zx as int));
    assert(wrap16(word_at(s.mem, s.pc + 1) + s.x) as int == (word(s, s.pc + 1) + s.x) % 0x10000);
    assert(wrap16(word_at(s.mem, s.pc + 1) + s.y) as int == (word(s, s.pc + 1) + s.y) % 0x10000);
    assert(wrap16(word_at(s.mem, o as int) + s.y) as int == (word(s, o as int) + s.y) % 0x10000);
}

/// Every opcode of the arithmetic and logic group (low bits 01, that is ORA, AND, EOR,
/// ADC, STA, LDA, CMP, SBC by bits 5..7, all but STA #imm) reads its operand `m` from the
/// address that its mode bits select (`mode_address`), advances the program counter by
/// the mode's length, and then: ORA, AND, EOR put `A | m`, `A & m`, `A ^ m` in A; LDA
/// puts `m` in A (ZERO and NEGATIVE following A, other flags kept); STA stores A at that
/// address and changes no register or flag; ADC and SBC add `m` and the carry to A, or
/// subtract `m` and the borrow, with CARRY from the unsigned and OVERFLOW from the signed
/// result; CMP sets CARRY when `A >= m`, ZERO when `A == m` and NEGATIVE from bit 7 of
/// `A - m`, keeping A. X, Y and the stack pointer never change, memory only by STA.
#[verifier::spinoff_prover]
#[verifier::rlimit(60)]
pub proof fn law_arithmetic_group(s: CpuState)
    requires
        s.valid(),
        s.pc < 0xFFFD,
        s.mem[s.pc as int] % 4 == 1,
        s.mem[s.pc as int] != 0x89,
    ensures
        ({
            let op = s.mem[s.pc as int];
            let b = (op / 4) % 8;
            let kind = op / 32;
            let addr = mode_address(s, b as int);
            let m = s.mem[addr];
            let c = (s.status & 0x01) as int;
            let p = s.status;
            &&& step_outcome(s) matches Some((t, halted))
            &&& !halted
            &&& t.pc == s.pc + mode_length(b as int)
            &&& t.x == s.x && t.y == s.y && t.sp == s.sp
            &&& (kind == 4 ==> t.mem == s.mem.update(addr, s.a) && t.a == s.a && t.status == p)
            &&& (kind != 4 ==> t.mem == s.mem)
            &&& (kind == 0 ==> t.a == s.a | m && result_flags(p, t.status, t.a))
            &&& (kind == 1 ==> t.a == s.a & m && result_flags(p, t.status, t.a))
            &&& (kind == 2 ==> t.a == s.a ^ m && result_flags(p, t.status, t.a))
            &&& (kind == 5 ==> t.a == m && result_flags(p, t.status, t.a))
            &&& (kind == 3 ==> {
                &&& t.a as int == (s.a + m + c) % 0x100
                &&& (t.status & 0x01 == 0x01) == (s.a + m + c > 0xFF)
                &&& (t.status & 0x40 == 0x40) == ((s.a < 0x80) == (m < 0x80) && (t.a < 0x80) != (
                s.a < 0x80))
                &&& (t.status & 0x02 == 0x02) == (t.a == 0)
                &&& (t.status & 0x80 == 0x80) == (t.a >= 0x80)
                &&& t.status & 0x3C == p & 0x3C
            })
            &&& (kind == 7 ==> {
                &&& t.a as int == (s.a - m - (1 - c)) % 0x100
                &&& (t.status & 0x01 == 0x01) == (s.a - m - (1 - c) >= 0)
                &&& (t.status & 0x40 == 0x40) == ((s.a < 0x80) != (m < 0x80) && (t.a < 0x80) != (
                s.a < 0x80))
                &&& (t.status & 0x02 == 0x02) == (t.a == 0)
                &&& (t.status & 0x80 == 0x80) == (t.a >= 0x80)
                &&& t.status & 0x3C == p & 0x3C
            })
            &&& (kind == 6 ==> {
                &&& t.a == s.a
                &&& (t.status & 0x01 == 0x01) == (s.a >= m)
                &&& (t.status & 0x02 == 0x02) == (s.a == m)
                &&& (t.status & 0x80 == 0x80) == ((s.a - m) % 0x100 >= 0x80)
                &&& t.status & 0x7C == p & 0x7C
            })
        }),
{
    let op = s.mem[s.pc as int];
    let b = ((op / 4) % 8) as int;
    let kind = (op / 32) as int;
    group_one_table(op);
    group_one_operand(s, b);
    let addr = mode_address(s, b);
    let m = s.mem[addr];
    let c = (s.status & 0x01) as int;
    let s2 = s.with_pc((s.pc + mode_length(b)) as u16);
    lemma_carry_in(s.status);
    assert(carry_in(s.status) == c);
    group_one_effect(s2, kind, addr as u16);
}

/// What each operation of the group does to a state whose program counter is past the
/// operand bytes, given the operand address.
#[verifier::spinoff_prover]
#[verifier::rlimit(40)]
proof fn group_one_effect(s: CpuState, kind: int, addr: u16)
    requires
        s.valid(),
        0 <= kind < 8,
    ensures
        ({
            let m = s.mem[addr as int];
            let c = (s.status & 0x01) as int;
            let p = s.status;
            &&& addressed_effect(s, group_one_instruction(kind), addr) matches Some(t)
            &&& t.pc == s.pc && t.x == s.x && t.y == s.y && t.sp == s.sp
            &&& (kind == 4 ==> t.mem == s.mem.update(addr as int, s.a) && t.a == s.a && t.status == p)
            &&& (kind != 4 ==> t.mem == s.mem)
            &&& (kind == 0 ==> t.a == s.a | m && result_flags(p, t.status, t.a))
            &&& (kind == 1 ==> t.a == s.a & m && result_flags(p, t.status, t.a))
            &&& (kind == 2 ==> t.a == s.a ^ m && result_flags(p, t.status, t.a))
            &&& (kind == 5 ==> t.a == m && result_flags(p, t.status, t.a))
            &&& (kind == 3 ==> {
                &&& t.a as int == (s.a + m + c) % 0x100
                &&& (t.status & 0x01 == 0x01) == (s.a + m + c > 0xFF)
                &&& (t.status & 0x40 == 0x40) == ((s.a < 0x80) == (m < 0x80) && (t.a < 0x80) != (
                s.a < 0x80))
                &&& (t.status & 0x02 == 0x02) == (t.a == 0)
                &&& (t.status & 0x80 == 0x80) == (t.a >= 0x80)
                &&& t.status & 0x3C == p & 0x3C
            })
            &&& (kind == 7 ==> {
                &&& t.a as int == (s.a - m - (1 - c)) % 0x100
                &&& (t.status & 0x01 == 0x01) == (s.a - m - (1 - c) >= 0)
                &&& (t.status & 0x40 == 0x40) == ((s.a < 0x80) != (m < 0x80) && (t.a < 0x80) != (
                s.a < 0x80))
                &&& (t.status & 0x02 == 0x02) == (t.a == 0)
                &&& (t.status & 0x80 == 0x80) == (t.a >= 0x80)
                &&& t.status & 0x3C == p & 0x3C
            })
            &&& (kind == 6 ==> {
                &&& t.a == s.a
                &&& (t.status & 0x01 == 0x01) == (s.a >= m)
                &&& (t.status & 0x02 == 0x02) == (s.a == m)
                &&& (t.status & 0x80 == 0x80) == ((s.a - m) % 0x100 >= 0x80)
                &&& t.status & 0x7C == p & 0x7C
            })
        }),
{
    let m = s.mem[addr as int];
    let c = (s.status & 0x01) as int;
    lemma_carry_in(s.status);
    if kind == 0 {
        bits_result(s.status, s.a | m);
    } else if kind == 1 {
        bits_result(s.status, s.a & m);
    } else if kind == 2 {
        bits_result(s.status, s.a ^ m);
    } else if kind == 5 {
        bits_result(s.status, m);
    } else if kind == 3 {
        overflow_sign_rule(s.a, m, c);
        bits_arith(s.status, crate::alu::add_carries(s.a, m, c), crate::alu::add_overflows(s.a, m, c), crate::alu::add_result(s.a, m, c));
    } else if kind == 7 {
        overflow_sign_rule_sub(s.a, m, c);
        bits_arith(s.status, crate::alu::sub_carries(s.a, m, c), crate::alu::sub_overflows(s.a, m, c), crate::alu::sub_result(s.a, m, c));
    } else if kind == 6 {
        let d = wrap8(s.a - m);
        assert(d as int == (s.a - m) % 0x100);
        bits_carry_result(s.status, s.a >= m, d);
    }
}

spec fn read_modify_write_instruction(k: int) -> Instruction {
    if k == 0 {
        Instruction::Asl
    } else if k == 1 {
        Instruction::Rol
    } else if k == 2 {
        Instruction::Lsr
    } else if k == 3 {
        Instruction::Ror
    } else if k == 6 {
        Instruction::Dec
    } else {
        Instruction::Inc
    }
}

proof fn read_modify_write_table(op: u8)
    requires
        op % 4 == 2,
        (op / 4) % 2 == 1,
        op / 32 != 4 && op / 32 != 5,
    ensures
        opcode_table(op) == Some(
            (read_modify_write_instruction((op / 32) as int), group_one_mode(((op / 4) % 8) as int)),
        ),
{
    if op == 0x06 {
    } else if op == 0x0E {
    } else if op == 0x16 {
    } else if op == 0x1E {
    } else if op == 0x26 {
    } else if op == 0x2E {
    } else if op == 0x36 {
    } else if op == 0x3E {
    } else if op == 0x46 {
    } else if op == 0x4E {
    } else if op == 0x56 {
    } else if op == 0x5E {
    } else if op == 0x66 {
    } else if op == 0x6E {
    } else if op == 0x76 {
    } else if op == 0x7E {
    } else if op == 0xC6 {
    } else if op == 0xCE {
    } else if op == 0xD6 {
    } else if op == 0xDE {
    } else if op == 0xE6 {
    } else if op == 0xEE {
    } else if op == 0xF6 {
    } else if op == 0xFE {
    }
}

/// The byte that a read-modify-write operation `k` (bits 5..7 of the opcode) makes of `m`
/// with carry `c`: 0 ASL `2m`, 1 ROL `2m + c`, 2 LSR `m / 2`, 3 ROR `m / 2 + 128c`, 6 DEC
/// `m - 1`, 7 INC `m + 1`, all modulo 256.
pub open spec fn modified_byte(k: int, m: u8, c: int) -> int {
    if k == 0 {
        (2 * m) % 0x100
    } else if k == 1 {
        (2 * m + c) % 0x100
    } else if k == 2 {
        m as int / 2
    } else if k == 3 {
        m / 2 + 0x80 * c
    } else if k == 6 {
        (m + 0xFF) % 0x100
    } else {
        (m + 1) % 0x100
    }
}

/// Every read-modify-write opcode (ASL, ROL, LSR, ROR, DEC, INC on memory: low bits 10,
/// odd mode bits) reads the byte `m` at the address its mode bits select (zero page,
/// absolute, zero page plus X, absolute plus X), stores `modified_byte` there and sets
/// ZERO and NEGATIVE from the stored byte. The shifts and rotations put the bit shifted
/// out (bit 7 for ASL and ROL, bit 0 for LSR and ROR) in CARRY; DEC and INC keep CARRY.
/// Registers and the other flags stay; the program counter moves past the operand.
#[verifier::spinoff_prover]
#[verifier::rlimit(60)]
pub proof fn law_read_modify_write_group(s: CpuState)
    requires
        s.valid(),
        s.pc < 0xFFFD,
        s.mem[s.pc as int] % 4 == 2,
        (s.mem[s.pc as int] / 4) % 2 == 1,
        s.mem[s.pc as int] / 32 != 4 && s.mem[s.pc as int] / 32 != 5,
    ensures
        ({
            let op = s.mem[s.pc as int];
            let b = (op / 4) % 8;
            let k = op / 32;
            let addr = mode_address(s, b as int);
            let m = s.mem[addr];
            let c = (s.status & 0x01) as int;
            let r = modified_byte(k as int, m, c);
            let p = s.status;
            &&& step_outcome(s) matches Some((t, halted))
            &&& !halted
            &&& t.pc == s.pc + mode_length(b as int)
            &&& t.a == s.a && t.x == s.x && t.y == s.y && t.sp == s.sp
            &&& t.mem == s.mem.update(addr, r as u8)
            &&& (t.status & 0x02 == 0x02) == (r == 0)
            &&& (t.status & 0x80 == 0x80) == (r >= 0x80)
            &&& (k < 4 ==> t.status & 0x7C == p & 0x7C)
            &&& (k < 4 ==> (t.status & 0x01 == 0x01) == (if k == 0 || k == 1 { m >= 0x80 } else { m % 2 == 1 }))
            &&& (k >= 4 ==> t.status & 0x7D == p & 0x7D)
        }),
{
    let op = s.mem[s.pc as int];
    let b = ((op / 4) % 8) as int;
    let k = (op / 32) as int;
    read_modify_write_table(op);
    group_one_operand(s, b);
    let addr = mode_address(s, b);
    let s2 = s.with_pc((s.pc + mode_length(b)) as u16);
    read_modify_write_effect(s2, k, addr as u16);
}

#[verifier::spinoff_prover]
#[verifier::rlimit(40)]
proof fn read_modify_write_effect(s: CpuState, k: int, addr: u16)
    requires
        s.valid(),
        0 <= k < 8,
        k != 4 && k != 5,
    ensures
        ({
            let m = s.mem[addr as int];
            let c = (s.status & 0x01) as int;
            let r = modified_byte(k, m, c);
            let p = s.status;
            &&& addressed_effect(s, read_modify_write_instruction(k), addr) matches Some(t)
            &&& t.pc == s.pc && t.a == s.a && t.x == s.x && t.y == s.y && t.sp == s.sp
            &&& t.mem == s.mem.update(addr as int, r as u8)
            &&& (t.status & 0x02 == 0x02) == (r == 0)
            &&& (t.status & 0x80 == 0x80) == (r >= 0x80)
            &&& (k < 4 ==> t.status & 0x7C == p & 0x7C)
            &&& (k < 4 ==> (t.status & 0x01 == 0x01) == (if k == 0 || k == 1 { m >= 0x80 } else { m % 2 == 1 }))
            &&& (k >= 4 ==> t.status & 0x7D == p & 0x7D)
        }),
{
    let m = s.mem[addr as int];
    let c = (s.status & 0x01) as int;
    lemma_carry_in(s.status);
    assert(carry_in(s.status) == c);
    if k == 0 {
        bits_carry_result(s.status, is_negative(m), shift_left(m));
    } else if k == 1 {
        bits_carry_result(s.status, is_negative(m), rotate_left(m, c));
    } else if k == 2 {
        bits_carry_result(s.status, m % 2 == 1, shift_right(m));
    } else if k == 3 {
        bits_carry_result(s.status, m % 2 == 1, rotate_right(m, c));
    } else if k == 6 {
        assert(wrap8(m - 1) as int == (m + 0xFF) % 0x100);
        bits_result(s.status, wrap8(m - 1));
    } else {
        assert(wrap8(m + 1) as int == (m + 1) % 0x100);
        bits_result(s.status, wrap8(m + 1));
    }
}

/// Whether `op` is one of the opcodes that load, store or compare X or Y, or test bits
/// (LDX, LDY, STX, STY, CPX, CPY, BIT).
pub open spec fn register_group(op: u8) -> bool {
    op == 0x24 || op == 0x2C || op == 0x84 || op == 0x86 || op == 0x8C || op == 0x8E || op == 0x94 || op == 0x96 || op == 0xA0 || op == 0xA2 || op == 0xA4 || op == 0xA6 || op == 0xAC || op == 0xAE || op == 0xB4 || op == 0xB6 || op == 0xBC || op == 0xBE || op == 0xC0 || op == 0xC4 || op == 0xCC || op == 0xE0 || op == 0xE4 || op == 0xEC
}

/// The operand address of an instruction of that group, from its mode bits `b` (bits
/// 2..4): 0 the operand byte itself, 1 zero page `o`, 3 the operand word `w`, 5 `o` plus
/// the index register modulo 256, 7 `w` plus the index register modulo 65536. The index
/// register is Y for the X-register instructions (low bits 10) and for STY (0x94), X
/// otherwise.
pub open spec fn register_group_address(s: CpuState, op: u8) -> int {
    let b = (op / 4) % 8;
    let o = s.mem[s.pc + 1] as int;
    let w = word(s, s.pc + 1);
    let index = if op % 4 == 2 || op == 0x94 { s.y } else { s.x };
    if b == 0 {
        s.pc + 1
    } else if b == 1 {
        o
    } else if b == 3 {
        w
    } else if b == 5 {
        (o + index) % 0x100
    } else {
        (w + index) % 0x10000
    }
}

spec fn register_group_entry(op: u8) -> (Instruction, AddressingMode) {
    if op == 0x24 {
        (Instruction::Bit, AddressingMode::ZeroPage)
    } else if op == 0x2C {
        (Instruction::Bit, AddressingMode::Absolute)
    } else if op == 0x84 {
        (Instruction::Sty, AddressingMode::ZeroPage)
    } else if op == 0x86 {
        (Instruction::Stx, AddressingMode::ZeroPage)
    } else if op == 0x8C {
        (Instruction::Sty, AddressingMode::Absolute)
    } else if op == 0x8E {
        (Instruction::Stx, AddressingMode::Absolute)
    } else if op == 0x94 {
        (Instruction::Sty, AddressingMode::ZeroPageY)
    } else if op == 0x96 {
        (Instruction::Stx, AddressingMode::ZeroPageY)
    } else if op == 0xA0 {
        (Instruction::Ldy, AddressingMode::Immediate)
    } else if op == 0xA2 {
        (Instruction::Ldx, AddressingMode::Immediate)
    } else if op == 0xA4 {
        (Instruction::Ldy, AddressingMode::ZeroPage)
    } else if op == 0xA6 {
        (Instruction::Ldx, AddressingMode::ZeroPage)
    } else if op == 0xAC {
        (Instruction::Ldy, AddressingMode::Absolute)
    } else if op == 0xAE {
        (Instruction::Ldx, AddressingMode::Absolute)
    } else if op == 0xB4 {
        (Instruction::Ldy, AddressingMode::ZeroPageX)
    } else if op == 0xB6 {
        (Instruction::Ldx, AddressingMode::ZeroPageY)
    } else if op == 0xBC {
        (Instruction::Ldy, AddressingMode::AbsoluteX)
    } else if op == 0xBE {
        (Instruction::Ldx, AddressingMode::AbsoluteY)
    } else if op == 0xC0 {
        (Instruction::Cpy, AddressingMode::Immediate)
    } else if op == 0xC4 {
        (Instruction::Cpy, AddressingMode::ZeroPage)
    } else if op == 0xCC {
        (Instruction::Cpy, AddressingMode::Absolute)
    } else if op == 0xE0 {
        (Instruction::Cpx, AddressingMode::Immediate)
    } else if op == 0xE4 {
        (Instruction::Cpx, AddressingMode::ZeroPage)
    } else if op == 0xEC {
        (Instruction::Cpx, AddressingMode::Absolute)
    } else {
        (Instruction::Nop, AddressingMode::NoneAddressing)
    }
}

proof fn register_group_table(op: u8)
    requires
        register_group(op),
    ensures
        opcode_table(op) == Some(register_group_entry(op)),
{
    if op == 0x24 {
    } else if op == 0x2C {
    } else if op == 0x84 {
    } else if op == 0x86 {
    } else if op == 0x8C {
    } else if op == 0x8E {
    } else if op == 0x94 {
    } else if op == 0x96 {
    } else if op == 0xA0 {
    } else if op == 0xA2 {
    } else if op == 0xA4 {
    } else if op == 0xA6 {
    } else if op == 0xAC {
    } else if op == 0xAE {
    } else if op == 0xB4 {
    } else if op == 0xB6 {
    } else if op == 0xBC {
    } else if op == 0xBE {
    } else if op == 0xC0 {
    } else if op == 0xC4 {
    } else if op == 0xCC {
    } else if op == 0xE0 {
    } else if op == 0xE4 {
    } else if op == 0xEC {
    }
}

#[verifier::spinoff_prover]
#[verifier::rlimit(40)]
proof fn register_group_operand(s: CpuState, op: u8)
    requires
        s.valid(),
        s.pc < 0xFFFD,
        register_group(op),
    ensures
        s.with_pc(wrap16(s.pc + 1)).operand_address(register_group_entry(op).1) == Some(
            (register_group_address(s, op) as u16, (s.pc + mode_length(((op / 4) % 8) as int)) as u16),
        ),
        0 <= register_group_address(s, op) < 0x10000,
{
    let o = s.mem[s.pc + 1];
    assert(word_at(s.mem, s.pc + 1) as int == word(s, s.pc + 1));
    assert(wrap8(o + s.x) as int == (o + s.x) % 0x100);
    assert(wrap8(o + s.y) as int == (o + s.y) % 0x100);
    assert(wrap16(word_at(s.mem, s.pc + 1) + s.x) as int == (word(s, s.pc + 1) + s.x) % 0x10000);
    assert(wrap16(word_at(s.mem, s.pc + 1) + s.y) as int == (word(s, s.pc + 1) + s.y) % 0x10000);
}

/// Every opcode of the X/Y register group reads its operand `m` at
/// `register_group_address` and advances the program counter by its mode's length.
/// LDX and LDY put `m` in X or Y (ZERO and NEGATIVE following it); STX and STY store X
/// or Y at the address and change no register or flag; CPX and CPY set CARRY when the
/// register is at least `m`, ZERO when equal, NEGATIVE from bit 7 of the difference; BIT
/// sets ZERO when `A & m` is zero and copies bits 7 and 6 of `m` to NEGATIVE and
/// OVERFLOW. Memory changes only by a store, A never, the stack pointer never.
#[verifier::spinoff_prover]
#[verifier::rlimit(60)]
pub proof fn law_register_group(s: CpuState)
    requires
        s.valid(),
        s.pc < 0xFFFD,
        register_group(s.mem[s.pc as int]),
    ensures
        ({
            let op = s.mem[s.pc as int];
            let kind = op / 32;
            let on_x = op % 4 == 2;
            let addr = register_group_address(s, op);
            let m = s.mem[addr];
            let p = s.status;
            let r = if on_x { s.x } else { s.y };
            &&& step_outcome(s) matches Some((t, halted))
            &&& !halted
            &&& t.pc == s.pc + mode_length(((op / 4) % 8) as int)
            &&& t.a == s.a && t.sp == s.sp
            &&& (kind == 5 ==> t.mem == s.mem && result_flags(p, t.status, m) && (if on_x {
                t.x == m && t.y == s.y
            } else {
                t.y == m && t.x == s.x
            }))
            &&& (kind == 4 ==> t.mem == s.mem.update(addr, r) && t.status == p && t.x == s.x
                && t.y == s.y)
            &&& (kind == 6 || kind == 7 ==> {
                let reg = if kind == 7 { s.x } else { s.y };
                &&& t.mem == s.mem && t.x == s.x && t.y == s.y
                &&& (t.status & 0x01 == 0x01) == (reg >= m)
                &&& (t.status & 0x02 == 0x02) == (reg == m)
                &&& (t.status & 0x80 == 0x80) == ((reg - m) % 0x100 >= 0x80)
                &&& t.status & 0x7C == p & 0x7C
            })
            &&& (kind == 1 ==> {
                &&& t.mem == s.mem && t.x == s.x && t.y == s.y
                &&& (t.status & 0x02 == 0x02) == (s.a & m == 0)
                &&& (t.status & 0x80 == 0x80) == (m & 0x80 == 0x80)
                &&& (t.status & 0x40 == 0x40) == (m & 0x40 == 0x40)
                &&& t.status & 0x3D == p & 0x3D
            })
        }),
{
    let op = s.mem[s.pc as int];
    register_group_table(op);
    register_group_operand(s, op);
    let addr = register_group_address(s, op);
    let m = s.mem[addr];
    let s2 = s.with_pc((s.pc + mode_length(((op / 4) % 8) as int)) as u16);
    bits_result(s.status, m);
    let reg = if op / 32 == 7 { s.x } else { s.y };
    let d = wrap8(reg - m);
    assert(d as int == (reg - m) % 0x100);
    bits_carry_result(s.status, reg >= m, d);
    bits_test(s.status, s.a & m == 0, m >= 0x80, m & 0x40 == 0x40);
    assert((m & 0x80 == 0x80) == (m >= 0x80)) by (bit_vector);
}

/// The opcodes that the interpreter executes; every other byte is refused.
pub open spec fn defined_opcode(op: u8) -> bool {
        op == 0x00 || op == 0x01 || op == 0x05 || op == 0x06 || op == 0x08 || op == 0x09 ||
        op == 0x0A || op == 0x0D || op == 0x0E || op == 0x10 || op == 0x11 || op == 0x15 ||
        op == 0x16 || op == 0x18 || op == 0x19 || op == 0x1D || op == 0x1E || op == 0x20 ||
        op == 0x21 || op == 0x24 || op == 0x25 || op == 0x26 || op == 0x28 || op == 0x29 ||
        op == 0x2A || op == 0x2C || op == 0x2D || op == 0x2E || op == 0x30 || op == 0x31 ||
        op == 0x35 || op == 0x36 || op == 0x38 || op == 0x39 || op == 0x3D || op == 0x3E ||
        op == 0x40 || op == 0x41 || op == 0x45 || op == 0x46 || op == 0x48 || op == 0x49 ||
        op == 0x4A || op == 0x4C || op == 0x4D || op == 0x4E || op == 0x50 || op == 0x51 ||
        op == 0x55 || op == 0x56 || op == 0x58 || op == 0x59 || op == 0x5D || op == 0x5E ||
        op == 0x60 || op == 0x61 || op == 0x65 || op == 0x66 || op == 0x68 || op == 0x69 ||
        op == 0x6A || op == 0x6C || op == 0x6D || op == 0x6E || op == 0x70 || op == 0x71 ||
        op == 0x75 || op == 0x76 || op == 0x78 || op == 0x79 || op == 0x7D || op == 0x7E ||
        op == 0x81 || op == 0x84 || op == 0x85 || op == 0x86 || op == 0x88 || op == 0x8A ||
        op == 0x8C || op == 0x8D || op == 0x8E || op == 0x90 || op == 0x91 || op == 0x94 ||
        op == 0x95 || op == 0x96 || op == 0x98 || op == 0x99 || op == 0x9A || op == 0x9D ||
        op == 0xA0 || op == 0xA1 || op == 0xA2 || op == 0xA4 || op == 0xA5 || op == 0xA6 ||
        op == 0xA8 || op == 0xA9 || op == 0xAA || op == 0xAC || op == 0xAD || op == 0xAE ||
        op == 0xB0 || op == 0xB1 || op == 0xB4 || op == 0xB5 || op == 0xB6 || op == 0xB8 ||
        op == 0xB9 || op == 0xBA || op == 0xBC || op == 0xBD || op == 0xBE || op == 0xC0 ||
        op == 0xC1 || op == 0xC4 || op == 0xC5 || op == 0xC6 || op == 0xC8 || op == 0xC9 ||
        op == 0xCA || op == 0xCC || op == 0xCD || op == 0xCE || op == 0xD0 || op == 0xD1 ||
        op == 0xD5 || op == 0xD6 || op == 0xD9 || op == 0xDD || op == 0xDE || op == 0xE0 ||
        op == 0xE1 || op == 0xE4 || op == 0xE5 || op == 0xE6 || op == 0xE8 || op == 0xE9 ||
        op == 0xEA || op == 0xEC || op == 0xED || op == 0xEE || op == 0xF0 || op == 0xF1 ||
        op == 0xF5 || op == 0xF6 || op == 0xF8 || op == 0xF9 || op == 0xFD || op == 0xFE
}

/// A step whose opcode is not one of the defined opcodes (CLD 0xD8, for one) fails,
/// whatever the rest of the state.
#[verifier::spinoff_prover]
#[verifier::rlimit(60)]
pub proof fn law_undefined_opcodes_refused(s: CpuState)
    requires
        !defined_opcode(s.mem[s.pc as int]),
    ensures
        step_outcome(s) is None,
{
}

} // verus!
