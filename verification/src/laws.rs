use vstd::prelude::*;
use crate::alu::{
    add_carries, add_overflows, add_result, rotate_left, rotate_right, signed_value, sub_carries,
    sub_overflows, sub_result,
};
use crate::flags::{
    assign_flag, flag_set, is_negative, with_nz, CARRY, DECIMAL, INTERRUPT, NEGETIVE, OVERFLOW, ZERO,
};
use crate::isa::{opcode_table, AddressingMode, Instruction};
use crate::semantics::{
    addressed_effect, compare_status, halted_state, halts, halts_within, implied_effect,
    loaded_state, power_on_state, reset_state, run_for, step_outcome, write_bytes,
};
use crate::state::{
    group_wrap, stack_address, word_at, wrap16, wrap8, write_word, CpuState, PROGRAM_START,
    RESET_VECTOR,
};

verus! {

broadcast use group_wrap;

/// Reading a word back after writing it gives the word written.
pub proof fn law_word_read_after_write(mem: Seq<u8>, addr: int, w: u16)
    requires
        0 <= addr,
        addr + 1 < mem.len(),
    ensures
        word_at(write_word(mem, addr, w), addr) == w,
        forall|i: int| 0 <= i < mem.len() && i != addr && i != addr + 1
            ==> #[trigger] write_word(mem, addr, w)[i] == mem[i],
{
}

/// A pull returns the byte that the last push stored and puts the stack pointer back
/// where it was before the push. (Fails when the stack pointer is 0: the push leaves it
/// at 0xFF, where a pull panics.)
pub proof fn law_pull_byte_after_push(s: CpuState, v: u8)
    requires
        s.valid(),
        s.sp != 0,
    ensures
        s.push_byte(v).pull_byte() == Some((v, CpuState { sp: s.sp, ..s.push_byte(v) })),
{
}

/// A word pull returns the word that the last word push stored and puts the stack
/// pointer back where it was. (Fails when the stack pointer is 1: the push leaves it at
/// 0xFF.)
pub proof fn law_pull_word_after_push(s: CpuState, w: u16)
    requires
        s.valid(),
        s.sp != 1,
    ensures
        s.push_word(w).pull_word() == Some((w, CpuState { sp: s.sp, ..s.push_word(w) })),
{
    let t = s.push_word(w);
    law_word_read_after_write(s.mem, stack_address(t.sp), w);
}

/// PHA followed by PLA gives back the accumulator and the stack pointer; only ZERO and
/// NEGATIVE are recomputed from A.
pub proof fn law_pha_then_pla(s: CpuState)
    requires
        s.valid(),
        s.sp != 0,
    ensures
        ({
            let t = implied_effect(implied_effect(s, Instruction::Pha).unwrap(), Instruction::Pla);
            &&& t is Some
            &&& t.unwrap().a == s.a
            &&& t.unwrap().sp == s.sp
            &&& t.unwrap().status == with_nz(s.status, s.a)
        }),
{
    law_pull_byte_after_push(s, s.a);
}

/// PHP followed by PLP gives back the status register and the stack pointer.
pub proof fn law_php_then_plp(s: CpuState)
    requires
        s.valid(),
        s.sp != 0,
    ensures
        ({
            let t = implied_effect(implied_effect(s, Instruction::Php).unwrap(), Instruction::Plp);
            &&& t is Some
            &&& t.unwrap().status == s.status
            &&& t.unwrap().sp == s.sp
            &&& t.unwrap().a == s.a
        }),
{
    law_pull_byte_after_push(s, s.status);
}

/// A subroutine call to `target` followed by RTS returns to the instruction after the
/// call (the program counter the call started from) with the stack pointer restored.
/// (Fails when the stack pointer is 1.)
pub proof fn law_jsr_then_rts(s: CpuState, target: u16)
    requires
        s.valid(),
        s.sp != 1,
    ensures
        ({
            let called = addressed_effect(s, Instruction::Jsr, target).unwrap();
            let back = implied_effect(called, Instruction::Rts);
            &&& called.pc == target
            &&& back is Some
            &&& back.unwrap().pc == s.pc
            &&& back.unwrap().sp == s.sp
            &&& back.unwrap().a == s.a
            &&& back.unwrap().x == s.x
            &&& back.unwrap().y == s.y
            &&& back.unwrap().status == s.status
        }),
{
    law_pull_word_after_push(s, s.pc);
}

/// Subtraction with borrow is addition of the complement: SBC of `m` computes the same
/// result, carry and overflow as ADC of `255 - m`.
pub proof fn law_sub_is_add_of_complement(a: u8, m: u8, c: int)
    requires
        0 <= c <= 1,
    ensures
        sub_result(a, m, c) == add_result(a, (0xFF - m) as u8, c),
        sub_carries(a, m, c) == add_carries(a, (0xFF - m) as u8, c),
        sub_overflows(a, m, c) == add_overflows(a, (0xFF - m) as u8, c),
{
    let n = (0xFF - m) as u8;
    assert(signed_value(n) == -1 - signed_value(m));
    assert((a - m - (1 - c)) % 0x100 == (a + n + c) % 0x100) by {
        assert(a + n + c == (a - m - (1 - c)) + 0x100);
    }
}

/// Addition with carry is exact: the result byte plus 256 for the carry out is the sum.
pub proof fn law_add_is_exact(a: u8, m: u8, c: int)
    requires
        0 <= c <= 1,
    ensures
        add_result(a, m, c) + (if add_carries(a, m, c) { 0x100int } else { 0 }) == a + m + c,
        add_overflows(a, m, c) == (signed_value(a) + signed_value(m) + c != signed_value(
            add_result(a, m, c),
        )),
{
}

/// Rotating left and then right through the carry gives back the byte and the carry.
pub proof fn law_rotate_right_undoes_rotate_left(v: u8, c: int)
    requires
        0 <= c <= 1,
    ensures
        rotate_right(rotate_left(v, c), if is_negative(v) { 1 } else { 0 }) == v,
        (rotate_left(v, c) % 2 == 1) == (c == 1),
{
}

/// Decrementing undoes incrementing, modulo 256.
pub proof fn law_decrement_undoes_increment(v: u8)
    ensures
        wrap8(wrap8(v + 1) - 1) == v,
        wrap8(wrap8(v - 1) + 1) == v,
{
}

/// A comparison sets CARRY when the register is at least the operand and ZERO when they
/// are equal; the interrupt, decimal and overflow flags stay.
pub proof fn law_compare_flags(p: u8, r: u8, m: u8)
    ensures
        flag_set(compare_status(p, r, m), CARRY) == (r >= m),
        flag_set(compare_status(p, r, m), ZERO) == (r == m),
        flag_set(compare_status(p, r, m), NEGETIVE) == is_negative(wrap8(r - m)),
        compare_status(p, r, m) & (INTERRUPT | DECIMAL | OVERFLOW) == p & (INTERRUPT | DECIMAL
            | OVERFLOW),
{
    let z = wrap8(r - m) == 0;
    let n = is_negative(wrap8(r - m));
    let cy = r >= m;
    assert(wrap8(r - m) == 0 <==> r == m);
    lemma_flag_bits(p, z, n, cy);
}

/// The flag bits of the status byte that a comparison computes.
proof fn lemma_flag_bits(p: u8, z: bool, n: bool, cy: bool)
    by (bit_vector)
    ensures
        ({
            let q = if z { p | ZERO } else { p & !ZERO };
            let q2 = if n { q | NEGETIVE } else { q & !NEGETIVE };
            let q3 = if cy { q2 | CARRY } else { q2 & !CARRY };
            &&& (q3 & CARRY == CARRY) == cy
            &&& (q3 & ZERO == ZERO) == z
            &&& (q3 & NEGETIVE == NEGETIVE) == n
            &&& q3 & (INTERRUPT | DECIMAL | OVERFLOW) == p & (INTERRUPT | DECIMAL | OVERFLOW)
        }),
{
}

/// An opcode outside the instruction set makes a step fail, whatever the state.
pub proof fn law_unknown_opcode_refused(s: CpuState)
    requires
        opcode_table(s.mem[s.pc as int]) is None,
    ensures
        step_outcome(s) is None,
{
}

/// BRK halts the interpreter, with the program counter just past the opcode and nothing
/// else changed.
pub proof fn law_brk_halts(s: CpuState)
    requires
        s.mem[s.pc as int] == 0,
    ensures
        step_outcome(s) == Some((s.with_pc(wrap16(s.pc + 1)), true)),
{
}

/// Once a run reaches BRK, more fuel does not change where it halted.
pub proof fn law_halted_run_is_stable(s: CpuState, fuel: nat, more: nat)
    requires
        halts_within(s, fuel),
        fuel <= more,
    ensures
        run_for(s, more) == run_for(s, fuel),
    decreases fuel,
{
    if fuel > 0 {
        match step_outcome(s) {
            Some((t, false)) => {
                law_halted_run_is_stable(t, (fuel - 1) as nat, (more - 1) as nat);
            },
            _ => {},
        }
    }
}

/// Every step keeps memory at 64 KiB.
pub proof fn law_step_keeps_memory_size(s: CpuState)
    requires
        s.valid(),
        step_outcome(s) is Some,
    ensures
        step_outcome(s).unwrap().0.valid(),
{
}

/// Loading a program and resetting starts execution at 0x8000, with the program's bytes
/// in memory from there on (up to the reset vector, which the load writes last) and
/// every byte outside the program and the vector unchanged.
pub proof fn law_load_then_reset(s: CpuState, program: Seq<u8>)
    requires
        s.valid(),
        program.len() <= 0x8000,
    ensures
        reset_state(loaded_state(s, program)).pc == PROGRAM_START,
        forall|i: int|
            0 <= i < program.len() && PROGRAM_START + i < RESET_VECTOR ==> #[trigger] loaded_state(
                s,
                program,
            ).mem[PROGRAM_START + i] == program[i],
        forall|i: int|
            0 <= i < s.mem.len() && !(PROGRAM_START <= i < PROGRAM_START + program.len()) && i
                != RESET_VECTOR && i != RESET_VECTOR + 1 ==> #[trigger] loaded_state(s, program).mem[i]
                == s.mem[i],
{
    let bytes = write_bytes(s.mem, PROGRAM_START as int, program);
    law_word_read_after_write(bytes, RESET_VECTOR as int, PROGRAM_START);
}

/// Setting or clearing one flag reads back as what was assigned and leaves every other
/// bit of the status register as it was.
pub proof fn law_assign_flag_changes_only_that_flag(p: u8, on: bool)
    by (bit_vector)
    ensures
        flag_set(assign_flag(p, CARRY, on), CARRY) == on,
        flag_set(assign_flag(p, ZERO, on), ZERO) == on,
        flag_set(assign_flag(p, INTERRUPT, on), INTERRUPT) == on,
        flag_set(assign_flag(p, DECIMAL, on), DECIMAL) == on,
        flag_set(assign_flag(p, OVERFLOW, on), OVERFLOW) == on,
        flag_set(assign_flag(p, NEGETIVE, on), NEGETIVE) == on,
        assign_flag(p, CARRY, on) & !CARRY == p & !CARRY,
        assign_flag(p, ZERO, on) & !ZERO == p & !ZERO,
        assign_flag(p, INTERRUPT, on) & !INTERRUPT == p & !INTERRUPT,
        assign_flag(p, DECIMAL, on) & !DECIMAL == p & !DECIMAL,
        assign_flag(p, OVERFLOW, on) & !OVERFLOW == p & !OVERFLOW,
        assign_flag(p, NEGETIVE, on) & !NEGETIVE == p & !NEGETIVE,
{
}

/// Loads, transfers, logic operations, increments and decrements set ZERO exactly when
/// the result is zero and NEGATIVE exactly when bit 7 of the result is set, and leave
/// CARRY, INTERRUPT, DECIMAL and OVERFLOW as they were.
pub proof fn law_result_flags(p: u8, v: u8)
    by (bit_vector)
    ensures
        flag_set(with_nz(p, v), ZERO) == (v == 0),
        flag_set(with_nz(p, v), NEGETIVE) == (v & 0x80 == 0x80),
        with_nz(p, v) & (CARRY | INTERRUPT | DECIMAL | OVERFLOW) == p & (CARRY | INTERRUPT
            | DECIMAL | OVERFLOW),
{
}

/// Running a JSR instruction whose target holds RTS, and then that RTS, brings the
/// program counter to the instruction after the JSR with the stack pointer and the
/// registers restored. (The target byte must not be one of the two stack bytes the call
/// writes; the law fails for a stack pointer of 1, where RTS would pull at 0xFF.)
pub proof fn law_jsr_rts_round_trip(s: CpuState)
    requires
        s.valid(),
        s.sp != 1,
        s.pc < 0xFFFD,
        s.mem[s.pc as int] == 0x20,
        s.mem[word_at(s.mem, s.pc + 1) as int] == 0x60,
        word_at(s.mem, s.pc + 1) != stack_address(wrap8(s.sp - 2)),
        word_at(s.mem, s.pc + 1) != stack_address(wrap8(s.sp - 2)) + 1,
    ensures
        ({
            let target = word_at(s.mem, s.pc + 1);
            &&& step_outcome(s) is Some
            &&& !step_outcome(s).unwrap().1
            &&& step_outcome(s).unwrap().0.pc == target
            &&& step_outcome(step_outcome(s).unwrap().0) is Some
            &&& ({
                let u = step_outcome(step_outcome(s).unwrap().0).unwrap();
                &&& !u.1
                &&& u.0.pc == s.pc + 3
                &&& u.0.sp == s.sp
                &&& u.0.a == s.a
                &&& u.0.x == s.x
                &&& u.0.y == s.y
                &&& u.0.status == s.status
            })
        }),
{
    let target = word_at(s.mem, s.pc + 1);
    let s1 = s.with_pc(wrap16(s.pc + 1));
    assert(s1.operand_address(AddressingMode::Absolute) == Some((target, (s.pc + 3) as u16)));
    let t = step_outcome(s).unwrap().0;
    assert(t == s1.with_pc((s.pc + 3) as u16).push_word((s.pc + 3) as u16).with_pc(target));
    assert(t.mem[target as int] == 0x60);
    law_pull_word_after_push(s1.with_pc((s.pc + 3) as u16), (s.pc + 3) as u16);
}

/// A machine that was just made has A, X, Y, the status register and the program counter
/// at zero, the stack pointer at 0xFF and all 65536 bytes of memory zero.
pub proof fn law_power_on()
    ensures
        ({
            let t = power_on_state();
            &&& t.a == 0 && t.x == 0 && t.y == 0 && t.status == 0 && t.pc == 0 && t.sp == 0xFF
            &&& t.mem.len() == 0x10000
            &&& forall|i: int| 0 <= i < 0x10000 ==> #[trigger] t.mem[i] == 0
        }),
{
}

/// Reset clears A, X, Y and the status register, puts the stack pointer at 0xFF and the
/// program counter at the little-endian word stored at 0xFFFC; memory stays.
pub proof fn law_reset(s: CpuState)
    requires
        s.valid(),
    ensures
        ({
            let t = reset_state(s);
            &&& t.a == 0 && t.x == 0 && t.y == 0 && t.status == 0 && t.sp == 0xFF
            &&& t.pc as int == s.mem[0xFFFC] + 0x100 * s.mem[0xFFFD]
            &&& t.mem == s.mem
        }),
{
}

/// Loading a program stores its bytes from 0x8000 on, then stores the word 0x8000 at
/// 0xFFFC (0x00 at 0xFFFC, 0x80 at 0xFFFD), over the program if it reaches that far;
/// every other byte and every register stays.
pub proof fn law_load(s: CpuState, program: Seq<u8>)
    requires
        s.valid(),
        program.len() <= 0x8000,
    ensures
        ({
            let t = loaded_state(s, program);
            &&& t.a == s.a && t.x == s.x && t.y == s.y && t.status == s.status && t.pc == s.pc
                && t.sp == s.sp
            &&& t.mem.len() == 0x10000
            &&& t.mem[0xFFFC] == 0x00 && t.mem[0xFFFD] == 0x80
            &&& forall|i: int|
                0x8000 <= i < 0x8000 + program.len() && i < 0xFFFC ==> #[trigger] t.mem[i]
                    == program[i - 0x8000]
            &&& forall|i: int|
                0 <= i < 0x10000 && !(0x8000 <= i < 0x8000 + program.len()) && i != 0xFFFC && i
                    != 0xFFFD ==> #[trigger] t.mem[i] == s.mem[i]
        }),
{
    let bytes = write_bytes(s.mem, PROGRAM_START as int, program);
    law_word_read_after_write(bytes, RESET_VECTOR as int, PROGRAM_START);
}

/// Interpreting is stepping until BRK: from a state whose run halts, the first step goes
/// through; if it is BRK the run halts in the state it produces, otherwise the run from
/// that state halts too, in the same state.
pub proof fn law_halted_state_follows_steps(s: CpuState)
    requires
        halts(s),
    ensures
        step_outcome(s) is Some,
        step_outcome(s) matches Some((t, true)) ==> halted_state(s) == t,
        step_outcome(s) matches Some((t, false)) ==> halts(t) && halted_state(s) == halted_state(t),
{
    let n = choose|fuel: nat| halts_within(s, fuel);
    assert(halts_within(s, n));
    assert(n > 0);
    match step_outcome(s) {
        Some((t, true)) => {},
        Some((t, false)) => {
            let k = (n - 1) as nat;
            assert(halts_within(t, k));
            assert(halts(t));
            let n2 = choose|fuel: nat| halts_within(t, fuel);
            assert(halts_within(t, n2));
            if k <= n2 {
                law_halted_run_is_stable(t, k, n2);
            } else {
                law_halted_run_is_stable(t, n2, k);
            }
        },
        None => {},
    }
}

} // verus!
