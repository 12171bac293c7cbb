use vstd::prelude::*;
use crate::alu::{
    add_carries, add_overflows, add_result, rotate_left, rotate_right, shift_left, shift_right,
    sub_carries, sub_overflows, sub_result,
};
use crate::flags::{
    assign_flag, carry_in, flag_set, is_negative, with_nz, CARRY, DECIMAL, INTERRUPT, NEGETIVE,
    OVERFLOW, ZERO,
};
use crate::isa::{opcode_table, AddressingMode, Instruction};
use crate::state::{word_at, wrap16, wrap8, write_word, CpuState, MEMORY_SIZE, PROGRAM_START, RESET_VECTOR};

verus! {

/// The status byte after adding `m` to `a` with carry `c`: CARRY and OVERFLOW from the
/// sum, then ZERO and NEGATIVE from the result.
pub open spec fn add_status(p: u8, a: u8, m: u8, c: int) -> u8 {
    with_nz(
        assign_flag(assign_flag(p, CARRY, add_carries(a, m, c)), OVERFLOW, add_overflows(a, m, c)),
        add_result(a, m, c),
    )
}

/// The status byte after subtracting `m` from `a` with carry `c`.
pub open spec fn sub_status(p: u8, a: u8, m: u8, c: int) -> u8 {
    with_nz(
        assign_flag(assign_flag(p, CARRY, sub_carries(a, m, c)), OVERFLOW, sub_overflows(a, m, c)),
        sub_result(a, m, c),
    )
}

/// The status byte after comparing a register holding `r` with `m`: ZERO and NEGATIVE
/// from `r - m` modulo 256, CARRY when `r >= m`.
pub open spec fn compare_status(p: u8, r: u8, m: u8) -> u8 {
    assign_flag(with_nz(p, wrap8(r - m)), CARRY, r >= m)
}

/// The status byte after a shift or rotation that moved `carry_out` into CARRY and
/// produced `r`.
pub open spec fn shift_status(p: u8, carry_out: bool, r: u8) -> u8 {
    with_nz(assign_flag(p, CARRY, carry_out), r)
}

/// The status byte after BIT with accumulator `a` and memory byte `m`: ZERO from
/// `a & m`, NEGATIVE and OVERFLOW copied from bits 7 and 6 of `m`.
pub open spec fn bit_status(p: u8, a: u8, m: u8) -> u8 {
    assign_flag(
        assign_flag(assign_flag(p, ZERO, a & m == 0), NEGETIVE, is_negative(m)),
        OVERFLOW,
        flag_set(m, OVERFLOW),
    )
}

impl CpuState {
    /// A loaded with `v`; ZERO and NEGATIVE follow `v`.
    pub open spec fn load_a(self, v: u8) -> CpuState {
        CpuState { a: v, status: with_nz(self.status, v), ..self }
    }

    /// X loaded with `v`; ZERO and NEGATIVE follow `v`.
    pub open spec fn load_x(self, v: u8) -> CpuState {
        CpuState { x: v, status: with_nz(self.status, v), ..self }
    }

    /// Y loaded with `v`; ZERO and NEGATIVE follow `v`.
    pub open spec fn load_y(self, v: u8) -> CpuState {
        CpuState { y: v, status: with_nz(self.status, v), ..self }
    }

    /// The byte at `addr`.
    pub open spec fn byte(self, addr: u16) -> u8 {
        self.mem[addr as int]
    }
}

/// Whether an instruction works on an operand address fetched by its addressing mode.
pub open spec fn takes_address(ins: Instruction) -> bool {
    match ins {
        Instruction::Adc | Instruction::And | Instruction::Asl | Instruction::Bit
        | Instruction::Cmp | Instruction::Cpx | Instruction::Cpy | Instruction::Dec
        | Instruction::Eor | Instruction::Inc | Instruction::Jmp | Instruction::Jsr
        | Instruction::Lda | Instruction::Ldx | Instruction::Ldy | Instruction::Lsr
        | Instruction::Ora | Instruction::Rol | Instruction::Ror | Instruction::Sbc
        | Instruction::Sta | Instruction::Stx | Instruction::Sty => true,
        _ => false,
    }
}

/// The effect of an instruction on its operand at `addr`, in a state whose program
/// counter is already past the operand bytes. `None` where the original panics (a jump
/// through the word at 0xFFFF) or for an instruction that takes no address.
pub open spec fn addressed_effect(s: CpuState, ins: Instruction, addr: u16) -> Option<CpuState> {
    let m = s.byte(addr);
    let c = carry_in(s.status);
    match ins {
        Instruction::Adc => Some(
            CpuState { a: add_result(s.a, m, c), status: add_status(s.status, s.a, m, c), ..s },
        ),
        Instruction::Sbc => Some(
            CpuState { a: sub_result(s.a, m, c), status: sub_status(s.status, s.a, m, c), ..s },
        ),
        Instruction::And => Some(s.load_a(s.a & m)),
        Instruction::Ora => Some(s.load_a(s.a | m)),
        Instruction::Eor => Some(s.load_a(s.a ^ m)),
        Instruction::Lda => Some(s.load_a(m)),
        Instruction::Ldx => Some(s.load_x(m)),
        Instruction::Ldy => Some(s.load_y(m)),
        Instruction::Sta => Some(s.with_byte(addr, s.a)),
        Instruction::Stx => Some(s.with_byte(addr, s.x)),
        Instruction::Sty => Some(s.with_byte(addr, s.y)),
        Instruction::Cmp => Some(s.with_status(compare_status(s.status, s.a, m))),
        Instruction::Cpx => Some(s.with_status(compare_status(s.status, s.x, m))),
        Instruction::Cpy => Some(s.with_status(compare_status(s.status, s.y, m))),
        Instruction::Bit => Some(s.with_status(bit_status(s.status, s.a, m))),
        Instruction::Inc => Some(
            s.with_byte(addr, wrap8(m + 1)).with_status(with_nz(s.status, wrap8(m + 1))),
        ),
        Instruction::Dec => Some(
            s.with_byte(addr, wrap8(m - 1)).with_status(with_nz(s.status, wrap8(m - 1))),
        ),
        Instruction::Asl => Some(
            s.with_byte(addr, shift_left(m)).with_status(
                shift_status(s.status, is_negative(m), shift_left(m)),
            ),
        ),
        Instruction::Lsr => Some(
            s.with_byte(addr, shift_right(m)).with_status(
                shift_status(s.status, m % 2 == 1, shift_right(m)),
            ),
        ),
        Instruction::Rol => Some(
            s.with_byte(addr, rotate_left(m, c)).with_status(
                shift_status(s.status, is_negative(m), rotate_left(m, c)),
            ),
        ),
        Instruction::Ror => Some(
            s.with_byte(addr, rotate_right(m, c)).with_status(
                shift_status(s.status, m % 2 == 1, rotate_right(m, c)),
            ),
        ),
        Instruction::Jmp => if addr < 0xFFFF {
            Some(s.with_pc(word_at(s.mem, addr as int)))
        } else {
            None
        },
        Instruction::Jsr => Some(s.push_word(s.pc).with_pc(addr)),
        _ => None,
    }
}

/// Whether the branch instruction `ins` is taken under the status byte `p`.
pub open spec fn branch_taken(ins: Instruction, p: u8) -> bool {
    match ins {
        Instruction::Bcc => !flag_set(p, CARRY),
        Instruction::Bcs => flag_set(p, CARRY),
        Instruction::Beq => flag_set(p, ZERO),
        Instruction::Bne => !flag_set(p, ZERO),
        Instruction::Bmi => flag_set(p, NEGETIVE),
        Instruction::Bpl => !flag_set(p, NEGETIVE),
        Instruction::Bvc => !flag_set(p, OVERFLOW),
        Instruction::Bvs => flag_set(p, OVERFLOW),
        _ => false,
    }
}

/// A branch whose offset byte lies at the program counter: when taken, the program
/// counter moves forward from the offset byte by the offset, read unsigned; otherwise it
/// steps over the offset byte. `None` for a taken branch with offset 0, where the
/// original's `offset - 1` overflows.
pub open spec fn branch(s: CpuState, taken: bool) -> Option<CpuState> {
    if taken {
        let offset = s.byte(s.pc);
        if offset == 0 {
            None
        } else {
            Some(s.with_pc(wrap16(s.pc + offset)))
        }
    } else {
        Some(s.with_pc(wrap16(s.pc + 1)))
    }
}

/// The effect of an instruction that fetches no operand address. `None` where the
/// original panics (pulling from a stack whose pointer is 0xFF, a taken branch with
/// offset 0) or for an instruction that takes an address.
pub open spec fn implied_effect(s: CpuState, ins: Instruction) -> Option<CpuState> {
    let p = s.status;
    let c = carry_in(p);
    match ins {
        Instruction::AslAcc => Some(
            CpuState { a: shift_left(s.a), status: shift_status(p, is_negative(s.a), shift_left(s.a)), ..s },
        ),
        Instruction::LsrAcc => Some(
            CpuState { a: shift_right(s.a), status: shift_status(p, s.a % 2 == 1, shift_right(s.a)), ..s },
        ),
        Instruction::RolAcc => Some(
            CpuState { a: rotate_left(s.a, c), status: shift_status(p, is_negative(s.a), rotate_left(s.a, c)), ..s },
        ),
        Instruction::RorAcc => Some(
            CpuState { a: rotate_right(s.a, c), status: shift_status(p, s.a % 2 == 1, rotate_right(s.a, c)), ..s },
        ),
        Instruction::Bcc | Instruction::Bcs | Instruction::Beq | Instruction::Bne
        | Instruction::Bmi | Instruction::Bpl | Instruction::Bvc | Instruction::Bvs => branch(
            s,
            branch_taken(ins, p),
        ),
        Instruction::Clc => Some(s.with_status(assign_flag(p, CARRY, false))),
        Instruction::Sec => Some(s.with_status(assign_flag(p, CARRY, true))),
        Instruction::Cli => Some(s.with_status(assign_flag(p, INTERRUPT, false))),
        Instruction::Sei => Some(s.with_status(assign_flag(p, INTERRUPT, true))),
        Instruction::Clv => Some(s.with_status(assign_flag(p, OVERFLOW, false))),
        Instruction::Sed => Some(s.with_status(assign_flag(p, DECIMAL, true))),
        Instruction::Inx => Some(s.load_x(wrap8(s.x + 1))),
        Instruction::Iny => Some(s.load_y(wrap8(s.y + 1))),
        Instruction::Dex => Some(s.load_x(wrap8(s.x - 1))),
        Instruction::Dey => Some(s.load_y(wrap8(s.y - 1))),
        Instruction::Tax => Some(s.load_x(s.a)),
        Instruction::Tay => Some(s.load_y(s.a)),
        Instruction::Txa => Some(s.load_a(s.x)),
        Instruction::Tya => Some(s.load_a(s.y)),
        Instruction::Tsx => Some(s.load_x(s.sp)),
        Instruction::Txs => Some(CpuState { sp: s.x, ..s }),
        Instruction::Nop => Some(s),
        Instruction::Pha => Some(s.push_byte(s.a)),
        Instruction::Php => Some(s.push_byte(p)),
        Instruction::Pla => match s.pull_byte() {
            Some((v, t)) => Some(t.load_a(v)),
            None => None,
        },
        Instruction::Plp => match s.pull_byte() {
            Some((v, t)) => Some(t.with_status(v)),
            None => None,
        },
        Instruction::Rts => match s.pull_word() {
            Some((w, t)) => Some(t.with_pc(w)),
            None => None,
        },
        Instruction::Rti => match s.pull_byte() {
            Some((v, t)) => match t.with_status(v).pull_word() {
                Some((w, u)) => Some(u.with_pc(w)),
                None => None,
            },
            None => None,
        },
        _ => None,
    }
}

/// Executes `ins` in `mode` in a state whose program counter is past the opcode: the
/// next state and whether the interpreter halts (BRK). `None` where the original panics.
pub open spec fn execute(s: CpuState, ins: Instruction, mode: AddressingMode) -> Option<(CpuState, bool)> {
    if ins is Brk {
        Some((s, true))
    } else if takes_address(ins) {
        match s.operand_address(mode) {
            Some((addr, next)) => match addressed_effect(s.with_pc(next), ins, addr) {
                Some(t) => Some((t, false)),
                None => None,
            },
            None => None,
        }
    } else {
        match implied_effect(s, ins) {
            Some(t) => Some((t, false)),
            None => None,
        }
    }
}

/// One step of the interpreter: fetch the opcode at the program counter, move past it,
/// decode and execute. The next state and whether BRK halted the machine; `None` where
/// the original panics (an unknown opcode among them).
pub open spec fn step_outcome(s: CpuState) -> Option<(CpuState, bool)> {
    let opcode = s.byte(s.pc);
    match opcode_table(opcode) {
        Some((ins, mode)) => execute(s.with_pc(wrap16(s.pc + 1)), ins, mode),
        None => None,
    }
}

/// Runs at most `fuel` steps from `s`, stopping at BRK: the state reached and whether it
/// halted; `None` when a step on the way panics.
pub open spec fn run_for(s: CpuState, fuel: nat) -> Option<(CpuState, bool)>
    decreases fuel,
{
    if fuel == 0 {
        Some((s, false))
    } else {
        match step_outcome(s) {
            Some((t, true)) => Some((t, true)),
            Some((t, false)) => run_for(t, (fuel - 1) as nat),
            None => None,
        }
    }
}

/// Whether running `fuel` steps from `s` reaches BRK without a panic.
pub open spec fn halts_within(s: CpuState, fuel: nat) -> bool {
    match run_for(s, fuel) {
        Some((_, halted)) => halted,
        None => false,
    }
}

/// Whether the interpreter, started in `s`, halts at a BRK without panicking.
pub open spec fn halts(s: CpuState) -> bool {
    exists|fuel: nat| halts_within(s, fuel)
}

/// The state in which the interpreter started in `s` halts.
pub open spec fn halted_state(s: CpuState) -> CpuState {
    run_for(s, choose|fuel: nat| halts_within(s, fuel)).unwrap().0
}

/// The state of a freshly made machine: registers and memory zero, stack pointer 0xFF.
pub open spec fn power_on_state() -> CpuState {
    CpuState { a: 0, x: 0, y: 0, status: 0, pc: 0, sp: 0xFF, mem: Seq::new(MEMORY_SIZE as nat, |i: int| 0u8) }
}

/// `s` after a reset: registers and status zero, stack pointer 0xFF, program counter
/// loaded from the reset vector; memory unchanged.
pub open spec fn reset_state(s: CpuState) -> CpuState {
    CpuState { a: 0, x: 0, y: 0, status: 0, sp: 0xFF, pc: word_at(s.mem, RESET_VECTOR as int), ..s }
}

/// `mem` with `bytes` stored from `start` on.
pub open spec fn write_bytes(mem: Seq<u8>, start: int, bytes: Seq<u8>) -> Seq<u8> {
    Seq::new(mem.len(), |i: int| if start <= i < start + bytes.len() { bytes[i - start] } else { mem[i] })
}

/// `s` after loading `program`: its bytes stored from 0x8000 on, then the reset vector
/// pointed at 0x8000; registers unchanged.
pub open spec fn loaded_state(s: CpuState, program: Seq<u8>) -> CpuState {
    CpuState {
        mem: write_word(write_bytes(s.mem, PROGRAM_START as int, program), RESET_VECTOR as int, PROGRAM_START),
        ..s
    }
}

} // verus!
