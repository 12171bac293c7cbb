use vstd::prelude::*;
use crate::alu::{lemma_add_bits, lemma_carry_in, lemma_shift_bits, lemma_sub_bits};
use crate::flags::{
    assign_flag, flag_set, is_negative, lemma_carry_bit, lemma_flag_clear, lemma_negative_bit,
    lemma_nz_order, CARRY, DECIMAL, INTERRUPT, NEGETIVE, OVERFLOW, ZERO,
};
use crate::isa::{decode, AddressingMode, Instruction};
use crate::semantics::{
    addressed_effect, branch, execute, halted_state, halts, halts_within, implied_effect,
    loaded_state, power_on_state, reset_state, run_for, step_outcome, write_bytes,
};
use crate::state::{group_wrap, word_at, write_word, CpuState, PROGRAM_START};

verus! {

broadcast use group_wrap;

/// The processor: registers, status flags and 64 KiB of memory.
pub struct CPU {
    pub register_a: u8,
    pub register_x: u8,
    pub register_y: u8,
    pub status_register: u8,
    pub program_counter: u16,
    pub stack_pointer: u8,
    pub memory: [u8; 0x10000],
}

impl View for CPU {
    type V = CpuState;

    open spec fn view(&self) -> CpuState {
        CpuState {
            a: self.register_a,
            x: self.register_x,
            y: self.register_y,
            status: self.status_register,
            pc: self.program_counter,
            sp: self.stack_pointer,
            mem: self.memory@,
        }
    }
}

impl CPU {
    /// A machine with registers and memory zero and the stack pointer at 0xFF.
    pub fn new() -> (cpu: Self)
        ensures
            cpu@ == power_on_state(),
    {
        CPU {
            register_a: 0,
            register_x: 0,
            register_y: 0,
            status_register: 0,
            program_counter: 0,
            stack_pointer: 0xff,
            memory: [0u8; 0x10000],
        }
    }

    /// The byte at `addr`.
    pub fn mem_read(&self, addr: u16) -> (v: u8)
        ensures
            v == self@.mem[addr as int],
    {
        self.memory[addr as usize]
    }

    /// Stores `value` at `addr`; nothing else changes.
    fn mem_write(&mut self, addr: u16, value: u8)
        ensures
            final(self)@ == old(self)@.with_byte(addr, value),
    {
        self.memory[addr as usize] = value;
    }

    /// The little-endian word at `addr` and `addr + 1`; `addr` 0xFFFF has no second byte.
    fn mem_read_u16(&self, addr: u16) -> (w: u16)
        requires
            addr < 0xFFFF,
        ensures
            w == word_at(self@.mem, addr as int),
    {
        let a = addr as usize;
        let lo = self.memory[a];
        let hi = self.memory[a + 1];
        lo as u16 + (hi as u16) * 256
    }

    /// Stores the little-endian word `value` at `addr` and `addr + 1`.
    fn mem_write_u16(&mut self, addr: u16, value: u16)
        requires
            addr < 0xFFFF,
        ensures
            final(self)@ == (CpuState { mem: write_word(old(self)@.mem, addr as int, value), ..old(self)@ }),
    {
        let a = addr as usize;
        self.memory[a] = (value % 256) as u8;
        self.memory[a + 1] = (value / 256) as u8;
    }

    /// Assigns ZERO from whether `value` is zero.
    fn set_zero_flag(&mut self, value: u8)
        ensures
            final(self)@ == old(self)@.with_status(assign_flag(old(self).status_register, ZERO, value == 0)),
    {
        if value == 0 {
            self.status_register |= ZERO;
        } else {
            self.status_register &= !ZERO;
        }
    }

    /// Assigns NEGATIVE from bit 7 of `value`.
    fn set_negetive_flag(&mut self, value: u8)
        ensures
            final(self)@ == old(self)@.with_status(
                assign_flag(old(self).status_register, NEGETIVE, is_negative(value)),
            ),
    {
        proof {
            lemma_negative_bit(value);
        }
        if value & NEGETIVE == NEGETIVE {
            self.status_register |= NEGETIVE;
        } else {
            self.status_register &= !NEGETIVE;
        }
    }

    /// Assigns OVERFLOW from bit 6 of `value`.
    fn set_overflow_flag(&mut self, value: u8)
        ensures
            final(self)@ == old(self)@.with_status(
                assign_flag(old(self).status_register, OVERFLOW, flag_set(value, OVERFLOW)),
            ),
    {
        if value & OVERFLOW == OVERFLOW {
            self.status_register |= OVERFLOW;
        } else {
            self.status_register &= !OVERFLOW;
        }
    }

    /// Assigns CARRY from bit 0 of `value`.
    fn set_carry_flag_bit0(&mut self, value: u8)
        ensures
            final(self)@ == old(self)@.with_status(
                assign_flag(old(self).status_register, CARRY, value % 2 == 1),
            ),
    {
        proof {
            lemma_carry_bit(value);
        }
        if value & CARRY == CARRY {
            self.status_register |= CARRY;
        } else {
            self.status_register &= !CARRY;
        }
    }

    /// Assigns CARRY from bit 7 of `value`.
    fn set_carry_flag_bit7(&mut self, value: u8)
        ensures
            final(self)@ == old(self)@.with_status(
                assign_flag(old(self).status_register, CARRY, is_negative(value)),
            ),
    {
        proof {
            lemma_negative_bit(value);
        }
        if value & NEGETIVE == NEGETIVE {
            self.status_register |= CARRY;
        } else {
            self.status_register &= !CARRY;
        }
    }
}

impl CPU {
    /// ADC: adds the byte at `address` and the carry to A.
    fn adc(&mut self, address: u16)
        ensures
            Some(final(self)@) == addressed_effect(old(self)@, Instruction::Adc, address),
    {
        let value = self.mem_read(address);

        let carry = (self.status_register & CARRY) as u16;
        let sum = self.register_a as u16 + value as u16 + carry;
        let result = sum as u8;
        proof {
            lemma_carry_in(self.status_register);
            lemma_add_bits(self.register_a, value, self.status_register & CARRY, sum, result);
        }

        if sum > 0xFF {
            self.status_register |= CARRY;
        } else {
            self.status_register &= !CARRY;
        }

        let a = self.register_a;
        let m = value;
        let r = result;

        if ((a ^ r) & (m ^ r) & 0x80) != 0 {
            self.status_register |= OVERFLOW;
        } else {
            self.status_register &= !OVERFLOW;
        }

        self.register_a = result;

        self.set_zero_flag(self.register_a);
        self.set_negetive_flag(self.register_a);
    }

    /// SBC: subtracts the byte at `address` and the borrow (inverted carry) from A.
    fn sbc(&mut self, address: u16)
        ensures
            Some(final(self)@) == addressed_effect(old(self)@, Instruction::Sbc, address),
    {
        let value = self.mem_read(address);
        let inverted = value ^ 0xFF;
        let sum = self.register_a as u16 + inverted as u16 + (self.status_register & CARRY) as u16;

        let result = sum as u8;
        proof {
            lemma_carry_in(self.status_register);
            lemma_sub_bits(self.register_a, value, self.status_register & CARRY, sum, result);
        }
        if sum > 0xFF {
            self.status_register |= CARRY;
        } else {
            self.status_register &= !CARRY;
        }
        let a = self.register_a;
        let m = value;
        let r = result;
        if ((a ^ r) & (a ^ m) & 0x80) != 0 {
            self.status_register |= OVERFLOW;
        } else {
            self.status_register &= !OVERFLOW;
        }
        self.register_a = result;
        self.set_zero_flag(self.register_a);
        self.set_negetive_flag(self.register_a);
    }
}

impl CPU {
    /// AND: A becomes A & the byte at `address`.
    fn and(&mut self, address: u16)
        ensures
            Some(final(self)@) == addressed_effect(old(self)@, Instruction::And, address),
    {
        let value = self.mem_read(address);
        self.register_a &= value;
        self.set_zero_flag(self.register_a);
        self.set_negetive_flag(self.register_a);
    }

    /// ORA: A becomes A | the byte at `address`.
    fn ora(&mut self, address: u16)
        ensures
            Some(final(self)@) == addressed_effect(old(self)@, Instruction::Ora, address),
    {
        let value = self.mem_read(address);
        self.register_a |= value;
        self.set_zero_flag(self.register_a);
        self.set_negetive_flag(self.register_a);
    }

    /// EOR: A becomes A ^ the byte at `address`.
    fn eor(&mut self, address: u16)
        ensures
            Some(final(self)@) == addressed_effect(old(self)@, Instruction::Eor, address),
    {
        let value = self.mem_read(address);
        self.register_a ^= value;
        self.set_zero_flag(self.register_a);
        self.set_negetive_flag(self.register_a);
    }

    /// LDA: A becomes the byte at `address`.
    fn lda(&mut self, address: u16)
        ensures
            Some(final(self)@) == addressed_effect(old(self)@, Instruction::Lda, address),
    {
        let value = self.mem_read(address);
        self.register_a = value;
        self.set_zero_flag(value);
        self.set_negetive_flag(value);
    }

    /// LDX: X becomes the byte at `address`.
    fn ldx(&mut self, address: u16)
        ensures
            Some(final(self)@) == addressed_effect(old(self)@, Instruction::Ldx, address),
    {
        let value = self.mem_read(address);
        self.register_x = value;
        self.set_zero_flag(value);
        self.set_negetive_flag(value);
    }

    /// LDY: Y becomes the byte at `address`.
    fn ldy(&mut self, address: u16)
        ensures
            Some(final(self)@) == addressed_effect(old(self)@, Instruction::Ldy, address),
    {
        let value = self.mem_read(address);
        self.register_y = value;
        self.set_zero_flag(value);
        self.set_negetive_flag(value);
    }

    /// STA: stores A at `address`.
    fn sta(&mut self, address: u16)
        ensures
            Some(final(self)@) == addressed_effect(old(self)@, Instruction::Sta, address),
    {
        self.mem_write(address, self.register_a);
    }

    /// STX: stores X at `address`.
    fn stx(&mut self, address: u16)
        ensures
            Some(final(self)@) == addressed_effect(old(self)@, Instruction::Stx, address),
    {
        self.mem_write(address, self.register_x);
    }

    /// STY: stores Y at `address`.
    fn sty(&mut self, address: u16)
        ensures
            Some(final(self)@) == addressed_effect(old(self)@, Instruction::Sty, address),
    {
        self.mem_write(address, self.register_y);
    }

    /// CMP: compares A with the byte at `address`.
    fn cmp(&mut self, address: u16)
        ensures
            Some(final(self)@) == addressed_effect(old(self)@, Instruction::Cmp, address),
    {
        let m = self.mem_read(address);
        let value = self.register_a.wrapping_sub(m);
        self.set_zero_flag(value);
        self.set_negetive_flag(value);
        if self.register_a >= m {
            self.status_register |= CARRY;
        } else {
            self.status_register &= !CARRY;
        }
    }

    /// CPX: compares X with the byte at `address`.
    fn cpx(&mut self, address: u16)
        ensures
            Some(final(self)@) == addressed_effect(old(self)@, Instruction::Cpx, address),
    {
        let m = self.mem_read(address);
        let value = self.register_x.wrapping_sub(m);
        self.set_zero_flag(value);
        self.set_negetive_flag(value);
        if self.register_x >= m {
            self.status_register |= CARRY;
        } else {
            self.status_register &= !CARRY;
        }
    }

    /// CPY: compares Y with the byte at `address`.
    fn cpy(&mut self, address: u16)
        ensures
            Some(final(self)@) == addressed_effect(old(self)@, Instruction::Cpy, address),
    {
        let m = self.mem_read(address);
        let value = self.register_y.wrapping_sub(m);
        self.set_zero_flag(value);
        self.set_negetive_flag(value);
        if self.register_y >= m {
            self.status_register |= CARRY;
        } else {
            self.status_register &= !CARRY;
        }
    }

    /// BIT: tests the byte at `address` against A.
    fn bit(&mut self, address: u16)
        ensures
            Some(final(self)@) == addressed_effect(old(self)@, Instruction::Bit, address),
    {
        let value = self.mem_read(address);
        let result = self.register_a & value;
        self.set_zero_flag(result);
        self.set_negetive_flag(value);
        self.set_overflow_flag(value);
    }

    /// INC: increments the byte at `address`, wrapping.
    fn inc(&mut self, address: u16)
        ensures
            Some(final(self)@) == addressed_effect(old(self)@, Instruction::Inc, address),
    {
        let m: u8 = self.mem_read(address);
        let value = m.wrapping_add(1);
        self.mem_write(address, value);
        self.set_zero_flag(value);
        self.set_negetive_flag(value);
    }

    /// DEC: decrements the byte at `address`, wrapping.
    fn dec(&mut self, address: u16)
        ensures
            Some(final(self)@) == addressed_effect(old(self)@, Instruction::Dec, address),
    {
        let m: u8 = self.mem_read(address);
        let value = m.wrapping_sub(1);
        self.mem_write(address, value);
        self.set_zero_flag(value);
        self.set_negetive_flag(value);
    }

    /// ASL: shifts the byte at `address` left; bit 7 goes to CARRY.
    fn asl(&mut self, address: u16)
        ensures
            Some(final(self)@) == addressed_effect(old(self)@, Instruction::Asl, address),
    {
        let mut mem_value = self.mem_read(address);
        proof {
            lemma_shift_bits(mem_value, self.status_register);
        }
        self.set_carry_flag_bit7(mem_value);
        mem_value <<= 1;
        self.mem_write(address, mem_value);
        self.set_zero_flag(mem_value);
        self.set_negetive_flag(mem_value);
    }

    /// LSR: shifts the byte at `address` right; bit 0 goes to CARRY.
    fn lsr(&mut self, address: u16)
        ensures
            Some(final(self)@) == addressed_effect(old(self)@, Instruction::Lsr, address),
    {
        let mut mem_value = self.mem_read(address);
        proof {
            lemma_shift_bits(mem_value, self.status_register);
        }
        self.set_carry_flag_bit0(mem_value);
        mem_value >>= 1;
        self.mem_write(address, mem_value);
        self.set_zero_flag(mem_value);
        self.set_negetive_flag(mem_value);
    }

    /// ROL: rotates the byte at `address` left through CARRY.
    fn rol(&mut self, address: u16)
        ensures
            Some(final(self)@) == addressed_effect(old(self)@, Instruction::Rol, address),
    {
        let mut mem_value = self.mem_read(address);
        let temp = self.status_register;
        proof {
            lemma_shift_bits(mem_value, temp);
        }
        self.set_carry_flag_bit7(mem_value);
        mem_value <<= 1;
        mem_value |= temp & CARRY;
        self.set_zero_flag(mem_value);
        self.set_negetive_flag(mem_value);
        self.mem_write(address, mem_value);
    }

    /// ROR: rotates the byte at `address` right through CARRY.
    fn ror(&mut self, address: u16)
        ensures
            Some(final(self)@) == addressed_effect(old(self)@, Instruction::Ror, address),
    {
        let mut mem_value = self.mem_read(address);
        let temp = self.status_register;
        proof {
            lemma_shift_bits(mem_value, temp);
        }
        self.set_carry_flag_bit0(mem_value);
        mem_value >>= 1;
        mem_value |= (temp & CARRY) << 7;
        self.set_zero_flag(mem_value);
        self.set_negetive_flag(mem_value);
        self.mem_write(address, mem_value);
    }
}

impl CPU {
    /// Where the operand of an instruction in `mode` lies, reading the operand bytes at
    /// `pc`: its address and the program counter past the operand bytes; `None` for a
    /// word that would be read at 0xFFFF or a mode without operand.
    fn operand_address(&self, pc: u16, mode: &AddressingMode) -> (r: Option<(u16, u16)>)
        ensures
            r == self@.with_pc(pc).operand_address(*mode),
    {
        let next1 = pc.wrapping_add(1);
        let next2 = pc.wrapping_add(2);
        match mode {
            AddressingMode::Immediate => Some((pc, next1)),
            AddressingMode::ZeroPage => Some((self.mem_read(pc) as u16, next1)),
            AddressingMode::ZeroPageX => Some(
                (self.mem_read(pc).wrapping_add(self.register_x) as u16, next1),
            ),
            AddressingMode::ZeroPageY => Some(
                (self.mem_read(pc).wrapping_add(self.register_y) as u16, next1),
            ),
            AddressingMode::Absolute => if pc == 0xFFFF {
                None
            } else {
                Some((self.mem_read_u16(pc), next2))
            },
            AddressingMode::AbsoluteX => if pc == 0xFFFF {
                None
            } else {
                Some((self.mem_read_u16(pc).wrapping_add(self.register_x as u16), next2))
            },
            AddressingMode::AbsoluteY => if pc == 0xFFFF {
                None
            } else {
                Some((self.mem_read_u16(pc).wrapping_add(self.register_y as u16), next2))
            },
            AddressingMode::Indirect => {
                let ptr = self.mem_read(pc);
                Some((self.mem_read_u16(ptr as u16), next1))
            },
            AddressingMode::IndirectX => {
                let ptr = self.mem_read(pc);
                Some((self.mem_read_u16(ptr.wrapping_add(self.register_x) as u16), next1))
            },
            AddressingMode::IndirectY => {
                let ptr = self.mem_read(pc);
                Some((self.mem_read_u16(ptr as u16).wrapping_add(self.register_y as u16), next1))
            },
            AddressingMode::NoneAddressing => None,
        }
    }

    /// Reads the operand bytes of an instruction in `mode` at the program counter, moves
    /// the program counter past them, and returns the operand's address.
    fn get_operand_address(&mut self, mode: &AddressingMode) -> (address: u16)
        requires
            old(self)@.operand_address(*mode) is Some,
        ensures
            old(self)@.operand_address(*mode) == Some((address, final(self).program_counter)),
            final(self)@ == old(self)@.with_pc(final(self).program_counter),
    {
        match self.operand_address(self.program_counter, mode) {
            Some((address, next)) => {
                self.program_counter = next;
                address
            },
            None => {
                // excluded by the precondition
                0
            },
        }
    }

    /// A conditional branch: when `value` holds, the program counter moves forward by the
    /// offset byte it points at (read unsigned); otherwise it steps over that byte.
    fn branch_if_true(&mut self, value: bool)
        requires
            value ==> old(self)@.byte(old(self).program_counter) != 0,
        ensures
            Some(final(self)@) == branch(old(self)@, value),
    {
        if value {
            let address = self.get_operand_address(&AddressingMode::Immediate);
            let value = self.mem_read(address);
            //-1 to reduce the +1 that we updated from getting the address
            self.program_counter = self.program_counter.wrapping_add((value - 1) as u16);
        } else {
            self.program_counter = self.program_counter.wrapping_add(1);
        }
    }

    /// Pulls one byte from the stack.
    fn stack_pop_u8(&mut self) -> (v: u8)
        requires
            old(self).stack_pointer != 0xff,
        ensures
            old(self)@.pull_byte() == Some((v, final(self)@)),
    {
        let address = self.mem_read(0x0100 + self.stack_pointer as u16);
        self.stack_pointer = self.stack_pointer.wrapping_add(1);
        address
    }

    /// Pushes one byte onto the stack.
    pub fn stack_push_u8(&mut self, addr: u8)
        ensures
            final(self)@ == old(self)@.push_byte(addr),
    {
        self.stack_pointer = self.stack_pointer.wrapping_sub(1);
        self.mem_write(0x0100 + self.stack_pointer as u16, addr);
    }

    /// Pulls a word from the stack.
    fn stack_pop(&mut self) -> (w: u16)
        requires
            old(self).stack_pointer != 0xff,
        ensures
            old(self)@.pull_word() == Some((w, final(self)@)),
    {
        let address = self.mem_read_u16(0x0100 + self.stack_pointer as u16);
        self.stack_pointer = self.stack_pointer.wrapping_add(2);
        address
    }

    /// Pushes a word onto the stack.
    pub fn stack_push(&mut self, addr: u16)
        ensures
            final(self)@ == old(self)@.push_word(addr),
    {
        self.stack_pointer = self.stack_pointer.wrapping_sub(2);
        self.mem_write_u16(0x0100 + self.stack_pointer as u16, addr);
    }
}

impl CPU {
    /// Carries out an instruction that takes an operand address, given that address.
    fn run_addressed(&mut self, ins: Instruction, address: u16)
        requires
            addressed_effect(old(self)@, ins, address) is Some,
        ensures
            Some(final(self)@) == addressed_effect(old(self)@, ins, address),
    {
        match ins {
            Instruction::Adc => self.adc(address),
            Instruction::Sbc => self.sbc(address),
            Instruction::And => self.and(address),
            Instruction::Ora => self.ora(address),
            Instruction::Eor => self.eor(address),
            Instruction::Lda => self.lda(address),
            Instruction::Ldx => self.ldx(address),
            Instruction::Ldy => self.ldy(address),
            Instruction::Sta => self.sta(address),
            Instruction::Stx => self.stx(address),
            Instruction::Sty => self.sty(address),
            Instruction::Cmp => self.cmp(address),
            Instruction::Cpx => self.cpx(address),
            Instruction::Cpy => self.cpy(address),
            Instruction::Bit => self.bit(address),
            Instruction::Inc => self.inc(address),
            Instruction::Dec => self.dec(address),
            Instruction::Asl => self.asl(address),
            Instruction::Lsr => self.lsr(address),
            Instruction::Rol => self.rol(address),
            Instruction::Ror => self.ror(address),
            Instruction::Jmp => {
                self.program_counter = self.mem_read_u16(address);
            },
            Instruction::Jsr => {
                self.stack_push(self.program_counter);
                self.program_counter = address;
            },
            _ => {
                // excluded by the precondition: not an instruction with an operand address
            },
        }
    }

    /// Carries out an instruction that fetches no operand address.
    fn run_implied(&mut self, ins: Instruction)
        requires
            implied_effect(old(self)@, ins) is Some,
        ensures
            Some(final(self)@) == implied_effect(old(self)@, ins),
    {
        proof {
            lemma_flag_clear(self.status_register);
        }
        match ins {
            Instruction::AslAcc => {
                proof {
                    lemma_shift_bits(self.register_a, self.status_register);
                }
                self.set_carry_flag_bit7(self.register_a);
                self.register_a <<= 1;
                self.set_zero_flag(self.register_a);
                self.set_negetive_flag(self.register_a);
            },
            Instruction::LsrAcc => {
                proof {
                    lemma_shift_bits(self.register_a, self.status_register);
                }
                self.set_carry_flag_bit0(self.register_a);
                self.register_a >>= 1;
                self.set_zero_flag(self.register_a);
                self.set_negetive_flag(self.register_a);
            },
            Instruction::RolAcc => {
                let temp = self.status_register;
                proof {
                    lemma_shift_bits(self.register_a, temp);
                }
                self.set_carry_flag_bit7(self.register_a);
                self.register_a <<= 1;
                self.register_a |= temp & CARRY;
                self.set_zero_flag(self.register_a);
                self.set_negetive_flag(self.register_a);
            },
            Instruction::RorAcc => {
                let temp = self.status_register;
                proof {
                    lemma_shift_bits(self.register_a, temp);
                }
                self.set_carry_flag_bit0(self.register_a);
                self.register_a >>= 1;
                self.register_a |= (temp << 7) & NEGETIVE;
                self.set_zero_flag(self.register_a);
                self.set_negetive_flag(self.register_a);
            },
            Instruction::Bcc => self.branch_if_true(self.status_register & CARRY == 0),
            Instruction::Bcs => self.branch_if_true(self.status_register & CARRY == CARRY),
            Instruction::Beq => self.branch_if_true(self.status_register & ZERO == ZERO),
            Instruction::Bmi => self.branch_if_true(self.status_register & NEGETIVE == NEGETIVE),
            Instruction::Bne => self.branch_if_true(!(self.status_register & ZERO == ZERO)),
            Instruction::Bpl => self.branch_if_true(!(self.status_register & NEGETIVE == NEGETIVE)),
            Instruction::Bvc => self.branch_if_true(self.status_register & OVERFLOW == 0),
            Instruction::Bvs => self.branch_if_true(self.status_register & OVERFLOW == OVERFLOW),
            Instruction::Clc => {
                assert(!is_negative(!NEGETIVE)) by (bit_vector);
                self.set_carry_flag_bit7(!NEGETIVE);
            },
            Instruction::Sec => {
                proof {
                    lemma_carry_bit(CARRY);
                }
                self.set_carry_flag_bit0(CARRY);
            },
            Instruction::Cli => {
                self.status_register &= !INTERRUPT;
            },
            Instruction::Sei => {
                self.status_register |= INTERRUPT;
            },
            Instruction::Clv => {
                self.status_register &= !OVERFLOW;
            },
            Instruction::Sed => {
                self.status_register |= DECIMAL;
            },
            Instruction::Inx => {
                self.register_x = self.register_x.wrapping_add(1);
                self.set_zero_flag(self.register_x);
                self.set_negetive_flag(self.register_x);
            },
            Instruction::Iny => {
                self.register_y = self.register_y.wrapping_add(1);
                self.set_zero_flag(self.register_y);
                self.set_negetive_flag(self.register_y);
            },
            Instruction::Dex => {
                self.register_x = self.register_x.wrapping_sub(1);
                proof {
                    lemma_nz_order(self.status_register, self.register_x);
                }
                self.set_negetive_flag(self.register_x);
                self.set_zero_flag(self.register_x);
            },
            Instruction::Dey => {
                self.register_y = self.register_y.wrapping_sub(1);
                proof {
                    lemma_nz_order(self.status_register, self.register_y);
                }
                self.set_negetive_flag(self.register_y);
                self.set_zero_flag(self.register_y);
            },
            Instruction::Tax => {
                self.register_x = self.register_a;
                self.set_zero_flag(self.register_a);
                self.set_negetive_flag(self.register_a);
            },
            Instruction::Tay => {
                self.register_y = self.register_a;
                self.set_zero_flag(self.register_a);
                self.set_negetive_flag(self.register_a);
            },
            Instruction::Tsx => {
                self.register_x = self.stack_pointer;
                self.set_zero_flag(self.register_x);
                self.set_negetive_flag(self.register_x);
            },
            Instruction::Txa => {
                self.register_a = self.register_x;
                self.set_zero_flag(self.register_a);
                self.set_negetive_flag(self.register_a);
            },
            Instruction::Txs => {
                self.stack_pointer = self.register_x;
            },
            Instruction::Tya => {
                self.register_a = self.register_y;
                self.set_zero_flag(self.register_a);
                self.set_negetive_flag(self.register_a);
            },
            Instruction::Nop => {},
            Instruction::Pha => {
                self.stack_push_u8(self.register_a);
            },
            Instruction::Php => {
                self.stack_push_u8(self.status_register);
            },
            Instruction::Pla => {
                self.register_a = self.stack_pop_u8();
                self.set_zero_flag(self.register_a);
                self.set_negetive_flag(self.register_a);
            },
            Instruction::Plp => {
                self.status_register = self.stack_pop_u8();
            },
            Instruction::Rts => {
                self.program_counter = self.stack_pop();
            },
            Instruction::Rti => {
                self.status_register = self.stack_pop_u8();
                self.program_counter = self.stack_pop();
            },
            _ => {
                // excluded by the precondition: an instruction with an operand address
            },
        }
    }

    /// Carries out `ins` in `mode`, with the program counter past the opcode; returns
    /// whether the instruction halts the interpreter.
    fn execute_instruction(&mut self, ins: Instruction, mode: AddressingMode) -> (halted: bool)
        requires
            execute(old(self)@, ins, mode) is Some,
        ensures
            execute(old(self)@, ins, mode) == Some((final(self)@, halted)),
    {
        match ins {
            Instruction::Brk => {
                return true;
            },
            Instruction::Adc | Instruction::And | Instruction::Asl | Instruction::Bit
            | Instruction::Cmp | Instruction::Cpx | Instruction::Cpy | Instruction::Dec
            | Instruction::Eor | Instruction::Inc | Instruction::Jmp | Instruction::Jsr
            | Instruction::Lda | Instruction::Ldx | Instruction::Ldy | Instruction::Lsr
            | Instruction::Ora | Instruction::Rol | Instruction::Ror | Instruction::Sbc
            | Instruction::Sta | Instruction::Stx | Instruction::Sty => {
                let address = self.get_operand_address(&mode);
                self.run_addressed(ins, address);
            },
            _ => {
                self.run_implied(ins);
            },
        }
        false
    }

    /// One interpreter step: fetches the opcode at the program counter, moves past it,
    /// decodes and executes it; returns whether it was BRK.
    fn step_internal(&mut self) -> (halted: bool)
        requires
            step_outcome(old(self)@) is Some,
        ensures
            step_outcome(old(self)@) == Some((final(self)@, halted)),
    {
        let opcode: u8 = self.mem_read(self.program_counter);
        self.program_counter = self.program_counter.wrapping_add(1);
        match decode(opcode) {
            Some((ins, mode)) => self.execute_instruction(ins, mode),
            None => {
                // excluded by the precondition: an unknown opcode
                true
            },
        }
    }
}

impl CPU {
    /// Stores `program` from address 0x8000 on and points the reset vector at 0x8000.
    pub fn load_program(&mut self, program: Vec<u8>)
        requires
            program.len() <= 0x8000,
        ensures
            final(self)@ == loaded_state(old(self)@, program@),
    {
        self.load_program_from_js(program.as_slice());
    }

    /// Loads `program`, resets and interprets until BRK.
    pub fn run_program(&mut self, program: Vec<u8>)
        requires
            program.len() <= 0x8000,
            halts(reset_state(loaded_state(old(self)@, program@))),
        ensures
            final(self)@ == halted_state(reset_state(loaded_state(old(self)@, program@))),
    {
        self.load_program(program);
        self.reset();
        self.interpret();
    }

    /// Runs the interpreter from the current state until it executes BRK.
    pub fn interpret(&mut self)
        requires
            halts(old(self)@),
        ensures
            final(self)@ == halted_state(old(self)@),
    {
        let ghost start = self@;
        let ghost mut fuel: nat = choose|fuel: nat| halts_within(start, fuel);
        let ghost target = halted_state(start);
        loop
            invariant_except_break
                run_for(self@, fuel) == Some((target, true)),
            ensures
                self@ == target,
            decreases fuel,
        {
            let ghost before = self@;
            let halted = self.step_internal();
            proof {
                assert(fuel > 0);
                assert(run_for(before, fuel) == Some((target, true)));
            }
            if halted {
                break;
            }
            proof {
                fuel = (fuel - 1) as nat;
            }
        }
    }

    /// Clears A, X, Y and the status register, sets the stack pointer to 0xFF and loads
    /// the program counter from the reset vector at 0xFFFC.
    pub fn reset(&mut self)
        ensures
            final(self)@ == reset_state(old(self)@),
    {
        self.register_a = 0;
        self.register_x = 0;
        self.register_y = 0;
        self.status_register = 0;
        self.stack_pointer = 0xff;
        self.program_counter = self.mem_read_u16(0xFFFC);
    }

    /// Whether one step from the current state goes through: it does unless the opcode is
    /// unknown, a word would be read at 0xFFFF, a pull would find the stack pointer at
    /// 0xFF, or a taken branch has offset 0.
    pub fn can_step(&self) -> (r: bool)
        ensures
            r == step_outcome(self@) is Some,
    {
        let opcode = self.mem_read(self.program_counter);
        let next = self.program_counter.wrapping_add(1);
        let p = self.status_register;
        let sp = self.stack_pointer;
        proof {
            lemma_flag_clear(p);
        }
        match decode(opcode) {
            None => false,
            Some((ins, mode)) => match ins {
                Instruction::Brk => true,
                Instruction::Adc | Instruction::And | Instruction::Asl | Instruction::Bit
                | Instruction::Cmp | Instruction::Cpx | Instruction::Cpy | Instruction::Dec
                | Instruction::Eor | Instruction::Inc | Instruction::Jmp | Instruction::Jsr
                | Instruction::Lda | Instruction::Ldx | Instruction::Ldy | Instruction::Lsr
                | Instruction::Ora | Instruction::Rol | Instruction::Ror | Instruction::Sbc
                | Instruction::Sta | Instruction::Stx | Instruction::Sty => {
                    match self.operand_address(next, &mode) {
                        None => false,
                        Some((address, _)) => match ins {
                            Instruction::Jmp => address != 0xFFFF,
                            _ => true,
                        },
                    }
                },
                Instruction::Bcc => p & CARRY != 0 || self.mem_read(next) != 0,
                Instruction::Bcs => p & CARRY != CARRY || self.mem_read(next) != 0,
                Instruction::Beq => p & ZERO != ZERO || self.mem_read(next) != 0,
                Instruction::Bne => p & ZERO == ZERO || self.mem_read(next) != 0,
                Instruction::Bmi => p & NEGETIVE != NEGETIVE || self.mem_read(next) != 0,
                Instruction::Bpl => p & NEGETIVE == NEGETIVE || self.mem_read(next) != 0,
                Instruction::Bvc => p & OVERFLOW != 0 || self.mem_read(next) != 0,
                Instruction::Bvs => p & OVERFLOW != OVERFLOW || self.mem_read(next) != 0,
                Instruction::Pla | Instruction::Plp | Instruction::Rts => sp != 0xff,
                Instruction::Rti => sp != 0xff && sp != 0xfe,
                _ => true,
            },
        }
    }

    /// Executes one instruction; returns whether it was BRK.
    pub fn step(&mut self) -> (halted: bool)
        requires
            step_outcome(old(self)@) is Some,
        ensures
            step_outcome(old(self)@) == Some((final(self)@, halted)),
    {
        self.step_internal()
    }

    /// The accumulator.
    pub fn get_register_a(&self) -> (r: u8)
        ensures
            r == self.register_a,
    {
        self.register_a
    }

    /// The X register.
    pub fn get_register_x(&self) -> (r: u8)
        ensures
            r == self.register_x,
    {
        self.register_x
    }

    /// The Y register.
    pub fn get_register_y(&self) -> (r: u8)
        ensures
            r == self.register_y,
    {
        self.register_y
    }

    /// The status register.
    pub fn get_status_register(&self) -> (r: u8)
        ensures
            r == self.status_register,
    {
        self.status_register
    }

    /// The program counter.
    pub fn get_program_counter(&self) -> (r: u16)
        ensures
            r == self.program_counter,
    {
        self.program_counter
    }

    /// The stack pointer.
    pub fn get_stack_pointer(&self) -> (r: u8)
        ensures
            r == self.stack_pointer,
    {
        self.stack_pointer
    }

    /// A copy of the `length` bytes of memory from `start` on.
    pub fn get_memory_slice(&self, start: u16, length: u16) -> (bytes: Vec<u8>)
        requires
            start + length <= 0x10000,
        ensures
            bytes@ == self@.mem.subrange(start as int, start + length),
    {
        let start = start as usize;
        let length = length as usize;
        let mut bytes: Vec<u8> = Vec::new();
        let mut i: usize = 0;
        while i < length
            invariant
                start + length <= 0x10000,
                i <= length,
                bytes@ == self@.mem.subrange(start as int, start + i),
            decreases length - i,
        {
            bytes.push(self.memory[start + i]);
            i += 1;
        }
        bytes
    }

    /// Stores `program` from address 0x8000 on and points the reset vector at 0x8000.
    pub fn load_program_from_js(&mut self, program: &[u8])
        requires
            program.len() <= 0x8000,
        ensures
            final(self)@ == loaded_state(old(self)@, program@),
    {
        let ghost before = self@;
        let mut i: usize = 0;
        while i < program.len()
            invariant
                program.len() <= 0x8000,
                i <= program.len(),
                self@ == (CpuState {
                    mem: write_bytes(before.mem, PROGRAM_START as int, program@.take(i as int)),
                    ..before
                }),
            decreases program.len() - i,
        {
            self.memory[0x8000 + i] = program[i];
            i += 1;
        }
        self.mem_write_u16(0xFFFC, 0x8000);
    }
}

} // verus!
