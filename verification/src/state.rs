use vstd::prelude::*;
use crate::isa::AddressingMode;

verus! {

/// Number of bytes in the address space.
pub const MEMORY_SIZE: usize = 0x10000;

/// Address of the first byte of the stack page; the stack pointer indexes into it.
pub const STACK_BASE: u16 = 0x0100;

/// Address of the word that `reset` loads into the program counter.
pub const RESET_VECTOR: u16 = 0xFFFC;

/// Address at which programs are loaded.
pub const PROGRAM_START: u16 = 0x8000;

/// The machine as a mathematical value: the registers and the 64 KiB of memory.
#[verifier::ext_equal]
pub struct CpuState {
    pub a: u8,
    pub x: u8,
    pub y: u8,
    pub status: u8,
    pub pc: u16,
    pub sp: u8,
    pub mem: Seq<u8>,
}

/// `v` reduced modulo 256.
#[verifier::opaque]
pub open spec fn wrap8(v: int) -> u8 {
    (v % 0x100) as u8
}

/// `v` reduced modulo 65536.
#[verifier::opaque]
pub open spec fn wrap16(v: int) -> u16 {
    (v % 0x10000) as u16
}

/// The little-endian word stored at `addr` and `addr + 1`.
pub open spec fn word_at(mem: Seq<u8>, addr: int) -> u16 {
    (mem[addr] + 0x100 * mem[addr + 1]) as u16
}

/// `mem` with the little-endian word `w` stored at `addr` and `addr + 1`.
pub open spec fn write_word(mem: Seq<u8>, addr: int, w: u16) -> Seq<u8> {
    mem.update(addr, (w % 0x100) as u8).update(addr + 1, (w / 0x100) as u8)
}

/// The address of the stack byte that the stack pointer `sp` designates.
pub open spec fn stack_address(sp: u8) -> int {
    STACK_BASE + sp
}

impl CpuState {
    /// A state whose memory covers the whole address space.
    pub open spec fn valid(self) -> bool {
        self.mem.len() == MEMORY_SIZE
    }

    /// The same state with the program counter at `pc`.
    pub open spec fn with_pc(self, pc: u16) -> CpuState {
        CpuState { pc, ..self }
    }

    /// The same state with the status register `p`.
    pub open spec fn with_status(self, p: u8) -> CpuState {
        CpuState { status: p, ..self }
    }

    /// The same state with `v` stored at `addr`.
    pub open spec fn with_byte(self, addr: u16, v: u8) -> CpuState {
        CpuState { mem: self.mem.update(addr as int, v), ..self }
    }

    /// Pushes one byte: the stack pointer moves down by one, then `v` is stored at the
    /// slot it designates.
    pub open spec fn push_byte(self, v: u8) -> CpuState {
        let sp = wrap8(self.sp - 1);
        CpuState { sp, mem: self.mem.update(stack_address(sp), v), ..self }
    }

    /// Pulls one byte: the byte at the slot the stack pointer designates, and the state
    /// with the stack pointer moved up by one; `None` when the stack pointer is 0xFF.
    pub open spec fn pull_byte(self) -> Option<(u8, CpuState)> {
        if self.sp == 0xFF {
            None
        } else {
            Some((self.mem[stack_address(self.sp)], CpuState { sp: wrap8(self.sp + 1), ..self }))
        }
    }

    /// Pushes a word: the stack pointer moves down by two, then `w` is stored
    /// little-endian at the slot it designates.
    pub open spec fn push_word(self, w: u16) -> CpuState {
        let sp = wrap8(self.sp - 2);
        CpuState { sp, mem: write_word(self.mem, stack_address(sp), w), ..self }
    }

    /// Pulls a word: the word at the slot the stack pointer designates, and the state
    /// with the stack pointer moved up by two; `None` when the stack pointer is 0xFF.
    pub open spec fn pull_word(self) -> Option<(u16, CpuState)> {
        if self.sp == 0xFF {
            None
        } else {
            Some((word_at(self.mem, stack_address(self.sp)), CpuState { sp: wrap8(self.sp + 2), ..self }))
        }
    }

    /// Where the operand of an instruction in `mode` lies, reading the operand bytes at
    /// the program counter: the operand's address and the program counter after the
    /// operand bytes. `None` where the original reads a word at 0xFFFF or the mode
    /// has no operand.
    pub open spec fn operand_address(self, mode: AddressingMode) -> Option<(u16, u16)> {
        let p = self.pc as int;
        let next1 = wrap16(p + 1);
        let next2 = wrap16(p + 2);
        match mode {
            AddressingMode::Immediate => Some((self.pc, next1)),
            AddressingMode::ZeroPage => Some((self.mem[p] as u16, next1)),
            AddressingMode::ZeroPageX => Some((wrap8(self.mem[p] + self.x) as u16, next1)),
            AddressingMode::ZeroPageY => Some((wrap8(self.mem[p] + self.y) as u16, next1)),
            AddressingMode::Absolute => if p < 0xFFFF {
                Some((word_at(self.mem, p), next2))
            } else {
                None
            },
            AddressingMode::AbsoluteX => if p < 0xFFFF {
                Some((wrap16(word_at(self.mem, p) + self.x), next2))
            } else {
                None
            },
            AddressingMode::AbsoluteY => if p < 0xFFFF {
                Some((wrap16(word_at(self.mem, p) + self.y), next2))
            } else {
                None
            },
            AddressingMode::Indirect => Some((word_at(self.mem, self.mem[p] as int), next1)),
            AddressingMode::IndirectX => Some(
                (word_at(self.mem, wrap8(self.mem[p] + self.x) as int), next1),
            ),
            AddressingMode::IndirectY => Some(
                (wrap16(word_at(self.mem, self.mem[p] as int) + self.y), next1),
            ),
            AddressingMode::NoneAddressing => None,
        }
    }
}

/// Reduction modulo 256 of a value within one period of the byte range adds or
/// subtracts 256 at most once.
pub broadcast proof fn lemma_wrap8(v: int)
    requires
        -0x100 <= v < 0x200,
    ensures
        #[trigger] wrap8(v) == (if v >= 0x100 {
            v - 0x100
        } else if v < 0 {
            v + 0x100
        } else {
            v
        }),
{
    reveal(wrap8);
}

/// Reduction modulo 65536 of a value within one period of the word range adds or
/// subtracts 65536 at most once.
pub broadcast proof fn lemma_wrap16(v: int)
    requires
        -0x10000 <= v < 0x20000,
    ensures
        #[trigger] wrap16(v) == (if v >= 0x10000 {
            v - 0x10000
        } else if v < 0 {
            v + 0x10000
        } else {
            v
        }),
{
    reveal(wrap16);
}

/// The wrapping reductions.
pub broadcast group group_wrap {
    lemma_wrap8,
    lemma_wrap16,
}

} // verus!
