use vstd::prelude::*;

verus! {

/// How an instruction finds the address of its operand.
#[derive(Clone, Copy, Debug, PartialEq, Eq, Structural)]
pub enum AddressingMode {
    Immediate,
    ZeroPage,
    ZeroPageX,
    ZeroPageY,
    Absolute,
    AbsoluteX,
    AbsoluteY,
    Indirect,
    IndirectX,
    IndirectY,
    NoneAddressing,
}

/// The operations that the interpreter knows.
#[derive(Clone, Copy, Debug, PartialEq, Eq, Structural)]
pub enum Instruction {
    /// Add memory to a with carry.
    Adc,
    /// Bitwise and of memory into a.
    And,
    /// Shift a memory byte left.
    Asl,
    /// Shift a left.
    AslAcc,
    /// Branch when carry is clear.
    Bcc,
    /// Branch when carry is set.
    Bcs,
    /// Branch when zero is set.
    Beq,
    /// Test bits of memory against a.
    Bit,
    /// Branch when negative is set.
    Bmi,
    /// Branch when zero is clear.
    Bne,
    /// Branch when negative is clear.
    Bpl,
    /// Halt the interpreter.
    Brk,
    /// Branch when overflow is clear.
    Bvc,
    /// Branch when overflow is set.
    Bvs,
    /// Clear carry.
    Clc,
    /// Clear interrupt-disable.
    Cli,
    /// Clear overflow.
    Clv,
    /// Compare a with memory.
    Cmp,
    /// Compare x with memory.
    Cpx,
    /// Compare y with memory.
    Cpy,
    /// Decrement a memory byte.
    Dec,
    /// Decrement x.
    Dex,
    /// Decrement y.
    Dey,
    /// Exclusive or of memory into a.
    Eor,
    /// Increment a memory byte.
    Inc,
    /// Increment x.
    Inx,
    /// Increment y.
    Iny,
    /// Jump through the word stored at the operand address.
    Jmp,
    /// Push the return address and jump to a subroutine.
    Jsr,
    /// Load a.
    Lda,
    /// Load x.
    Ldx,
    /// Load y.
    Ldy,
    /// Shift a memory byte right.
    Lsr,
    /// Shift a right.
    LsrAcc,
    /// Do nothing.
    Nop,
    /// Inclusive or of memory into a.
    Ora,
    /// Push a.
    Pha,
    /// Push the status register.
    Php,
    /// Pull a.
    Pla,
    /// Pull the status register.
    Plp,
    /// Rotate a memory byte left through carry.
    Rol,
    /// Rotate a left through carry.
    RolAcc,
    /// Rotate a memory byte right through carry.
    Ror,
    /// Rotate a right through carry.
    RorAcc,
    /// Pull the status register, then the program counter.
    Rti,
    /// Pull the program counter.
    Rts,
    /// Subtract memory from a with borrow.
    Sbc,
    /// Set carry.
    Sec,
    /// Set decimal mode.
    Sed,
    /// Set interrupt-disable.
    Sei,
    /// Store a.
    Sta,
    /// Store x.
    Stx,
    /// Store y.
    Sty,
    /// Copy a to x.
    Tax,
    /// Copy a to y.
    Tay,
    /// Copy the stack pointer to x.
    Tsx,
    /// Copy x to a.
    Txa,
    /// Copy x to the stack pointer.
    Txs,
    /// Copy y to a.
    Tya,
}

/// The instruction set: what each opcode means, `None` for an opcode the interpreter
/// does not know. Instructions that take no operand address carry `NoneAddressing`.
pub open spec fn opcode_table(opcode: u8) -> Option<(Instruction, AddressingMode)> {
    match opcode {
        0x69 => Some((Instruction::Adc, AddressingMode::Immediate)),
        0x65 => Some((Instruction::Adc, AddressingMode::ZeroPage)),
        0x75 => Some((Instruction::Adc, AddressingMode::ZeroPageX)),
        0x6D => Some((Instruction::Adc, AddressingMode::Absolute)),
        0x7D => Some((Instruction::Adc, AddressingMode::AbsoluteX)),
        0x79 => Some((Instruction::Adc, AddressingMode::AbsoluteY)),
        0x61 => Some((Instruction::Adc, AddressingMode::IndirectX)),
        0x71 => Some((Instruction::Adc, AddressingMode::IndirectY)),
        0x29 => Some((Instruction::And, AddressingMode::Immediate)),
        0x25 => Some((Instruction::And, AddressingMode::ZeroPage)),
        0x35 => Some((Instruction::And, AddressingMode::ZeroPageX)),
        0x2D => Some((Instruction::And, AddressingMode::Absolute)),
        0x3D => Some((Instruction::And, AddressingMode::AbsoluteX)),
        0x39 => Some((Instruction::And, AddressingMode::AbsoluteY)),
        0x21 => Some((Instruction::And, AddressingMode::IndirectX)),
        0x31 => Some((Instruction::And, AddressingMode::IndirectY)),
        0x0A => Some((Instruction::AslAcc, AddressingMode::NoneAddressing)),
        0x06 => Some((Instruction::Asl, AddressingMode::ZeroPage)),
        0x16 => Some((Instruction::Asl, AddressingMode::ZeroPageX)),
        0x0E => Some((Instruction::Asl, AddressingMode::Absolute)),
        0x1E => Some((Instruction::Asl, AddressingMode::AbsoluteX)),
        0x90 => Some((Instruction::Bcc, AddressingMode::NoneAddressing)),
        0xB0 => Some((Instruction::Bcs, AddressingMode::NoneAddressing)),
        0xF0 => Some((Instruction::Beq, AddressingMode::NoneAddressing)),
        0x30 => Some((Instruction::Bmi, AddressingMode::NoneAddressing)),
        0xD0 => Some((Instruction::Bne, AddressingMode::NoneAddressing)),
        0x10 => Some((Instruction::Bpl, AddressingMode::NoneAddressing)),
        0x24 => Some((Instruction::Bit, AddressingMode::ZeroPage)),
        0x2C => Some((Instruction::Bit, AddressingMode::Absolute)),
        0x50 => Some((Instruction::Bvc, AddressingMode::NoneAddressing)),
        0x70 => Some((Instruction::Bvs, AddressingMode::NoneAddressing)),
        0x18 => Some((Instruction::Clc, AddressingMode::NoneAddressing)),
        0x58 => Some((Instruction::Cli, AddressingMode::NoneAddressing)),
        0xB8 => Some((Instruction::Clv, AddressingMode::NoneAddressing)),
        0xC9 => Some((Instruction::Cmp, AddressingMode::Immediate)),
        0xC5 => Some((Instruction::Cmp, AddressingMode::ZeroPage)),
        0xD5 => Some((Instruction::Cmp, AddressingMode::ZeroPageX)),
        0xCD => Some((Instruction::Cmp, AddressingMode::Absolute)),
        0xDD => Some((Instruction::Cmp, AddressingMode::AbsoluteX)),
        0xD9 => Some((Instruction::Cmp, AddressingMode::AbsoluteY)),
        0xC1 => Some((Instruction::Cmp, AddressingMode::IndirectX)),
        0xD1 => Some((Instruction::Cmp, AddressingMode::IndirectY)),
        0xE0 => Some((Instruction::Cpx, AddressingMode::Immediate)),
        0xE4 => Some((Instruction::Cpx, AddressingMode::ZeroPage)),
        0xEC => Some((Instruction::Cpx, AddressingMode::Absolute)),
        0xC0 => Some((Instruction::Cpy, AddressingMode::Immediate)),
        0xC4 => Some((Instruction::Cpy, AddressingMode::ZeroPage)),
        0xCC => Some((Instruction::Cpy, AddressingMode::Absolute)),
        0xC6 => Some((Instruction::Dec, AddressingMode::ZeroPage)),
        0xD6 => Some((Instruction::Dec, AddressingMode::ZeroPageX)),
        0xCE => Some((Instruction::Dec, AddressingMode::Absolute)),
        0xDE => Some((Instruction::Dec, AddressingMode::AbsoluteX)),
        0xCA => Some((Instruction::Dex, AddressingMode::NoneAddressing)),
        0x88 => Some((Instruction::Dey, AddressingMode::NoneAddressing)),
        0x49 => Some((Instruction::Eor, AddressingMode::Immediate)),
        0x45 => Some((Instruction::Eor, AddressingMode::ZeroPage)),
        0x55 => Some((Instruction::Eor, AddressingMode::ZeroPageX)),
        0x4D => Some((Instruction::Eor, AddressingMode::Absolute)),
        0x5D => Some((Instruction::Eor, AddressingMode::AbsoluteX)),
        0x59 => Some((Instruction::Eor, AddressingMode::AbsoluteY)),
        0x41 => Some((Instruction::Eor, AddressingMode::IndirectX)),
        0x51 => Some((Instruction::Eor, AddressingMode::IndirectY)),
        0xE6 => Some((Instruction::Inc, AddressingMode::ZeroPage)),
        0xF6 => Some((Instruction::Inc, AddressingMode::ZeroPageX)),
        0xEE => Some((Instruction::Inc, AddressingMode::Absolute)),
        0xFE => Some((Instruction::Inc, AddressingMode::AbsoluteX)),
        0xE8 => Some((Instruction::Inx, AddressingMode::NoneAddressing)),
        0xC8 => Some((Instruction::Iny, AddressingMode::NoneAddressing)),
        0x4C => Some((Instruction::Jmp, AddressingMode::Absolute)),
        0x6C => Some((Instruction::Jmp, AddressingMode::Indirect)),
        0x20 => Some((Instruction::Jsr, AddressingMode::Absolute)),
        0x60 => Some((Instruction::Rts, AddressingMode::NoneAddressing)),
        0xA9 => Some((Instruction::Lda, AddressingMode::Immediate)),
        0xA5 => Some((Instruction::Lda, AddressingMode::ZeroPage)),
        0xB5 => Some((Instruction::Lda, AddressingMode::ZeroPageX)),
        0xAD => Some((Instruction::Lda, AddressingMode::Absolute)),
        0xBD => Some((Instruction::Lda, AddressingMode::AbsoluteX)),
        0xB9 => Some((Instruction::Lda, AddressingMode::AbsoluteY)),
        0xA1 => Some((Instruction::Lda, AddressingMode::IndirectX)),
        0xB1 => Some((Instruction::Lda, AddressingMode::IndirectY)),
        0xA2 => Some((Instruction::Ldx, AddressingMode::Immediate)),
        0xA6 => Some((Instruction::Ldx, AddressingMode::ZeroPage)),
        0xB6 => Some((Instruction::Ldx, AddressingMode::ZeroPageY)),
        0xAE => Some((Instruction::Ldx, AddressingMode::Absolute)),
        0xBE => Some((Instruction::Ldx, AddressingMode::AbsoluteY)),
        0xA0 => Some((Instruction::Ldy, AddressingMode::Immediate)),
        0xA4 => Some((Instruction::Ldy, AddressingMode::ZeroPage)),
        0xB4 => Some((Instruction::Ldy, AddressingMode::ZeroPageX)),
        0xAC => Some((Instruction::Ldy, AddressingMode::Absolute)),
        0xBC => Some((Instruction::Ldy, AddressingMode::AbsoluteX)),
        0x4A => Some((Instruction::LsrAcc, AddressingMode::NoneAddressing)),
        0x46 => Some((Instruction::Lsr, AddressingMode::ZeroPage)),
        0x56 => Some((Instruction::Lsr, AddressingMode::ZeroPageX)),
        0x4E => Some((Instruction::Lsr, AddressingMode::Absolute)),
        0x5E => Some((Instruction::Lsr, AddressingMode::AbsoluteX)),
        0xEA => Some((Instruction::Nop, AddressingMode::NoneAddressing)),
        0x09 => Some((Instruction::Ora, AddressingMode::Immediate)),
        0x05 => Some((Instruction::Ora, AddressingMode::ZeroPage)),
        0x15 => Some((Instruction::Ora, AddressingMode::ZeroPageX)),
        0x0D => Some((Instruction::Ora, AddressingMode::Absolute)),
        0x1D => Some((Instruction::Ora, AddressingMode::AbsoluteX)),
        0x19 => Some((Instruction::Ora, AddressingMode::AbsoluteY)),
        0x01 => Some((Instruction::Ora, AddressingMode::IndirectX)),
        0x11 => Some((Instruction::Ora, AddressingMode::IndirectY)),
        0x48 => Some((Instruction::Pha, AddressingMode::NoneAddressing)),
        0x08 => Some((Instruction::Php, AddressingMode::NoneAddressing)),
        0x68 => Some((Instruction::Pla, AddressingMode::NoneAddressing)),
        0x28 => Some((Instruction::Plp, AddressingMode::NoneAddressing)),
        0x2A => Some((Instruction::RolAcc, AddressingMode::NoneAddressing)),
        0x26 => Some((Instruction::Rol, AddressingMode::ZeroPage)),
        0x36 => Some((Instruction::Rol, AddressingMode::ZeroPageX)),
        0x2E => Some((Instruction::Rol, AddressingMode::Absolute)),
        0x3E => Some((Instruction::Rol, AddressingMode::AbsoluteX)),
        0x6A => Some((Instruction::RorAcc, AddressingMode::NoneAddressing)),
        0x66 => Some((Instruction::Ror, AddressingMode::ZeroPage)),
        0x76 => Some((Instruction::Ror, AddressingMode::ZeroPageX)),
        0x6E => Some((Instruction::Ror, AddressingMode::Absolute)),
        0x7E => Some((Instruction::Ror, AddressingMode::AbsoluteX)),
        0x40 => Some((Instruction::Rti, AddressingMode::NoneAddressing)),
        0xE9 => Some((Instruction::Sbc, AddressingMode::Immediate)),
        0xE5 => Some((Instruction::Sbc, AddressingMode::ZeroPage)),
        0xF5 => Some((Instruction::Sbc, AddressingMode::ZeroPageX)),
        0xED => Some((Instruction::Sbc, AddressingMode::Absolute)),
        0xFD => Some((Instruction::Sbc, AddressingMode::AbsoluteX)),
        0xF9 => Some((Instruction::Sbc, AddressingMode::AbsoluteY)),
        0xE1 => Some((Instruction::Sbc, AddressingMode::IndirectX)),
        0xF1 => Some((Instruction::Sbc, AddressingMode::IndirectY)),
        0x38 => Some((Instruction::Sec, AddressingMode::NoneAddressing)),
        0xF8 => Some((Instruction::Sed, AddressingMode::NoneAddressing)),
        0x78 => Some((Instruction::Sei, AddressingMode::NoneAddressing)),
        0x85 => Some((Instruction::Sta, AddressingMode::ZeroPage)),
        0x95 => Some((Instruction::Sta, AddressingMode::ZeroPageX)),
        0x8D => Some((Instruction::Sta, AddressingMode::Absolute)),
        0x9D => Some((Instruction::Sta, AddressingMode::AbsoluteX)),
        0x99 => Some((Instruction::Sta, AddressingMode::AbsoluteY)),
        0x81 => Some((Instruction::Sta, AddressingMode::IndirectX)),
        0x91 => Some((Instruction::Sta, AddressingMode::IndirectY)),
        0x86 => Some((Instruction::Stx, AddressingMode::ZeroPage)),
        0x96 => Some((Instruction::Stx, AddressingMode::ZeroPageY)),
        0x8E => Some((Instruction::Stx, AddressingMode::Absolute)),
        0x84 => Some((Instruction::Sty, AddressingMode::ZeroPage)),
        0x94 => Some((Instruction::Sty, AddressingMode::ZeroPageY)),
        0x8C => Some((Instruction::Sty, AddressingMode::Absolute)),
        0xAA => Some((Instruction::Tax, AddressingMode::NoneAddressing)),
        0xA8 => Some((Instruction::Tay, AddressingMode::NoneAddressing)),
        0xBA => Some((Instruction::Tsx, AddressingMode::NoneAddressing)),
        0x8A => Some((Instruction::Txa, AddressingMode::NoneAddressing)),
        0x9A => Some((Instruction::Txs, AddressingMode::NoneAddressing)),
        0x98 => Some((Instruction::Tya, AddressingMode::NoneAddressing)),
        0x00 => Some((Instruction::Brk, AddressingMode::NoneAddressing)),
        _ => None,
    }
}

/// Decodes an opcode according to `opcode_table`.
pub fn decode(opcode: u8) -> (r: Option<(Instruction, AddressingMode)>)
    ensures
        r == opcode_table(opcode),
{
    match opcode {
        0x69 => Some((Instruction::Adc, AddressingMode::Immediate)),
        0x65 => Some((Instruction::Adc, AddressingMode::ZeroPage)),
        0x75 => Some((Instruction::Adc, AddressingMode::ZeroPageX)),
        0x6D => Some((Instruction::Adc, AddressingMode::Absolute)),
        0x7D => Some((Instruction::Adc, AddressingMode::AbsoluteX)),
        0x79 => Some((Instruction::Adc, AddressingMode::AbsoluteY)),
        0x61 => Some((Instruction::Adc, AddressingMode::IndirectX)),
        0x71 => Some((Instruction::Adc, AddressingMode::IndirectY)),
        0x29 => Some((Instruction::And, AddressingMode::Immediate)),
        0x25 => Some((Instruction::And, AddressingMode::ZeroPage)),
        0x35 => Some((Instruction::And, AddressingMode::ZeroPageX)),
        0x2D => Some((Instruction::And, AddressingMode::Absolute)),
        0x3D => Some((Instruction::And, AddressingMode::AbsoluteX)),
        0x39 => Some((Instruction::And, AddressingMode::AbsoluteY)),
        0x21 => Some((Instruction::And, AddressingMode::IndirectX)),
        0x31 => Some((Instruction::And, AddressingMode::IndirectY)),
        0x0A => Some((Instruction::AslAcc, AddressingMode::NoneAddressing)),
        0x06 => Some((Instruction::Asl, AddressingMode::ZeroPage)),
        0x16 => Some((Instruction::Asl, AddressingMode::ZeroPageX)),
        0x0E => Some((Instruction::Asl, AddressingMode::Absolute)),
        0x1E => Some((Instruction::Asl, AddressingMode::AbsoluteX)),
        0x90 => Some((Instruction::Bcc, AddressingMode::NoneAddressing)),
        0xB0 => Some((Instruction::Bcs, AddressingMode::NoneAddressing)),
        0xF0 => Some((Instruction::Beq, AddressingMode::NoneAddressing)),
        0x30 => Some((Instruction::Bmi, AddressingMode::NoneAddressing)),
        0xD0 => Some((Instruction::Bne, AddressingMode::NoneAddressing)),
        0x10 => Some((Instruction::Bpl, AddressingMode::NoneAddressing)),
        0x24 => Some((Instruction::Bit, AddressingMode::ZeroPage)),
        0x2C => Some((Instruction::Bit, AddressingMode::Absolute)),
        0x50 => Some((Instruction::Bvc, AddressingMode::NoneAddressing)),
        0x70 => Some((Instruction::Bvs, AddressingMode::NoneAddressing)),
        0x18 => Some((Instruction::Clc, AddressingMode::NoneAddressing)),
        0x58 => Some((Instruction::Cli, AddressingMode::NoneAddressing)),
        0xB8 => Some((Instruction::Clv, AddressingMode::NoneAddressing)),
        0xC9 => Some((Instruction::Cmp, AddressingMode::Immediate)),
        0xC5 => Some((Instruction::Cmp, AddressingMode::ZeroPage)),
        0xD5 => Some((Instruction::Cmp, AddressingMode::ZeroPageX)),
        0xCD => Some((Instruction::Cmp, AddressingMode::Absolute)),
        0xDD => Some((Instruction::Cmp, AddressingMode::AbsoluteX)),
        0xD9 => Some((Instruction::Cmp, AddressingMode::AbsoluteY)),
        0xC1 => Some((Instruction::Cmp, AddressingMode::IndirectX)),
        0xD1 => Some((Instruction::Cmp, AddressingMode::IndirectY)),
        0xE0 => Some((Instruction::Cpx, AddressingMode::Immediate)),
        0xE4 => Some((Instruction::Cpx, AddressingMode::ZeroPage)),
        0xEC => Some((Instruction::Cpx, AddressingMode::Absolute)),
        0xC0 => Some((Instruction::Cpy, AddressingMode::Immediate)),
        0xC4 => Some((Instruction::Cpy, AddressingMode::ZeroPage)),
        0xCC => Some((Instruction::Cpy, AddressingMode::Absolute)),
        0xC6 => Some((Instruction::Dec, AddressingMode::ZeroPage)),
        0xD6 => Some((Instruction::Dec, AddressingMode::ZeroPageX)),
        0xCE => Some((Instruction::Dec, AddressingMode::Absolute)),
        0xDE => Some((Instruction::Dec, AddressingMode::AbsoluteX)),
        0xCA => Some((Instruction::Dex, AddressingMode::NoneAddressing)),
        0x88 => Some((Instruction::Dey, AddressingMode::NoneAddressing)),
        0x49 => Some((Instruction::Eor, AddressingMode::Immediate)),
        0x45 => Some((Instruction::Eor, AddressingMode::ZeroPage)),
        0x55 => Some((Instruction::Eor, AddressingMode::ZeroPageX)),
        0x4D => Some((Instruction::Eor, AddressingMode::Absolute)),
        0x5D => Some((Instruction::Eor, AddressingMode::AbsoluteX)),
        0x59 => Some((Instruction::Eor, AddressingMode::AbsoluteY)),
        0x41 => Some((Instruction::Eor, AddressingMode::IndirectX)),
        0x51 => Some((Instruction::Eor, AddressingMode::IndirectY)),
        0xE6 => Some((Instruction::Inc, AddressingMode::ZeroPage)),
        0xF6 => Some((Instruction::Inc, AddressingMode::ZeroPageX)),
        0xEE => Some((Instruction::Inc, AddressingMode::Absolute)),
        0xFE => Some((Instruction::Inc, AddressingMode::AbsoluteX)),
        0xE8 => Some((Instruction::Inx, AddressingMode::NoneAddressing)),
        0xC8 => Some((Instruction::Iny, AddressingMode::NoneAddressing)),
        0x4C => Some((Instruction::Jmp, AddressingMode::Absolute)),
        0x6C => Some((Instruction::Jmp, AddressingMode::Indirect)),
        0x20 => Some((Instruction::Jsr, AddressingMode::Absolute)),
        0x60 => Some((Instruction::Rts, AddressingMode::NoneAddressing)),
        0xA9 => Some((Instruction::Lda, AddressingMode::Immediate)),
        0xA5 => Some((Instruction::Lda, AddressingMode::ZeroPage)),
        0xB5 => Some((Instruction::Lda, AddressingMode::ZeroPageX)),
        0xAD => Some((Instruction::Lda, AddressingMode::Absolute)),
        0xBD => Some((Instruction::Lda, AddressingMode::AbsoluteX)),
        0xB9 => Some((Instruction::Lda, AddressingMode::AbsoluteY)),
        0xA1 => Some((Instruction::Lda, AddressingMode::IndirectX)),
        0xB1 => Some((Instruction::Lda, AddressingMode::IndirectY)),
        0xA2 => Some((Instruction::Ldx, AddressingMode::Immediate)),
        0xA6 => Some((Instruction::Ldx, AddressingMode::ZeroPage)),
        0xB6 => Some((Instruction::Ldx, AddressingMode::ZeroPageY)),
        0xAE => Some((Instruction::Ldx, AddressingMode::Absolute)),
        0xBE => Some((Instruction::Ldx, AddressingMode::AbsoluteY)),
        0xA0 => Some((Instruction::Ldy, AddressingMode::Immediate)),
        0xA4 => Some((Instruction::Ldy, AddressingMode::ZeroPage)),
        0xB4 => Some((Instruction::Ldy, AddressingMode::ZeroPageX)),
        0xAC => Some((Instruction::Ldy, AddressingMode::Absolute)),
        0xBC => Some((Instruction::Ldy, AddressingMode::AbsoluteX)),
        0x4A => Some((Instruction::LsrAcc, AddressingMode::NoneAddressing)),
        0x46 => Some((Instruction::Lsr, AddressingMode::ZeroPage)),
        0x56 => Some((Instruction::Lsr, AddressingMode::ZeroPageX)),
        0x4E => Some((Instruction::Lsr, AddressingMode::Absolute)),
        0x5E => Some((Instruction::Lsr, AddressingMode::AbsoluteX)),
        0xEA => Some((Instruction::Nop, AddressingMode::NoneAddressing)),
        0x09 => Some((Instruction::Ora, AddressingMode::Immediate)),
        0x05 => Some((Instruction::Ora, AddressingMode::ZeroPage)),
        0x15 => Some((Instruction::Ora, AddressingMode::ZeroPageX)),
        0x0D => Some((Instruction::Ora, AddressingMode::Absolute)),
        0x1D => Some((Instruction::Ora, AddressingMode::AbsoluteX)),
        0x19 => Some((Instruction::Ora, AddressingMode::AbsoluteY)),
        0x01 => Some((Instruction::Ora, AddressingMode::IndirectX)),
        0x11 => Some((Instruction::Ora, AddressingMode::IndirectY)),
        0x48 => Some((Instruction::Pha, AddressingMode::NoneAddressing)),
        0x08 => Some((Instruction::Php, AddressingMode::NoneAddressing)),
        0x68 => Some((Instruction::Pla, AddressingMode::NoneAddressing)),
        0x28 => Some((Instruction::Plp, AddressingMode::NoneAddressing)),
        0x2A => Some((Instruction::RolAcc, AddressingMode::NoneAddressing)),
        0x26 => Some((Instruction::Rol, AddressingMode::ZeroPage)),
        0x36 => Some((Instruction::Rol, AddressingMode::ZeroPageX)),
        0x2E => Some((Instruction::Rol, AddressingMode::Absolute)),
        0x3E => Some((Instruction::Rol, AddressingMode::AbsoluteX)),
        0x6A => Some((Instruction::RorAcc, AddressingMode::NoneAddressing)),
        0x66 => Some((Instruction::Ror, AddressingMode::ZeroPage)),
        0x76 => Some((Instruction::Ror, AddressingMode::ZeroPageX)),
        0x6E => Some((Instruction::Ror, AddressingMode::Absolute)),
        0x7E => Some((Instruction::Ror, AddressingMode::AbsoluteX)),
        0x40 => Some((Instruction::Rti, AddressingMode::NoneAddressing)),
        0xE9 => Some((Instruction::Sbc, AddressingMode::Immediate)),
        0xE5 => Some((Instruction::Sbc, AddressingMode::ZeroPage)),
        0xF5 => Some((Instruction::Sbc, AddressingMode::ZeroPageX)),
        0xED => Some((Instruction::Sbc, AddressingMode::Absolute)),
        0xFD => Some((Instruction::Sbc, AddressingMode::AbsoluteX)),
        0xF9 => Some((Instruction::Sbc, AddressingMode::AbsoluteY)),
        0xE1 => Some((Instruction::Sbc, AddressingMode::IndirectX)),
        0xF1 => Some((Instruction::Sbc, AddressingMode::IndirectY)),
        0x38 => Some((Instruction::Sec, AddressingMode::NoneAddressing)),
        0xF8 => Some((Instruction::Sed, AddressingMode::NoneAddressing)),
        0x78 => Some((Instruction::Sei, AddressingMode::NoneAddressing)),
        0x85 => Some((Instruction::Sta, AddressingMode::ZeroPage)),
        0x95 => Some((Instruction::Sta, AddressingMode::ZeroPageX)),
        0x8D => Some((Instruction::Sta, AddressingMode::Absolute)),
        0x9D => Some((Instruction::Sta, AddressingMode::AbsoluteX)),
        0x99 => Some((Instruction::Sta, AddressingMode::AbsoluteY)),
        0x81 => Some((Instruction::Sta, AddressingMode::IndirectX)),
        0x91 => Some((Instruction::Sta, AddressingMode::IndirectY)),
        0x86 => Some((Instruction::Stx, AddressingMode::ZeroPage)),
        0x96 => Some((Instruction::Stx, AddressingMode::ZeroPageY)),
        0x8E => Some((Instruction::Stx, AddressingMode::Absolute)),
        0x84 => Some((Instruction::Sty, AddressingMode::ZeroPage)),
        0x94 => Some((Instruction::Sty, AddressingMode::ZeroPageY)),
        0x8C => Some((Instruction::Sty, AddressingMode::Absolute)),
        0xAA => Some((Instruction::Tax, AddressingMode::NoneAddressing)),
        0xA8 => Some((Instruction::Tay, AddressingMode::NoneAddressing)),
        0xBA => Some((Instruction::Tsx, AddressingMode::NoneAddressing)),
        0x8A => Some((Instruction::Txa, AddressingMode::NoneAddressing)),
        0x9A => Some((Instruction::Txs, AddressingMode::NoneAddressing)),
        0x98 => Some((Instruction::Tya, AddressingMode::NoneAddressing)),
        0x00 => Some((Instruction::Brk, AddressingMode::NoneAddressing)),
        _ => None,
    }
}

} // verus!
