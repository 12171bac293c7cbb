use cpu6502::isa::decode;
use cpu6502::{AddressingMode, Instruction, CARRY, CPU, NEGETIVE, OVERFLOW, ZERO};

fn loaded(program: Vec<u8>) -> CPU {
    let mut cpu = CPU::new();
    cpu.load_program(program);
    cpu.reset();
    cpu
}

#[test]
fn new_machine_is_zeroed() {
    let cpu = CPU::new();
    assert_eq!(cpu.get_register_a(), 0);
    assert_eq!(cpu.get_register_x(), 0);
    assert_eq!(cpu.get_register_y(), 0);
    assert_eq!(cpu.get_status_register(), 0);
    assert_eq!(cpu.get_program_counter(), 0);
    assert_eq!(cpu.get_stack_pointer(), 0xFF);
    assert!(cpu.get_memory_slice(0, 0xFFFF).iter().all(|b| *b == 0));
}

#[test]
fn load_then_reset_starts_at_program() {
    let cpu = loaded(vec![0xa9, 0x42, 0x00]);
    assert_eq!(cpu.get_program_counter(), 0x8000);
    assert_eq!(cpu.get_memory_slice(0x8000, 3), vec![0xa9, 0x42, 0x00]);
    assert_eq!(cpu.get_memory_slice(0xFFFC, 2), vec![0x00, 0x80]);
    assert_eq!(cpu.mem_read(0x8003), 0);
}

#[test]
fn load_program_from_slice_matches_vec() {
    let mut a = CPU::new();
    let mut b = CPU::new();
    a.load_program(vec![1, 2, 3, 4]);
    b.load_program_from_js(&[1, 2, 3, 4]);
    assert_eq!(a.get_memory_slice(0x7FFF, 6), b.get_memory_slice(0x7FFF, 6));
    assert_eq!(a.get_memory_slice(0x7FFF, 6), vec![0, 1, 2, 3, 4, 0]);
}

#[test]
fn full_size_program_is_overwritten_by_reset_vector() {
    let mut cpu = CPU::new();
    cpu.load_program(vec![0xEA; 0x8000]);
    assert_eq!(cpu.mem_read(0xFFFB), 0xEA);
    assert_eq!(cpu.mem_read(0xFFFC), 0x00);
    assert_eq!(cpu.mem_read(0xFFFD), 0x80);
    assert_eq!(cpu.mem_read(0xFFFE), 0xEA);
}

#[test]
fn memory_slice_reads_exact_range() {
    let mut cpu = CPU::new();
    cpu.memory[0x1000] = 7;
    cpu.memory[0x1001] = 8;
    cpu.memory[0xFFFF] = 9;
    assert_eq!(cpu.get_memory_slice(0x0FFF, 4), vec![0, 7, 8, 0]);
    assert_eq!(cpu.get_memory_slice(0xFFFF, 1), vec![9]);
    assert_eq!(cpu.get_memory_slice(0x1234, 0), Vec::<u8>::new());
}

#[test]
fn step_reports_brk_and_advances_pc() {
    let mut cpu = loaded(vec![0xa9, 0x05, 0x00]);
    assert!(cpu.can_step());
    assert!(!cpu.step());
    assert_eq!(cpu.get_register_a(), 0x05);
    assert_eq!(cpu.get_program_counter(), 0x8002);
    assert!(cpu.can_step());
    assert!(cpu.step());
    assert_eq!(cpu.get_program_counter(), 0x8003);
}

#[test]
fn decode_knows_the_table() {
    assert_eq!(decode(0x69), Some((Instruction::Adc, AddressingMode::Immediate)));
    assert_eq!(decode(0x94), Some((Instruction::Sty, AddressingMode::ZeroPageY)));
    assert_eq!(decode(0x6C), Some((Instruction::Jmp, AddressingMode::Indirect)));
    assert_eq!(decode(0x00), Some((Instruction::Brk, AddressingMode::NoneAddressing)));
    assert_eq!(decode(0xD8), None);
    assert_eq!(decode(0x02), None);
}

#[test]
fn unknown_opcode_cannot_step() {
    let cpu = loaded(vec![0x02, 0x00]);
    assert!(!cpu.can_step());
    let cld = loaded(vec![0xD8, 0x00]);
    assert!(!cld.can_step());
}

#[test]
fn pull_from_empty_stack_cannot_step() {
    assert!(!loaded(vec![0x68, 0x00]).can_step());
    assert!(!loaded(vec![0x28, 0x00]).can_step());
    assert!(!loaded(vec![0x60, 0x00]).can_step());
    assert!(!loaded(vec![0x40, 0x00]).can_step());
    let mut rti = loaded(vec![0x40, 0x00]);
    rti.stack_pointer = 0xFE;
    assert!(!rti.can_step(), "RTI pulls twice: the second pull finds 0xFF");
    rti.stack_pointer = 0xFD;
    assert!(rti.can_step());
}

#[test]
fn taken_branch_with_zero_offset_cannot_step() {
    let mut taken = loaded(vec![0xD0, 0x00, 0x00]);
    assert!(!taken.can_step());
    taken.status_register |= ZERO;
    assert!(taken.can_step(), "BNE not taken when ZERO is set");
    assert!(!taken.step());
    assert_eq!(taken.get_program_counter(), 0x8002);
}

#[test]
fn word_read_at_last_address_cannot_step() {
    // JMP $FFFF reads the target word at 0xFFFF and 0x10000
    let jmp = loaded(vec![0x4C, 0xFF, 0xFF, 0x00]);
    assert!(!jmp.can_step());
    // an absolute operand whose bytes start at 0xFFFF
    let mut abs = CPU::new();
    abs.memory[0xFFFE] = 0xAD;
    abs.program_counter = 0xFFFE;
    assert!(!abs.can_step());
    // zero-page operands wrap instead
    abs.memory[0xFFFE] = 0xA5;
    assert!(abs.can_step());
}

#[test]
fn php_then_plp_restores_status() {
    let mut cpu = loaded(vec![0x08, 0x28, 0x00]);
    cpu.status_register = CARRY | OVERFLOW;
    cpu.interpret();
    assert_eq!(cpu.get_status_register(), CARRY | OVERFLOW);
    assert_eq!(cpu.get_stack_pointer(), 0xFF);
}

#[test]
fn stack_word_push_then_rts() {
    let mut cpu = loaded(vec![0x60]);
    cpu.stack_push(0x9000);
    assert_eq!(cpu.get_stack_pointer(), 0xFD);
    assert_eq!(cpu.get_memory_slice(0x01FD, 2), vec![0x00, 0x90]);
    assert!(!cpu.step());
    assert_eq!(cpu.get_program_counter(), 0x9000);
    assert_eq!(cpu.get_stack_pointer(), 0xFF);
}

#[test]
fn stack_byte_push_wraps_pointer() {
    let mut cpu = CPU::new();
    cpu.stack_pointer = 0x00;
    cpu.stack_push_u8(0x5A);
    assert_eq!(cpu.get_stack_pointer(), 0xFF);
    assert_eq!(cpu.mem_read(0x01FF), 0x5A);
}

#[test]
fn sbc_equals_adc_of_complement() {
    for &(a, m, carry) in &[(0x50u8, 0xF0u8, true), (0x50, 0xB0, false), (0x00, 0x01, true), (0x80, 0x01, true)] {
        let mut sub = loaded(vec![0xE9, m, 0x00]);
        let mut add = loaded(vec![0x69, 0xFF - m, 0x00]);
        for cpu in [&mut sub, &mut add] {
            cpu.register_a = a;
            if carry {
                cpu.status_register |= CARRY;
            }
            cpu.interpret();
        }
        assert_eq!(sub.get_register_a(), add.get_register_a());
        assert_eq!(sub.get_status_register(), add.get_status_register());
    }
}

#[test]
fn adc_signed_overflow() {
    let mut cpu = loaded(vec![0x69, 0x50, 0x00]);
    cpu.register_a = 0x50;
    cpu.interpret();
    assert_eq!(cpu.get_register_a(), 0xA0);
    assert_eq!(cpu.get_status_register() & OVERFLOW, OVERFLOW);
    assert_eq!(cpu.get_status_register() & NEGETIVE, NEGETIVE);
    assert_eq!(cpu.get_status_register() & CARRY, 0);
}

#[test]
fn sbc_borrow_and_overflow() {
    // 0x50 - 0xB0 with carry set: 0xA0, borrow (carry clear), signed overflow
    let mut cpu = loaded(vec![0xE9, 0xB0, 0x00]);
    cpu.register_a = 0x50;
    cpu.status_register |= CARRY;
    cpu.interpret();
    assert_eq!(cpu.get_register_a(), 0xA0);
    assert_eq!(cpu.get_status_register() & CARRY, 0);
    assert_eq!(cpu.get_status_register() & OVERFLOW, OVERFLOW);
}

#[test]
fn rol_then_ror_restores_value_and_carry() {
    for &(v, carry) in &[(0x81u8, true), (0x81, false), (0x42, true), (0x00, false)] {
        let mut cpu = loaded(vec![0x2A, 0x6A, 0x00]);
        cpu.register_a = v;
        if carry {
            cpu.status_register |= CARRY;
        }
        cpu.interpret();
        assert_eq!(cpu.get_register_a(), v);
        assert_eq!(cpu.get_status_register() & CARRY == CARRY, carry);
    }
}

#[test]
fn inc_then_dec_restores_memory() {
    for &v in &[0x00u8, 0x7F, 0xFF] {
        let mut cpu = loaded(vec![0xE6, 0x10, 0xC6, 0x10, 0x00]);
        cpu.memory[0x10] = v;
        cpu.interpret();
        assert_eq!(cpu.mem_read(0x10), v);
    }
}

#[test]
fn compare_sets_carry_zero_negative() {
    for &(a, m) in &[(0x10u8, 0x10u8), (0x10, 0x20), (0x20, 0x10), (0x00, 0xFF)] {
        let mut cpu = loaded(vec![0xC9, m, 0x00]);
        cpu.register_a = a;
        cpu.interpret();
        let p = cpu.get_status_register();
        assert_eq!(p & CARRY == CARRY, a >= m);
        assert_eq!(p & ZERO == ZERO, a == m);
        assert_eq!(p & NEGETIVE == NEGETIVE, a.wrapping_sub(m) >= 0x80);
        assert_eq!(cpu.get_register_a(), a);
    }
}

#[test]
fn branch_offset_is_unsigned_forward() {
    // BNE with offset 0xFE moves forward by 0xFE from the offset byte
    let mut cpu = loaded(vec![0xD0, 0xFE]);
    assert!(!cpu.step());
    assert_eq!(cpu.get_program_counter(), 0x8001 + 0xFE);
}

#[test]
fn branch_target_wraps_around_memory() {
    let mut cpu = CPU::new();
    cpu.memory[0xFFF0] = 0xD0;
    cpu.memory[0xFFF1] = 0x20;
    cpu.program_counter = 0xFFF0;
    assert!(!cpu.step());
    assert_eq!(cpu.get_program_counter(), 0x0011);
}

#[test]
fn absolute_x_wraps_past_top_of_memory() {
    let mut cpu = loaded(vec![0xBD, 0xFF, 0xFF, 0x00]);
    cpu.register_x = 0x02;
    cpu.memory[0x0001] = 0x77;
    cpu.interpret();
    assert_eq!(cpu.get_register_a(), 0x77);
}

#[test]
fn indirect_y_adds_after_lookup() {
    let mut cpu = loaded(vec![0xB1, 0x20, 0x00]);
    cpu.register_y = 0x04;
    cpu.memory[0x20] = 0x00;
    cpu.memory[0x21] = 0x30;
    cpu.memory[0x3004] = 0x99;
    cpu.interpret();
    assert_eq!(cpu.get_register_a(), 0x99);
}

#[test]
fn brk_leaves_registers_alone() {
    let mut cpu = loaded(vec![0x00]);
    cpu.register_a = 1;
    cpu.register_x = 2;
    cpu.register_y = 3;
    cpu.status_register = 4;
    assert!(cpu.step());
    assert_eq!(
        (cpu.get_register_a(), cpu.get_register_x(), cpu.get_register_y(), cpu.get_status_register()),
        (1, 2, 3, 4)
    );
    assert_eq!(cpu.get_stack_pointer(), 0xFF);
}

#[test]
fn run_program_twice_reloads() {
    let mut cpu = CPU::new();
    cpu.run_program(vec![0xa9, 0x11, 0x00]);
    assert_eq!(cpu.get_register_a(), 0x11);
    cpu.run_program(vec![0xa2, 0x22, 0x00]);
    assert_eq!(cpu.get_register_a(), 0x00, "reset clears A");
    assert_eq!(cpu.get_register_x(), 0x22);
}
