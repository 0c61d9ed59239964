use cpu6502::cpu::CPU;
use cpu6502::cpu_constants::{BRK, INX, LDA_IMMEDIATE, LDA_INDX, LDA_INDY, TAX, TAY};
use cpu6502::machine::{CpuError, ExecState};
use cpu6502::opcodes::{find_opcode_by_instruction, opcodes, AddressingMode, Mnemonic, OpCode};

#[test]
fn flags_zero_sets_zero_and_keeps_other_bits() {
    let mut cpu = CPU::new();
    cpu.status = 0b0111_1101;
    cpu.update_zero_and_negative_flags(0);
    assert_eq!(cpu.status, 0b0111_1111);
}

#[test]
fn flags_negative_sets_negative_and_clears_zero() {
    let mut cpu = CPU::new();
    cpu.status = 0b0000_0010;
    cpu.update_zero_and_negative_flags(0x80);
    assert_eq!(cpu.status, 0b1000_0000);
}

#[test]
fn flags_positive_clears_both() {
    let mut cpu = CPU::new();
    cpu.status = 0xFF;
    cpu.update_zero_and_negative_flags(0x7F);
    assert_eq!(cpu.status, 0b0111_1101);
}

#[test]
fn word_round_trip_little_endian() {
    let mut cpu = CPU::new();
    cpu.mem_write_u16(0x1234, 0xBEEF);
    assert_eq!(cpu.mem_read(0x1234), 0xEF);
    assert_eq!(cpu.mem_read(0x1235), 0xBE);
    assert_eq!(cpu.mem_read_u16(0x1234), 0xBEEF);
}

#[test]
fn word_round_trip_at_top_of_memory() {
    let mut cpu = CPU::new();
    cpu.mem_write_u16(0xFFFF, 0x1234);
    assert_eq!(cpu.mem_read(0xFFFF), 0x34);
    assert_eq!(cpu.mem_read(0x0000), 0x12);
    assert_eq!(cpu.mem_read_u16(0xFFFF), 0x1234);
}

#[test]
fn load_writes_program_and_reset_vector() {
    let mut cpu = CPU::new();
    cpu.load(vec![0x11, 0x22]);
    assert_eq!(cpu.mem_read(0x8000), 0x11);
    assert_eq!(cpu.mem_read(0x8001), 0x22);
    assert_eq!(cpu.mem_read(0xFFFC), 0x00);
    assert_eq!(cpu.mem_read(0xFFFD), 0x80);
}

#[test]
fn reset_clears_a_x_status_and_keeps_y() {
    let mut cpu = CPU::new();
    cpu.register_a = 1;
    cpu.register_x = 2;
    cpu.register_y = 3;
    cpu.status = 0xFF;
    cpu.mem_write_u16(0xFFFC, 0x1234);
    cpu.reset();
    assert_eq!(cpu.register_a, 0);
    assert_eq!(cpu.register_x, 0);
    assert_eq!(cpu.register_y, 3);
    assert_eq!(cpu.status, 0);
    assert_eq!(cpu.program_counter, 0x1234);
}

#[test]
fn indirect_x_wraps_pointer_in_zero_page() {
    let mut cpu = CPU::new();
    // Operand 0xFE plus X = 1 gives pointer 0xFF; its high byte is at 0x00.
    cpu.mem_write(0x0300, 0xFE);
    cpu.mem_write(0x00FF, 0x34);
    cpu.mem_write(0x0000, 0x12);
    cpu.register_x = 0x01;
    cpu.program_counter = 0x0300;
    assert_eq!(cpu.get_operand_address(&AddressingMode::Indirect_X), Ok(0x1234));
}

#[test]
fn indirect_y_wraps_pointer_and_adds_y() {
    let mut cpu = CPU::new();
    cpu.mem_write(0x0300, 0xFF);
    cpu.mem_write(0x00FF, 0xF0);
    cpu.mem_write(0x0000, 0xFF);
    cpu.register_y = 0x20;
    cpu.program_counter = 0x0300;
    // Base 0xFFF0 plus Y = 0x20 wraps to 0x0010.
    assert_eq!(cpu.get_operand_address(&AddressingMode::Indirect_Y), Ok(0x0010));
}

#[test]
fn zero_page_x_wraps_within_zero_page() {
    let mut cpu = CPU::new();
    cpu.mem_write(0x0300, 0xF0);
    cpu.register_x = 0x20;
    cpu.program_counter = 0x0300;
    assert_eq!(cpu.get_operand_address(&AddressingMode::ZeroPage_X), Ok(0x0010));
}

#[test]
fn absolute_y_wraps_address_space() {
    let mut cpu = CPU::new();
    cpu.mem_write_u16(0x0300, 0xFFFF);
    cpu.register_y = 0x02;
    cpu.program_counter = 0x0300;
    assert_eq!(cpu.get_operand_address(&AddressingMode::Absolute_Y), Ok(0x0001));
}

#[test]
fn immediate_and_zero_page_addresses() {
    let mut cpu = CPU::new();
    cpu.mem_write(0x0300, 0x42);
    cpu.program_counter = 0x0300;
    assert_eq!(cpu.get_operand_address(&AddressingMode::Immediate), Ok(0x0300));
    assert_eq!(cpu.get_operand_address(&AddressingMode::ZeroPage), Ok(0x0042));
}

#[test]
fn none_addressing_is_refused() {
    let cpu = CPU::new();
    assert_eq!(
        cpu.get_operand_address(&AddressingMode::NoneAddressing),
        Err(CpuError::UnsupportedAddressingMode)
    );
}

#[test]
fn lda_indirect_x_program() {
    let mut cpu = CPU::new();
    cpu.mem_write(0x00FF, 0x00);
    cpu.mem_write(0x0000, 0x05);
    cpu.mem_write(0x0500, 0x99);
    let r = cpu.load_and_run(vec![LDA_IMMEDIATE, 0x01, TAX, LDA_INDX, 0xFE, BRK]);
    assert_eq!(r, Ok(ExecState::Halted));
    assert_eq!(cpu.register_a, 0x99);
    assert!(cpu.status & 0b1000_0000 != 0);
}

#[test]
fn lda_indirect_y_program() {
    let mut cpu = CPU::new();
    cpu.mem_write(0x0040, 0x00);
    cpu.mem_write(0x0041, 0x06);
    cpu.mem_write(0x0603, 0x07);
    let r = cpu.load_and_run(vec![LDA_IMMEDIATE, 0x03, TAY, LDA_INDY, 0x40, BRK]);
    assert_eq!(r, Ok(ExecState::Halted));
    assert_eq!(cpu.register_a, 0x07);
}

#[test]
fn unknown_opcode_faults_and_changes_nothing() {
    let mut cpu = CPU::new();
    let r = cpu.load_and_run(vec![LDA_IMMEDIATE, 0x07, 0x02, BRK]);
    assert_eq!(r, Err(CpuError::UnimplementedOpcode(0x02)));
    assert_eq!(cpu.register_a, 0x07);
    assert_eq!(cpu.program_counter, 0x8002);
}

#[test]
fn step_reports_unknown_opcode() {
    let mut cpu = CPU::new();
    cpu.mem_write(0x0000, 0xFF);
    assert_eq!(cpu.step(), Err(CpuError::UnimplementedOpcode(0xFF)));
    assert_eq!(cpu.program_counter, 0x0000);
}

#[test]
fn brk_halts_past_its_byte() {
    let mut cpu = CPU::new();
    cpu.load(vec![BRK]);
    cpu.reset();
    assert_eq!(cpu.step(), Ok(ExecState::Halted));
    assert_eq!(cpu.program_counter, 0x8001);
}

#[test]
fn run_with_limit_stops_when_budget_runs_out() {
    let mut cpu = CPU::new();
    cpu.load(vec![INX, INX, INX, BRK]);
    cpu.reset();
    assert_eq!(cpu.run_with_limit(2), Ok(ExecState::Running));
    assert_eq!(cpu.register_x, 2);
    assert_eq!(cpu.program_counter, 0x8002);
    assert_eq!(cpu.run_with_limit(5), Ok(ExecState::Halted));
    assert_eq!(cpu.register_x, 3);
}

#[test]
fn tay_flags_follow_x() {
    let mut cpu = CPU::new();
    let r = cpu.load_and_run(vec![LDA_IMMEDIATE, 0x00, TAY, BRK]);
    assert_eq!(r, Ok(ExecState::Halted));
    assert_eq!(cpu.register_y, 0x00);
    // X is zero after reset, so Zero is set.
    assert!(cpu.status & 0b0000_0010 != 0);
    let mut cpu = CPU::new();
    cpu.load_and_run(vec![LDA_IMMEDIATE, 0x80, TAX, LDA_IMMEDIATE, 0x01, TAY, BRK]).unwrap();
    assert_eq!(cpu.register_y, 0x01);
    // X holds 0x80: Negative set, Zero clear.
    assert_eq!(cpu.status & 0b1000_0010, 0b1000_0000);
}

#[test]
fn absolute_instruction_skips_both_operand_bytes() {
    let mut cpu = CPU::new();
    cpu.mem_write(0x1234, 0x42);
    // 0x12 would be an unknown opcode if only one operand byte were skipped.
    let r = cpu.load_and_run(vec![0xAD, 0x34, 0x12, BRK]);
    assert_eq!(r, Ok(ExecState::Halted));
    assert_eq!(cpu.register_a, 0x42);
    assert_eq!(cpu.program_counter, 0x8004);
}

#[test]
fn sta_absolute_and_indirect() {
    let mut cpu = CPU::new();
    cpu.mem_write(0x0020, 0x00);
    cpu.mem_write(0x0021, 0x07);
    let r = cpu.load_and_run(vec![LDA_IMMEDIATE, 0x5A, 0x8D, 0x00, 0x04, 0x81, 0x20, BRK]);
    assert_eq!(r, Ok(ExecState::Halted));
    assert_eq!(cpu.mem_read(0x0400), 0x5A);
    assert_eq!(cpu.mem_read(0x0700), 0x5A);
}

#[test]
fn registry_lookup() {
    assert_eq!(
        find_opcode_by_instruction(0xA9),
        Some(OpCode::new(0xA9, Mnemonic::Lda, 2, 2, AddressingMode::Immediate))
    );
    assert_eq!(
        find_opcode_by_instruction(0x00),
        Some(OpCode::new(0x00, Mnemonic::Brk, 1, 7, AddressingMode::NoneAddressing))
    );
    assert_eq!(find_opcode_by_instruction(0x02), None);
}

#[test]
fn registry_keys_are_unique() {
    let table = opcodes();
    assert_eq!(table.len(), 19);
    for i in 0..table.len() {
        for j in 0..table.len() {
            if i != j {
                assert_ne!(table[i].opcode, table[j].opcode);
            }
        }
    }
}
