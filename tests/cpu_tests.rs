use cpu6502::cpu::CPU;
use cpu6502::cpu_constants::{
    BRK, INX, LDA_ABS, LDA_ABSX, LDA_ABSY, LDA_IMMEDIATE, LDA_ZP, LDA_ZPX, STA_ZP, TAX, TAY,
};

fn dendify(bit: u16) -> (u8, u8) {
    let hi = (bit >> 8) as u8;
    let lo = (bit & 0xff) as u8;
    (lo, hi)
}

#[test]
fn test_0xa9_lda_immediate_load_data() {
    let mut cpu = CPU::new();
    cpu.load_and_run(vec![LDA_IMMEDIATE, 0x05, BRK]).unwrap();
    assert_eq!(cpu.register_a, 0x05);
    assert!(cpu.status & 0b0000_0010 == 0b00);
    assert!(cpu.status & 0b1000_0000 == 0);
}

#[test]
fn test_0xa9_lda_zero_flag() {
    let mut cpu = CPU::new();
    cpu.load_and_run(vec![LDA_IMMEDIATE, 0x00, BRK]).unwrap();
    assert!(cpu.status & 0b0000_0010 == 0b10);
}

#[test]
fn test_lda_zero_page_from_memory() {
    let mut cpu = CPU::new();
    cpu.mem_write(0x10, 0x55);
    cpu.load_and_run(vec![LDA_ZP, 0x10, BRK]).unwrap();
    assert_eq!(cpu.register_a, 0x55);
}

#[test]
fn test_lda_zero_page_x_from_memory() {
    let mut cpu = CPU::new();
    cpu.mem_write(0x10 + 0x0F, 0x55);
    cpu.load_and_run(vec![LDA_IMMEDIATE, 0x0F, TAX, LDA_ZPX, 0x10, BRK]).unwrap();
    assert_eq!(cpu.register_a, 0x55);
}

#[test]
fn test_lda_absolute() {
    let mut cpu = CPU::new();
    cpu.mem_write(0xAAAA, 0x55);
    let (lo, hi) = dendify(0xAAAA);
    cpu.load_and_run(vec![LDA_ABS, lo, hi, BRK]).unwrap();
    assert_eq!(cpu.register_a, 0x55);
}

#[test]
fn test_lda_absolute_x() {
    let mut cpu = CPU::new();
    cpu.mem_write(0xAAAA + 0x80, 0x55);
    let (lo, hi) = dendify(0xAAAA);
    cpu.load_and_run(vec![LDA_IMMEDIATE, 0x80, TAX, LDA_ABSX, lo, hi, BRK]).unwrap();
    assert_eq!(cpu.register_a, 0x55);
}

#[test]
fn test_lda_absolute_y() {
    let mut cpu = CPU::new();
    cpu.mem_write(0xAAAA + 0x80, 0x55);
    let (lo, hi) = dendify(0xAAAA);
    cpu.load_and_run(vec![LDA_IMMEDIATE, 0x80, TAY, LDA_ABSY, lo, hi, BRK]).unwrap();
    assert_eq!(cpu.register_a, 0x55);
}

#[test]
fn test_0xaa_tax_move_a_to_x() {
    let mut cpu = CPU::new();
    cpu.load_and_run(vec![LDA_IMMEDIATE, 0x0A, TAX, BRK]).unwrap();
    assert_eq!(cpu.register_x, 0x0A)
}

#[test]
fn test_5_ops_working_together() {
    let mut cpu = CPU::new();
    cpu.load_and_run(vec![LDA_IMMEDIATE, 0xc0, TAX, INX, BRK]).unwrap();
    assert_eq!(cpu.register_x, 0xc1)
}

#[test]
fn test_inx_overflow() {
    let mut cpu = CPU::new();
    cpu.load_and_run(vec![LDA_IMMEDIATE, 0xFF, TAX, INX, INX, BRK]).unwrap();
    assert_eq!(cpu.register_x, 1)
}

#[test]
fn test_sta() {
    let mut cpu = CPU::new();
    cpu.load_and_run(vec![LDA_IMMEDIATE, 0xFF, STA_ZP, 0x16, BRK]).unwrap();
    assert_eq!(cpu.mem_read(0x16), 0xFF);
}
