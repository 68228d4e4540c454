use lib::cpu::{CpuFlags, CPU};

#[test]
fn test_0xa9_lda_immediate_load_data() {
    let mut cpu = CPU::new();
    cpu.load_and_run(vec![0xa9, 0x05, 0x00]);
    assert_eq!(cpu.register_a, 0x05);
    assert!(cpu.status & 0b0000_0010 == 0b00);
    assert!(cpu.status & 0b1000_0000 == 0);
}

#[test]
fn test_0xa9_lda_zero_flag() {
    let mut cpu = CPU::new();
    cpu.load_and_run(vec![0xa9, 0x00, 0x00]);
    assert!(cpu.status & 0b0000_0010 == 0b10)
}

#[test]
fn test_0xaa_tax_move_a_to_x() {
    let mut cpu = CPU::new();
    // put 10 in reg a then copy to reg x
    cpu.load_and_run(vec![0xa9, 0x0a, 0xaa, 0x00]);
    assert_eq!(cpu.register_x, 10);
}

#[test]
fn test_5_ops_working_together() {
    let mut cpu = CPU::new();
    cpu.load_and_run(vec![0xa9, 0xc0, 0xaa, 0xe8, 0x00]);
    assert_eq!(cpu.register_x, 0xc1)
}

#[test]
fn test_inx_overflow() {
    let mut cpu = CPU::new();
    // everything resets when running load and run
    cpu.load_and_run(vec![0xa9, 0xff, 0xaa, 0xe8, 0xe8, 0x00]);
    assert_eq!(cpu.register_x, 1)
}

#[test]
fn test_lda_from_memory() {
    let mut cpu = CPU::new();
    cpu.mem_write(0x10, 0x55);
    cpu.load_and_run(vec![0xa5, 0x10, 0x00]);
    assert_eq!(cpu.register_a, 0x55);
}

#[test]
fn test_and_immediate_with_all_zeroes() {
    let mut cpu = CPU::new();
    cpu.load_and_run(vec![0x29, 0x00]);
    assert_eq!(cpu.register_a, 0x00);
    assert_eq!(cpu.status, 0b0000_0010);
}

#[test]
fn test_and_immediate_all_ones() {
    let mut cpu = CPU::new();
    cpu.load_and_run(vec![0xa9, 0b1111_1111, 0x29, 0b1111_1111, 0x00]);
    assert_eq!(cpu.register_a, 0b1111_1111);
    assert_eq!(cpu.status, 0b1000_0000);
}

#[test]
fn test_and_immediate_alternating_bits() {
    let mut cpu = CPU::new();
    cpu.load_and_run(vec![0xa9, 0b0101_0101, 0x29, 0b1010_1010, 0x00]);
    assert_eq!(cpu.register_a, 0b0000_0000);
    assert_eq!(cpu.status, 0b0000_0010);
}

#[test]
fn test_asl_zero_page_one_bit() {
    let mut cpu = CPU::new();
    // put 1 in register a, store in memory, use as zero page for shift
    cpu.load_and_run(vec![0xa9, 0b0000_0001, 0x85, 0x00, 0x06, 0x00, 0xa5, 0x00, 0x00]);
    assert_eq!(cpu.register_a, 0b0000_0010);
    assert_eq!(cpu.status, 0b0000_0000);
}

#[test]
fn test_asl_accumulator_shifts_one_bit_left() {
    let mut cpu = CPU::new();
    cpu.load_and_run(vec![0xa9, 0b0000_0001, 0x0A, 0x00]);
    assert_eq!(cpu.register_a, 0b0000_0010);
}

#[test]
fn test_asl_accumulator_carry_flag_set_to_old_bit_7_from_zero_to_one() {
    let mut cpu = CPU::new();
    cpu.load_and_run(vec![0xa9, 0b1000_0001, 0x0A, 0x00]);
    assert_eq!(cpu.status, CpuFlags::CARRY_FLAG);
}

#[test]
fn test_asl_accumulator_carry_flag_set_to_old_bit_7_from_one_to_zero() {
    let mut cpu = CPU::new();
    cpu.load_and_run(vec![0xa9, 0b1000_0001, 0x0A, 0x0A, 0x00]);
    assert_eq!(cpu.status, 0b0000_0000);
}

#[test]
fn test_bcc_carry_is_clear_jump_to_exit_skipping_instructions() {
    let mut cpu = CPU::new();
    cpu.load_and_run(vec![0x90, 2, 0xa9, 0b0000_0001, 0x00]);
    assert_eq!(cpu.register_a, 0b0000_0000);
}

#[test]
fn test_bit_sets_status() {}
