use lib::addressing_modes::AddressingMode;
use lib::cpu::{CpuFlags, StepResult, CPU};
use lib::op_codes::lookup;

fn run(program: Vec<u8>) -> CPU {
    let mut cpu = CPU::new();
    cpu.load_and_run(program);
    cpu
}

#[test]
fn new_cpu_is_cleared() {
    let cpu = CPU::new();
    assert_eq!(cpu.register_a, 0);
    assert_eq!(cpu.register_x, 0);
    assert_eq!(cpu.register_y, 0);
    assert_eq!(cpu.status, 0);
    assert_eq!(cpu.program_counter, 0);
    assert_eq!(cpu.mem_read(0x1234), 0);
}

#[test]
fn read_after_write() {
    let mut cpu = CPU::new();
    cpu.mem_write(0x0200, 0xAB);
    assert_eq!(cpu.mem_read(0x0200), 0xAB);
    assert_eq!(cpu.mem_read(0x0201), 0x00);
}

#[test]
fn words_are_little_endian() {
    let mut cpu = CPU::new();
    cpu.mem_write_u16(0x10, 0x1234);
    assert_eq!(cpu.mem_read(0x10), 0x34);
    assert_eq!(cpu.mem_read(0x11), 0x12);
    assert_eq!(cpu.mem_read_u16(0x10), 0x1234);
}

#[test]
fn load_then_reset_starts_at_0x8000() {
    let mut cpu = CPU::new();
    cpu.register_a = 7;
    cpu.register_x = 8;
    cpu.register_y = 9;
    cpu.status = 0xFF;
    cpu.load(vec![0xa9, 0x05, 0x00]);
    cpu.reset();
    assert_eq!(cpu.program_counter, 0x8000);
    assert_eq!(cpu.mem_read(0x8000), 0xa9);
    assert_eq!(cpu.mem_read(0x8001), 0x05);
    assert_eq!(cpu.mem_read(0xFFFC), 0x00);
    assert_eq!(cpu.mem_read(0xFFFD), 0x80);
    assert_eq!(cpu.register_a, 0);
    assert_eq!(cpu.register_x, 0);
    assert_eq!(cpu.status, 0);
    // Y is not touched by reset.
    assert_eq!(cpu.register_y, 9);
}

#[test]
fn brk_stops_right_after_its_opcode() {
    let cpu = run(vec![0xa9, 0x05, 0x00]);
    assert_eq!(cpu.program_counter, 0x8003);
}

#[test]
fn stepping_reaches_the_same_state_as_running() {
    let program = vec![0xa9, 0xc0, 0xaa, 0xe8, 0x00];
    let ran = run(program.clone());
    let mut cpu = CPU::new();
    cpu.load(program);
    cpu.reset();
    let mut steps = 0;
    while cpu.can_step() {
        steps += 1;
        if cpu.step() == StepResult::Break {
            break;
        }
    }
    assert_eq!(steps, 4);
    assert_eq!(cpu.register_a, ran.register_a);
    assert_eq!(cpu.register_x, ran.register_x);
    assert_eq!(cpu.status, ran.status);
    assert_eq!(cpu.program_counter, ran.program_counter);
}

#[test]
fn running_twice_gives_the_same_state() {
    let a = run(vec![0xa9, 0x81, 0x0a, 0xaa, 0xe8, 0x00]);
    let b = run(vec![0xa9, 0x81, 0x0a, 0xaa, 0xe8, 0x00]);
    assert_eq!(a.register_a, b.register_a);
    assert_eq!(a.register_x, b.register_x);
    assert_eq!(a.status, b.status);
    assert_eq!(a.program_counter, b.program_counter);
}

#[test]
fn negative_flag_follows_bit_7() {
    let cpu = run(vec![0xa9, 0x80, 0x00]);
    assert_eq!(cpu.status, CpuFlags::NEGATIVE);
}

#[test]
fn pha_then_pla_restores_the_accumulator() {
    // LDA #$42; PHA; LDA #$00; PLA; BRK
    let cpu = run(vec![0xa9, 0x42, 0x48, 0xa9, 0x00, 0x68, 0x00]);
    assert_eq!(cpu.register_a, 0x42);
    assert_eq!(cpu.status, 0);
    // The first push lands at the top of page one, at 0x100 + 0xFD.
    assert_eq!(cpu.mem_read(0x01FD), 0x42);
}

#[test]
fn php_then_plp_restores_the_status() {
    // SEC; PHP; CLC; PLP; BRK
    let cpu = run(vec![0x38, 0x08, 0x18, 0x28, 0x00]);
    assert_eq!(cpu.status, CpuFlags::CARRY_FLAG);
}

#[test]
fn adc_adds_with_carry() {
    // LDA #$F0; ADC #$20; BRK
    let cpu = run(vec![0xa9, 0xf0, 0x69, 0x20, 0x00]);
    assert_eq!(cpu.register_a, 0x10);
    assert_eq!(cpu.status, CpuFlags::CARRY_FLAG);
    // SEC; LDA #$01; ADC #$01; BRK: the carry comes in
    let cpu = run(vec![0x38, 0xa9, 0x01, 0x69, 0x01, 0x00]);
    assert_eq!(cpu.register_a, 0x03);
    assert_eq!(cpu.status, 0);
}

#[test]
fn adc_signed_overflow() {
    // LDA #$50; ADC #$50; BRK: two positives give a negative
    let cpu = run(vec![0xa9, 0x50, 0x69, 0x50, 0x00]);
    assert_eq!(cpu.register_a, 0xa0);
    assert_eq!(cpu.status, CpuFlags::NEGATIVE | CpuFlags::OVERFLOW);
}

#[test]
fn sbc_without_borrow() {
    // SEC; LDA #5; SBC #3; BRK
    let cpu = run(vec![0x38, 0xa9, 0x05, 0xe9, 0x03, 0x00]);
    assert_eq!(cpu.register_a, 2);
    assert_eq!(cpu.status, CpuFlags::CARRY_FLAG);
}

#[test]
fn sbc_with_borrow() {
    // LDA #3; SBC #5 (carry clear): 3 - 5 - 1 = -3
    let cpu = run(vec![0xa9, 0x03, 0xe9, 0x05, 0x00]);
    assert_eq!(cpu.register_a, 0xfd);
    assert_eq!(cpu.status, CpuFlags::NEGATIVE);
}

#[test]
fn sbc_signed_overflow() {
    // SEC; LDA #$50; SBC #$B0; BRK: a positive minus a negative gives a negative
    let cpu = run(vec![0x38, 0xa9, 0x50, 0xe9, 0xb0, 0x00]);
    assert_eq!(cpu.register_a, 0xa0);
    assert_eq!(cpu.status, CpuFlags::NEGATIVE | CpuFlags::OVERFLOW);
}

#[test]
fn cmp_sets_carry_zero_and_negative() {
    // LDA #5; CMP #3
    let cpu = run(vec![0xa9, 0x05, 0xc9, 0x03, 0x00]);
    assert_eq!(cpu.status, CpuFlags::CARRY_FLAG);
    // LDA #5; CMP #5
    let cpu = run(vec![0xa9, 0x05, 0xc9, 0x05, 0x00]);
    assert_eq!(cpu.status, CpuFlags::CARRY_FLAG | CpuFlags::ZERO_FLAG);
    // LDX #1; CPX #2: 1 - 2 wraps to 0xFF
    let cpu = run(vec![0xa2, 0x01, 0xe0, 0x02, 0x00]);
    assert_eq!(cpu.status, CpuFlags::NEGATIVE);
    // LDY #7; CPY #7
    let cpu = run(vec![0xa0, 0x07, 0xc0, 0x07, 0x00]);
    assert_eq!(cpu.status, CpuFlags::CARRY_FLAG | CpuFlags::ZERO_FLAG);
}

#[test]
fn cmp_with_larger_operand() {
    // LDA #3; CMP #5
    let cpu = run(vec![0xa9, 0x03, 0xc9, 0x05, 0x00]);
    assert_eq!(cpu.register_a, 3);
    assert_eq!(cpu.status, CpuFlags::NEGATIVE);
    assert_eq!(cpu.program_counter, 0x8005);
}

#[test]
fn unknown_opcode_cannot_step() {
    let mut cpu = CPU::new();
    cpu.load(vec![0x02]);
    cpu.reset();
    assert!(!cpu.can_step());
}

#[test]
fn logic_operations() {
    // LDA #$F0; EOR #$FF; BRK
    let cpu = run(vec![0xa9, 0xf0, 0x49, 0xff, 0x00]);
    assert_eq!(cpu.register_a, 0x0f);
    assert_eq!(cpu.status, 0);
    // LDA #$0F; ORA #$80; BRK
    let cpu = run(vec![0xa9, 0x0f, 0x09, 0x80, 0x00]);
    assert_eq!(cpu.register_a, 0x8f);
    assert_eq!(cpu.status, CpuFlags::NEGATIVE);
}

#[test]
fn increments_and_decrements_wrap() {
    // DEX; DEY; BRK from zero registers
    let cpu = run(vec![0xca, 0x88, 0x00]);
    assert_eq!(cpu.register_x, 0xff);
    assert_eq!(cpu.register_y, 0xff);
    assert_eq!(cpu.status, CpuFlags::NEGATIVE);
    // LDA #$FF; STA $10; INC $10; LDA $10; BRK
    let cpu = run(vec![0xa9, 0xff, 0x85, 0x10, 0xe6, 0x10, 0xa5, 0x10, 0x00]);
    assert_eq!(cpu.register_a, 0);
    assert_eq!(cpu.status, CpuFlags::ZERO_FLAG);
    // DEC $10 on a zero byte; LDX $10; BRK
    let cpu = run(vec![0xc6, 0x10, 0xa6, 0x10, 0x00]);
    assert_eq!(cpu.register_x, 0xff);
}

#[test]
fn transfers() {
    // LDA #$07; TAY; LDA #$00; TYA; TAX; INY; BRK
    let cpu = run(vec![0xa9, 0x07, 0xa8, 0xa9, 0x00, 0x98, 0xaa, 0xc8, 0x00]);
    assert_eq!(cpu.register_a, 7);
    assert_eq!(cpu.register_x, 7);
    assert_eq!(cpu.register_y, 8);
}

#[test]
fn shifts_and_rotations() {
    // LDA #$03; LSR A; BRK: carry from bit 0
    let cpu = run(vec![0xa9, 0x03, 0x4a, 0x00]);
    assert_eq!(cpu.register_a, 0x01);
    assert_eq!(cpu.status, CpuFlags::CARRY_FLAG);
    // SEC; LDA #$80; ROL A; BRK: old carry enters bit 0, bit 7 goes out
    let cpu = run(vec![0x38, 0xa9, 0x80, 0x2a, 0x00]);
    assert_eq!(cpu.register_a, 0x01);
    assert_eq!(cpu.status, CpuFlags::CARRY_FLAG);
    // SEC; LDA #$02; ROR A; BRK: old carry enters bit 7
    let cpu = run(vec![0x38, 0xa9, 0x02, 0x6a, 0x00]);
    assert_eq!(cpu.register_a, 0x81);
    assert_eq!(cpu.status, CpuFlags::NEGATIVE);
}

#[test]
fn shifts_in_memory_set_zero_and_negative() {
    // LDA #$01; STA $10; LDA #$80; LSR $10; BRK
    let cpu = run(vec![0xa9, 0x01, 0x85, 0x10, 0xa9, 0x80, 0x46, 0x10, 0x00]);
    assert_eq!(cpu.mem_read(0x10), 0);
    assert_eq!(cpu.status, CpuFlags::ZERO_FLAG | CpuFlags::CARRY_FLAG);
    // SEC; ROR $10 on a zero byte: the carry enters bit 7
    let cpu = run(vec![0x38, 0x66, 0x10, 0x00]);
    assert_eq!(cpu.mem_read(0x10), 0x80);
    assert_eq!(cpu.status, CpuFlags::NEGATIVE);
    // LDA #$80; STA $10; ROL $10: bit 7 goes to the carry, the byte becomes zero
    let cpu = run(vec![0xa9, 0x80, 0x85, 0x10, 0x26, 0x10, 0x00]);
    assert_eq!(cpu.mem_read(0x10), 0);
    assert_eq!(cpu.status, CpuFlags::ZERO_FLAG | CpuFlags::CARRY_FLAG);
}

#[test]
fn branch_not_taken_skips_its_offset() {
    // SEC; BCC +2; LDA #1; BRK
    let cpu = run(vec![0x38, 0x90, 0x02, 0xa9, 0x01, 0x00]);
    assert_eq!(cpu.register_a, 1);
}

#[test]
fn branch_backwards() {
    // LDX #3; DEX; BNE -3; BRK : loops until X is zero
    let cpu = run(vec![0xa2, 0x03, 0xca, 0xd0, 0xfd, 0x00]);
    assert_eq!(cpu.register_x, 0);
    assert_eq!(cpu.status, CpuFlags::ZERO_FLAG);
}

#[test]
fn jmp_absolute() {
    // JMP $8005; LDA #1; BRK
    let cpu = run(vec![0x4c, 0x05, 0x80, 0xa9, 0x01, 0x00]);
    assert_eq!(cpu.register_a, 0);
    assert_eq!(cpu.program_counter, 0x8006);
}

#[test]
fn jmp_indirect() {
    let mut cpu = CPU::new();
    cpu.mem_write(0x0200, 0x05);
    cpu.mem_write(0x0201, 0x80);
    // JMP ($0200); LDA #1; BRK
    cpu.load_and_run(vec![0x6c, 0x00, 0x02, 0xa9, 0x01, 0x00]);
    assert_eq!(cpu.register_a, 0);
    assert_eq!(cpu.program_counter, 0x8006);
}

#[test]
fn jsr_and_rts_call_a_subroutine() {
    // $8000: JSR $8006; LDA #1; BRK; $8006: LDX #7; RTS
    let cpu = run(vec![0x20, 0x06, 0x80, 0xa9, 0x01, 0x00, 0xa2, 0x07, 0x60]);
    assert_eq!(cpu.register_a, 1);
    assert_eq!(cpu.register_x, 7);
    assert_eq!(cpu.program_counter, 0x8006);
    assert_eq!(cpu.stack_pointer, 0xfd);
    // JSR pushed the address of its last byte, high byte first.
    assert_eq!(cpu.mem_read(0x01fd), 0x80);
    assert_eq!(cpu.mem_read(0x01fc), 0x02);
}

#[test]
fn rti_pulls_status_and_return_address() {
    let mut cpu = CPU::new();
    cpu.load(vec![0x40]);
    cpu.reset();
    cpu.stack_pointer = 0xfa;
    cpu.mem_write(0x01fb, CpuFlags::CARRY_FLAG);
    cpu.mem_write(0x01fc, 0x34);
    cpu.mem_write(0x01fd, 0x12);
    assert_eq!(cpu.step(), StepResult::Continue);
    assert_eq!(cpu.program_counter, 0x1234);
    assert_eq!(cpu.status, CpuFlags::CARRY_FLAG);
    assert_eq!(cpu.stack_pointer, 0xfd);
}

#[test]
fn rts_returns_after_the_pushed_address() {
    let mut cpu = CPU::new();
    cpu.load(vec![0x60]);
    cpu.reset();
    cpu.stack_pointer = 0xfb;
    cpu.mem_write(0x01fc, 0x34);
    cpu.mem_write(0x01fd, 0x12);
    assert_eq!(cpu.step(), StepResult::Continue);
    assert_eq!(cpu.program_counter, 0x1235);
    assert_eq!(cpu.stack_pointer, 0xfd);
}

#[test]
fn indexed_indirect_addressing() {
    let mut cpu = CPU::new();
    cpu.mem_write(0x10, 0x34);
    cpu.mem_write(0x11, 0x12);
    cpu.mem_write(0x1234, 0x99);
    // LDX #1; LDA ($0F,X); BRK
    cpu.load_and_run(vec![0xa2, 0x01, 0xa1, 0x0f, 0x00]);
    assert_eq!(cpu.register_a, 0x99);
}

#[test]
fn indirect_indexed_addressing() {
    let mut cpu = CPU::new();
    cpu.mem_write(0x10, 0x34);
    cpu.mem_write(0x11, 0x12);
    cpu.mem_write(0x1236, 0x77);
    // LDY #2; LDA ($10),Y; BRK
    cpu.load_and_run(vec![0xa0, 0x02, 0xb1, 0x10, 0x00]);
    assert_eq!(cpu.register_a, 0x77);
}

#[test]
fn bit_tests_the_operand() {
    let mut cpu = CPU::new();
    cpu.mem_write(0x10, 0xc0);
    // BIT $10 with A = 0; BRK
    cpu.load_and_run(vec![0x24, 0x10, 0x00]);
    assert_eq!(cpu.status, 0b1100_0010);
    let mut cpu = CPU::new();
    cpu.mem_write(0x10, 0x40);
    // LDA #$41; BIT $10; BRK
    cpu.load_and_run(vec![0xa9, 0x41, 0x24, 0x10, 0x00]);
    assert_eq!(cpu.status, CpuFlags::OVERFLOW);
    assert_eq!(cpu.register_a, 0x41);
}

#[test]
fn flag_instructions() {
    // SEI; SED; BRK
    let cpu = run(vec![0x78, 0xf8, 0x00]);
    assert_eq!(cpu.status, CpuFlags::INTERRUPT_DISABLE | CpuFlags::DECIMAL_MODE_UNUSED);
    // SEI; SEC; CLI; CLC; SED; CLD; BRK
    let cpu = run(vec![0x78, 0x38, 0x58, 0x18, 0xf8, 0xd8, 0x00]);
    assert_eq!(cpu.status, 0);
}

#[test]
fn tsx_and_txs_move_the_stack_pointer() {
    // TSX; BRK
    let cpu = run(vec![0xba, 0x00]);
    assert_eq!(cpu.register_x, 0xfd);
    assert_eq!(cpu.status, CpuFlags::NEGATIVE);
    // LDX #$80; TXS; PHA; BRK: the push lands at 0x180
    let mut cpu = CPU::new();
    cpu.mem_write(0x0180, 0xff);
    cpu.load_and_run(vec![0xa2, 0x80, 0x9a, 0x48, 0x00]);
    assert_eq!(cpu.stack_pointer, 0x7f);
    assert_eq!(cpu.mem_read(0x0180), 0x00);
}

#[test]
fn opcode_table_entries() {
    let op = lookup(0xa9).unwrap();
    assert_eq!(op.code, 0xa9);
    assert_eq!(op.name, "LDA");
    assert_eq!(op.bytes, 2);
    assert_eq!(op.addressing_mode, AddressingMode::Immediate);
    let op = lookup(0x0a).unwrap();
    assert_eq!(op.bytes, 1);
    assert_eq!(op.addressing_mode, AddressingMode::NoneAddressing);
    assert!(lookup(0x02).is_none());
}
