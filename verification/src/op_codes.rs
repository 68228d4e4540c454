use vstd::prelude::*;

use crate::addressing_modes::AddressingMode;

verus! {

/// One entry of the instruction table: the opcode byte, its mnemonic, how many
/// bytes the whole instruction occupies, its base cycle count and how it
/// addresses its operand.
pub struct OpCode {
    pub code: u8,
    /// Three-letter mnemonic; it never changes at run time.
    pub name: &'static str,
    pub bytes: u8,
    pub cycles: u8,
    pub addressing_mode: AddressingMode,
}

impl OpCode {
    fn new(code: u8, name: &'static str, bytes: u8, cycles: u8, addressing_mode: AddressingMode) -> (r: Self)
        ensures
            r.code == code,
            r.name == name,
            r.bytes == bytes,
            r.cycles == cycles,
            r.addressing_mode == addressing_mode,
    {
        OpCode { code, name, bytes, cycles, addressing_mode }
    }
}

/// The instruction table: the entry of every opcode the emulator knows.
/// Opcodes that are not listed are unknown to it.
#[verifier::opaque]
pub open spec fn op_entry(code: u8) -> Option<OpCode> {
    match code {
        0x00 => Some(OpCode { code: 0x00, name: "BRK", bytes: 1, cycles: 7, addressing_mode: AddressingMode::NoneAddressing }),
        0x69 => Some(OpCode { code: 0x69, name: "ADC", bytes: 2, cycles: 2, addressing_mode: AddressingMode::Immediate }),
        0x65 => Some(OpCode { code: 0x65, name: "ADC", bytes: 2, cycles: 3, addressing_mode: AddressingMode::ZeroPage }),
        0x75 => Some(OpCode { code: 0x75, name: "ADC", bytes: 2, cycles: 4, addressing_mode: AddressingMode::ZeroPage_X }),
        0x6D => Some(OpCode { code: 0x6D, name: "ADC", bytes: 3, cycles: 4, addressing_mode: AddressingMode::Absolute }),
        0x7D => Some(OpCode { code: 0x7D, name: "ADC", bytes: 3, cycles: 4, addressing_mode: AddressingMode::Absolute_X }),
        0x79 => Some(OpCode { code: 0x79, name: "ADC", bytes: 3, cycles: 4, addressing_mode: AddressingMode::Absolute_Y }),
        0x61 => Some(OpCode { code: 0x61, name: "ADC", bytes: 2, cycles: 6, addressing_mode: AddressingMode::Indirect_X }),
        0x71 => Some(OpCode { code: 0x71, name: "ADC", bytes: 2, cycles: 5, addressing_mode: AddressingMode::Indirect_Y }),
        0x29 => Some(OpCode { code: 0x29, name: "AND", bytes: 2, cycles: 2, addressing_mode: AddressingMode::Immediate }),
        0x25 => Some(OpCode { code: 0x25, name: "AND", bytes: 2, cycles: 3, addressing_mode: AddressingMode::ZeroPage }),
        0x35 => Some(OpCode { code: 0x35, name: "AND", bytes: 2, cycles: 4, addressing_mode: AddressingMode::ZeroPage_X }),
        0x2D => Some(OpCode { code: 0x2D, name: "AND", bytes: 3, cycles: 4, addressing_mode: AddressingMode::Absolute }),
        0x3D => Some(OpCode { code: 0x3D, name: "AND", bytes: 3, cycles: 4, addressing_mode: AddressingMode::Absolute_X }),
        0x39 => Some(OpCode { code: 0x39, name: "AND", bytes: 3, cycles: 4, addressing_mode: AddressingMode::Absolute_Y }),
        0x21 => Some(OpCode { code: 0x21, name: "AND", bytes: 2, cycles: 6, addressing_mode: AddressingMode::Indirect_X }),
        0x31 => Some(OpCode { code: 0x31, name: "AND", bytes: 2, cycles: 5, addressing_mode: AddressingMode::Indirect_Y }),
        0x0A => Some(OpCode { code: 0x0A, name: "ASL", bytes: 1, cycles: 2, addressing_mode: AddressingMode::NoneAddressing }),
        0x06 => Some(OpCode { code: 0x06, name: "ASL", bytes: 2, cycles: 5, addressing_mode: AddressingMode::ZeroPage }),
        0x16 => Some(OpCode { code: 0x16, name: "ASL", bytes: 2, cycles: 6, addressing_mode: AddressingMode::ZeroPage_X }),
        0x0E => Some(OpCode { code: 0x0E, name: "ASL", bytes: 3, cycles: 6, addressing_mode: AddressingMode::Absolute }),
        0x1E => Some(OpCode { code: 0x1E, name: "ASL", bytes: 3, cycles: 7, addressing_mode: AddressingMode::Absolute_X }),
        0x90 => Some(OpCode { code: 0x90, name: "BCC", bytes: 2, cycles: 2, addressing_mode: AddressingMode::NoneAddressing }),
        0xB0 => Some(OpCode { code: 0xB0, name: "BCS", bytes: 2, cycles: 2, addressing_mode: AddressingMode::NoneAddressing }),
        0xF0 => Some(OpCode { code: 0xF0, name: "BEQ", bytes: 2, cycles: 2, addressing_mode: AddressingMode::NoneAddressing }),
        0x24 => Some(OpCode { code: 0x24, name: "BIT", bytes: 2, cycles: 3, addressing_mode: AddressingMode::ZeroPage }),
        0x2C => Some(OpCode { code: 0x2C, name: "BIT", bytes: 3, cycles: 4, addressing_mode: AddressingMode::Absolute }),
        0x30 => Some(OpCode { code: 0x30, name: "BMI", bytes: 2, cycles: 2, addressing_mode: AddressingMode::NoneAddressing }),
        0xD0 => Some(OpCode { code: 0xD0, name: "BNE", bytes: 2, cycles: 2, addressing_mode: AddressingMode::NoneAddressing }),
        0x10 => Some(OpCode { code: 0x10, name: "BPL", bytes: 2, cycles: 2, addressing_mode: AddressingMode::NoneAddressing }),
        0x50 => Some(OpCode { code: 0x50, name: "BVC", bytes: 2, cycles: 2, addressing_mode: AddressingMode::NoneAddressing }),
        0x70 => Some(OpCode { code: 0x70, name: "BVS", bytes: 2, cycles: 2, addressing_mode: AddressingMode::NoneAddressing }),
        0x18 => Some(OpCode { code: 0x18, name: "CLC", bytes: 1, cycles: 2, addressing_mode: AddressingMode::NoneAddressing }),
        0xD8 => Some(OpCode { code: 0xD8, name: "CLD", bytes: 1, cycles: 2, addressing_mode: AddressingMode::NoneAddressing }),
        0x58 => Some(OpCode { code: 0x58, name: "CLI", bytes: 1, cycles: 2, addressing_mode: AddressingMode::NoneAddressing }),
        0xB8 => Some(OpCode { code: 0xB8, name: "CLV", bytes: 1, cycles: 2, addressing_mode: AddressingMode::NoneAddressing }),
        0xC9 => Some(OpCode { code: 0xC9, name: "CMP", bytes: 2, cycles: 2, addressing_mode: AddressingMode::Immediate }),
        0xC5 => Some(OpCode { code: 0xC5, name: "CMP", bytes: 2, cycles: 3, addressing_mode: AddressingMode::ZeroPage }),
        0xD5 => Some(OpCode { code: 0xD5, name: "CMP", bytes: 2, cycles: 4, addressing_mode: AddressingMode::ZeroPage_X }),
        0xCD => Some(OpCode { code: 0xCD, name: "CMP", bytes: 3, cycles: 4, addressing_mode: AddressingMode::Absolute }),
        0xDD => Some(OpCode { code: 0xDD, name: "CMP", bytes: 3, cycles: 4, addressing_mode: AddressingMode::Absolute_X }),
        0xD9 => Some(OpCode { code: 0xD9, name: "CMP", bytes: 3, cycles: 4, addressing_mode: AddressingMode::Absolute_Y }),
        0xC1 => Some(OpCode { code: 0xC1, name: "CMP", bytes: 2, cycles: 6, addressing_mode: AddressingMode::Indirect_X }),
        0xD1 => Some(OpCode { code: 0xD1, name: "CMP", bytes: 2, cycles: 5, addressing_mode: AddressingMode::Indirect_Y }),
        0xE0 => Some(OpCode { code: 0xE0, name: "CPX", bytes: 2, cycles: 2, addressing_mode: AddressingMode::Immediate }),
        0xE4 => Some(OpCode { code: 0xE4, name: "CPX", bytes: 2, cycles: 3, addressing_mode: AddressingMode::ZeroPage }),
        0xEC => Some(OpCode { code: 0xEC, name: "CPX", bytes: 3, cycles: 4, addressing_mode: AddressingMode::Absolute }),
        0xC0 => Some(OpCode { code: 0xC0, name: "CPY", bytes: 2, cycles: 2, addressing_mode: AddressingMode::Immediate }),
        0xC4 => Some(OpCode { code: 0xC4, name: "CPY", bytes: 2, cycles: 3, addressing_mode: AddressingMode::ZeroPage }),
        0xCC => Some(OpCode { code: 0xCC, name: "CPY", bytes: 3, cycles: 4, addressing_mode: AddressingMode::Absolute }),
        0xC6 => Some(OpCode { code: 0xC6, name: "DEC", bytes: 2, cycles: 5, addressing_mode: AddressingMode::ZeroPage }),
        0xD6 => Some(OpCode { code: 0xD6, name: "DEC", bytes: 2, cycles: 6, addressing_mode: AddressingMode::ZeroPage_X }),
        0xCE => Some(OpCode { code: 0xCE, name: "DEC", bytes: 3, cycles: 6, addressing_mode: AddressingMode::Absolute }),
        0xDE => Some(OpCode { code: 0xDE, name: "DEC", bytes: 3, cycles: 7, addressing_mode: AddressingMode::Absolute_X }),
        0xCA => Some(OpCode { code: 0xCA, name: "DEX", bytes: 1, cycles: 2, addressing_mode: AddressingMode::NoneAddressing }),
        0x88 => Some(OpCode { code: 0x88, name: "DEY", bytes: 1, cycles: 2, addressing_mode: AddressingMode::NoneAddressing }),
        0x49 => Some(OpCode { code: 0x49, name: "EOR", bytes: 2, cycles: 2, addressing_mode: AddressingMode::Immediate }),
        0x45 => Some(OpCode { code: 0x45, name: "EOR", bytes: 2, cycles: 3, addressing_mode: AddressingMode::ZeroPage }),
        0x55 => Some(OpCode { code: 0x55, name: "EOR", bytes: 2, cycles: 4, addressing_mode: AddressingMode::ZeroPage_X }),
        0x4D => Some(OpCode { code: 0x4D, name: "EOR", bytes: 3, cycles: 4, addressing_mode: AddressingMode::Absolute }),
        0x5D => Some(OpCode { code: 0x5D, name: "EOR", bytes: 3, cycles: 4, addressing_mode: AddressingMode::Absolute_X }),
        0x59 => Some(OpCode { code: 0x59, name: "EOR", bytes: 3, cycles: 4, addressing_mode: AddressingMode::Absolute_Y }),
        0x41 => Some(OpCode { code: 0x41, name: "EOR", bytes: 2, cycles: 6, addressing_mode: AddressingMode::Indirect_X }),
        0x51 => Some(OpCode { code: 0x51, name: "EOR", bytes: 2, cycles: 5, addressing_mode: AddressingMode::Indirect_Y }),
        0xE6 => Some(OpCode { code: 0xE6, name: "INC", bytes: 2, cycles: 5, addressing_mode: AddressingMode::ZeroPage }),
        0xF6 => Some(OpCode { code: 0xF6, name: "INC", bytes: 2, cycles: 6, addressing_mode: AddressingMode::ZeroPage_X }),
        0xEE => Some(OpCode { code: 0xEE, name: "INC", bytes: 3, cycles: 6, addressing_mode: AddressingMode::Absolute }),
        0xFE => Some(OpCode { code: 0xFE, name: "INC", bytes: 3, cycles: 7, addressing_mode: AddressingMode::Absolute_X }),
        0xE8 => Some(OpCode { code: 0xE8, name: "INX", bytes: 1, cycles: 2, addressing_mode: AddressingMode::NoneAddressing }),
        0xC8 => Some(OpCode { code: 0xC8, name: "INY", bytes: 1, cycles: 2, addressing_mode: AddressingMode::NoneAddressing }),
        0x4C => Some(OpCode { code: 0x4C, name: "JMP", bytes: 3, cycles: 3, addressing_mode: AddressingMode::Absolute }),
        0x6C => Some(OpCode { code: 0x6C, name: "JMP", bytes: 3, cycles: 5, addressing_mode: AddressingMode::Indirect }),
        0x20 => Some(OpCode { code: 0x20, name: "JSR", bytes: 3, cycles: 6, addressing_mode: AddressingMode::Absolute }),
        0xA9 => Some(OpCode { code: 0xA9, name: "LDA", bytes: 2, cycles: 2, addressing_mode: AddressingMode::Immediate }),
        0xA5 => Some(OpCode { code: 0xA5, name: "LDA", bytes: 2, cycles: 3, addressing_mode: AddressingMode::ZeroPage }),
        0xB5 => Some(OpCode { code: 0xB5, name: "LDA", bytes: 2, cycles: 4, addressing_mode: AddressingMode::ZeroPage_X }),
        0xAD => Some(OpCode { code: 0xAD, name: "LDA", bytes: 3, cycles: 4, addressing_mode: AddressingMode::Absolute }),
        0xBD => Some(OpCode { code: 0xBD, name: "LDA", bytes: 3, cycles: 4, addressing_mode: AddressingMode::Absolute_X }),
        0xB9 => Some(OpCode { code: 0xB9, name: "LDA", bytes: 3, cycles: 4, addressing_mode: AddressingMode::Absolute_Y }),
        0xA1 => Some(OpCode { code: 0xA1, name: "LDA", bytes: 2, cycles: 6, addressing_mode: AddressingMode::Indirect_X }),
        0xB1 => Some(OpCode { code: 0xB1, name: "LDA", bytes: 2, cycles: 5, addressing_mode: AddressingMode::Indirect_Y }),
        0xA2 => Some(OpCode { code: 0xA2, name: "LDX", bytes: 2, cycles: 2, addressing_mode: AddressingMode::Immediate }),
        0xA6 => Some(OpCode { code: 0xA6, name: "LDX", bytes: 2, cycles: 3, addressing_mode: AddressingMode::ZeroPage }),
        0xB6 => Some(OpCode { code: 0xB6, name: "LDX", bytes: 2, cycles: 4, addressing_mode: AddressingMode::ZeroPage_Y }),
        0xAE => Some(OpCode { code: 0xAE, name: "LDX", bytes: 3, cycles: 4, addressing_mode: AddressingMode::Absolute }),
        0xBE => Some(OpCode { code: 0xBE, name: "LDX", bytes: 3, cycles: 4, addressing_mode: AddressingMode::Absolute_Y }),
        0xA0 => Some(OpCode { code: 0xA0, name: "LDY", bytes: 2, cycles: 2, addressing_mode: AddressingMode::Immediate }),
        0xA4 => Some(OpCode { code: 0xA4, name: "LDY", bytes: 2, cycles: 3, addressing_mode: AddressingMode::ZeroPage }),
        0xB4 => Some(OpCode { code: 0xB4, name: "LDY", bytes: 2, cycles: 4, addressing_mode: AddressingMode::ZeroPage_X }),
        0xAC => Some(OpCode { code: 0xAC, name: "LDY", bytes: 3, cycles: 4, addressing_mode: AddressingMode::Absolute }),
        0xBC => Some(OpCode { code: 0xBC, name: "LDY", bytes: 3, cycles: 4, addressing_mode: AddressingMode::Absolute_X }),
        0x4A => Some(OpCode { code: 0x4A, name: "LSR", bytes: 1, cycles: 2, addressing_mode: AddressingMode::NoneAddressing }),
        0x46 => Some(OpCode { code: 0x46, name: "LSR", bytes: 2, cycles: 5, addressing_mode: AddressingMode::ZeroPage }),
        0x56 => Some(OpCode { code: 0x56, name: "LSR", bytes: 2, cycles: 6, addressing_mode: AddressingMode::ZeroPage_X }),
        0x4E => Some(OpCode { code: 0x4E, name: "LSR", bytes: 3, cycles: 6, addressing_mode: AddressingMode::Absolute }),
        0x5E => Some(OpCode { code: 0x5E, name: "LSR", bytes: 3, cycles: 7, addressing_mode: AddressingMode::Absolute_X }),
        0xEA => Some(OpCode { code: 0xEA, name: "NOP", bytes: 1, cycles: 2, addressing_mode: AddressingMode::NoneAddressing }),
        0x09 => Some(OpCode { code: 0x09, name: "ORA", bytes: 2, cycles: 2, addressing_mode: AddressingMode::Immediate }),
        0x05 => Some(OpCode { code: 0x05, name: "ORA", bytes: 2, cycles: 3, addressing_mode: AddressingMode::ZeroPage }),
        0x15 => Some(OpCode { code: 0x15, name: "ORA", bytes: 2, cycles: 4, addressing_mode: AddressingMode::ZeroPage_X }),
        0x0D => Some(OpCode { code: 0x0D, name: "ORA", bytes: 3, cycles: 4, addressing_mode: AddressingMode::Absolute }),
        0x1D => Some(OpCode { code: 0x1D, name: "ORA", bytes: 3, cycles: 4, addressing_mode: AddressingMode::Absolute_X }),
        0x19 => Some(OpCode { code: 0x19, name: "ORA", bytes: 3, cycles: 4, addressing_mode: AddressingMode::Absolute_Y }),
        0x01 => Some(OpCode { code: 0x01, name: "ORA", bytes: 2, cycles: 6, addressing_mode: AddressingMode::Indirect_X }),
        0x11 => Some(OpCode { code: 0x11, name: "ORA", bytes: 2, cycles: 5, addressing_mode: AddressingMode::Indirect_Y }),
        0x48 => Some(OpCode { code: 0x48, name: "PHA", bytes: 1, cycles: 3, addressing_mode: AddressingMode::NoneAddressing }),
        0x08 => Some(OpCode { code: 0x08, name: "PHP", bytes: 1, cycles: 3, addressing_mode: AddressingMode::NoneAddressing }),
        0x68 => Some(OpCode { code: 0x68, name: "PLA", bytes: 1, cycles: 4, addressing_mode: AddressingMode::NoneAddressing }),
        0x28 => Some(OpCode { code: 0x28, name: "PLP", bytes: 1, cycles: 4, addressing_mode: AddressingMode::NoneAddressing }),
        0x2A => Some(OpCode { code: 0x2A, name: "ROL", bytes: 1, cycles: 2, addressing_mode: AddressingMode::NoneAddressing }),
        0x26 => Some(OpCode { code: 0x26, name: "ROL", bytes: 2, cycles: 5, addressing_mode: AddressingMode::ZeroPage }),
        0x36 => Some(OpCode { code: 0x36, name: "ROL", bytes: 2, cycles: 6, addressing_mode: AddressingMode::ZeroPage_X }),
        0x2E => Some(OpCode { code: 0x2E, name: "ROL", bytes: 3, cycles: 6, addressing_mode: AddressingMode::Absolute }),
        0x3E => Some(OpCode { code: 0x3E, name: "ROL", bytes: 3, cycles: 7, addressing_mode: AddressingMode::Absolute_X }),
        0x6A => Some(OpCode { code: 0x6A, name: "ROR", bytes: 1, cycles: 2, addressing_mode: AddressingMode::NoneAddressing }),
        0x66 => Some(OpCode { code: 0x66, name: "ROR", bytes: 2, cycles: 5, addressing_mode: AddressingMode::ZeroPage }),
        0x76 => Some(OpCode { code: 0x76, name: "ROR", bytes: 2, cycles: 6, addressing_mode: AddressingMode::ZeroPage_X }),
        0x6E => Some(OpCode { code: 0x6E, name: "ROR", bytes: 3, cycles: 6, addressing_mode: AddressingMode::Absolute }),
        0x7E => Some(OpCode { code: 0x7E, name: "ROR", bytes: 3, cycles: 7, addressing_mode: AddressingMode::Absolute_X }),
        0x40 => Some(OpCode { code: 0x40, name: "RTI", bytes: 1, cycles: 6, addressing_mode: AddressingMode::NoneAddressing }),
        0x60 => Some(OpCode { code: 0x60, name: "RTS", bytes: 1, cycles: 6, addressing_mode: AddressingMode::NoneAddressing }),
        0xE9 => Some(OpCode { code: 0xE9, name: "SBC", bytes: 2, cycles: 2, addressing_mode: AddressingMode::Immediate }),
        0xE5 => Some(OpCode { code: 0xE5, name: "SBC", bytes: 2, cycles: 3, addressing_mode: AddressingMode::ZeroPage }),
        0xF5 => Some(OpCode { code: 0xF5, name: "SBC", bytes: 2, cycles: 4, addressing_mode: AddressingMode::ZeroPage_X }),
        0xED => Some(OpCode { code: 0xED, name: "SBC", bytes: 3, cycles: 4, addressing_mode: AddressingMode::Absolute }),
        0xFD => Some(OpCode { code: 0xFD, name: "SBC", bytes: 3, cycles: 4, addressing_mode: AddressingMode::Absolute_X }),
        0xF9 => Some(OpCode { code: 0xF9, name: "SBC", bytes: 3, cycles: 4, addressing_mode: AddressingMode::Absolute_Y }),
        0xE1 => Some(OpCode { code: 0xE1, name: "SBC", bytes: 2, cycles: 6, addressing_mode: AddressingMode::Indirect_X }),
        0xF1 => Some(OpCode { code: 0xF1, name: "SBC", bytes: 2, cycles: 5, addressing_mode: AddressingMode::Indirect_Y }),
        0x38 => Some(OpCode { code: 0x38, name: "SEC", bytes: 1, cycles: 2, addressing_mode: AddressingMode::NoneAddressing }),
        0xF8 => Some(OpCode { code: 0xF8, name: "SED", bytes: 1, cycles: 2, addressing_mode: AddressingMode::NoneAddressing }),
        0x78 => Some(OpCode { code: 0x78, name: "SEI", bytes: 1, cycles: 2, addressing_mode: AddressingMode::NoneAddressing }),
        0x85 => Some(OpCode { code: 0x85, name: "STA", bytes: 2, cycles: 3, addressing_mode: AddressingMode::ZeroPage }),
        0x95 => Some(OpCode { code: 0x95, name: "STA", bytes: 2, cycles: 4, addressing_mode: AddressingMode::ZeroPage_X }),
        0x8D => Some(OpCode { code: 0x8D, name: "STA", bytes: 3, cycles: 4, addressing_mode: AddressingMode::Absolute }),
        0x9D => Some(OpCode { code: 0x9D, name: "STA", bytes: 3, cycles: 5, addressing_mode: AddressingMode::Absolute_X }),
        0x99 => Some(OpCode { code: 0x99, name: "STA", bytes: 3, cycles: 5, addressing_mode: AddressingMode::Absolute_Y }),
        0x81 => Some(OpCode { code: 0x81, name: "STA", bytes: 2, cycles: 6, addressing_mode: AddressingMode::Indirect_X }),
        0x91 => Some(OpCode { code: 0x91, name: "STA", bytes: 2, cycles: 6, addressing_mode: AddressingMode::Indirect_Y }),
        0x86 => Some(OpCode { code: 0x86, name: "STX", bytes: 2, cycles: 3, addressing_mode: AddressingMode::ZeroPage }),
        0x96 => Some(OpCode { code: 0x96, name: "STX", bytes: 2, cycles: 4, addressing_mode: AddressingMode::ZeroPage_Y }),
        0x8E => Some(OpCode { code: 0x8E, name: "STX", bytes: 3, cycles: 4, addressing_mode: AddressingMode::Absolute }),
        0x84 => Some(OpCode { code: 0x84, name: "STY", bytes: 2, cycles: 3, addressing_mode: AddressingMode::ZeroPage }),
        0x94 => Some(OpCode { code: 0x94, name: "STY", bytes: 2, cycles: 4, addressing_mode: AddressingMode::ZeroPage_X }),
        0x8C => Some(OpCode { code: 0x8C, name: "STY", bytes: 3, cycles: 4, addressing_mode: AddressingMode::Absolute }),
        0xAA => Some(OpCode { code: 0xAA, name: "TAX", bytes: 1, cycles: 2, addressing_mode: AddressingMode::NoneAddressing }),
        0xA8 => Some(OpCode { code: 0xA8, name: "TAY", bytes: 1, cycles: 2, addressing_mode: AddressingMode::NoneAddressing }),
        0xBA => Some(OpCode { code: 0xBA, name: "TSX", bytes: 1, cycles: 2, addressing_mode: AddressingMode::NoneAddressing }),
        0x8A => Some(OpCode { code: 0x8A, name: "TXA", bytes: 1, cycles: 2, addressing_mode: AddressingMode::NoneAddressing }),
        0x9A => Some(OpCode { code: 0x9A, name: "TXS", bytes: 1, cycles: 2, addressing_mode: AddressingMode::NoneAddressing }),
        0x98 => Some(OpCode { code: 0x98, name: "TYA", bytes: 1, cycles: 2, addressing_mode: AddressingMode::NoneAddressing }),
        _ => None,
    }
}

/// Looks an opcode byte up in the instruction table.
pub fn lookup(code: u8) -> (r: Option<OpCode>)
    ensures
        r == op_entry(code),
{
    if code < 0x80 {
        lookup_low(code)
    } else {
        lookup_high(code)
    }
}

/// Looks up an opcode below 0x80.
fn lookup_low(code: u8) -> (r: Option<OpCode>)
    requires
        code < 0x80,
    ensures
        r == op_entry(code),
{
    reveal(op_entry);
    match code {
        0x00 => Some(OpCode::new(0x00, "BRK", 1, 7, AddressingMode::NoneAddressing)),
        0x69 => Some(OpCode::new(0x69, "ADC", 2, 2, AddressingMode::Immediate)),
        0x65 => Some(OpCode::new(0x65, "ADC", 2, 3, AddressingMode::ZeroPage)),
        0x75 => Some(OpCode::new(0x75, "ADC", 2, 4, AddressingMode::ZeroPage_X)),
        0x6D => Some(OpCode::new(0x6D, "ADC", 3, 4, AddressingMode::Absolute)),
        0x7D => Some(OpCode::new(0x7D, "ADC", 3, 4, AddressingMode::Absolute_X)),
        0x79 => Some(OpCode::new(0x79, "ADC", 3, 4, AddressingMode::Absolute_Y)),
        0x61 => Some(OpCode::new(0x61, "ADC", 2, 6, AddressingMode::Indirect_X)),
        0x71 => Some(OpCode::new(0x71, "ADC", 2, 5, AddressingMode::Indirect_Y)),
        0x29 => Some(OpCode::new(0x29, "AND", 2, 2, AddressingMode::Immediate)),
        0x25 => Some(OpCode::new(0x25, "AND", 2, 3, AddressingMode::ZeroPage)),
        0x35 => Some(OpCode::new(0x35, "AND", 2, 4, AddressingMode::ZeroPage_X)),
        0x2D => Some(OpCode::new(0x2D, "AND", 3, 4, AddressingMode::Absolute)),
        0x3D => Some(OpCode::new(0x3D, "AND", 3, 4, AddressingMode::Absolute_X)),
        0x39 => Some(OpCode::new(0x39, "AND", 3, 4, AddressingMode::Absolute_Y)),
        0x21 => Some(OpCode::new(0x21, "AND", 2, 6, AddressingMode::Indirect_X)),
        0x31 => Some(OpCode::new(0x31, "AND", 2, 5, AddressingMode::Indirect_Y)),
        0x0A => Some(OpCode::new(0x0A, "ASL", 1, 2, AddressingMode::NoneAddressing)),
        0x06 => Some(OpCode::new(0x06, "ASL", 2, 5, AddressingMode::ZeroPage)),
        0x16 => Some(OpCode::new(0x16, "ASL", 2, 6, AddressingMode::ZeroPage_X)),
        0x0E => Some(OpCode::new(0x0E, "ASL", 3, 6, AddressingMode::Absolute)),
        0x1E => Some(OpCode::new(0x1E, "ASL", 3, 7, AddressingMode::Absolute_X)),
        0x24 => Some(OpCode::new(0x24, "BIT", 2, 3, AddressingMode::ZeroPage)),
        0x2C => Some(OpCode::new(0x2C, "BIT", 3, 4, AddressingMode::Absolute)),
        0x30 => Some(OpCode::new(0x30, "BMI", 2, 2, AddressingMode::NoneAddressing)),
        0x10 => Some(OpCode::new(0x10, "BPL", 2, 2, AddressingMode::NoneAddressing)),
        0x50 => Some(OpCode::new(0x50, "BVC", 2, 2, AddressingMode::NoneAddressing)),
        0x70 => Some(OpCode::new(0x70, "BVS", 2, 2, AddressingMode::NoneAddressing)),
        0x18 => Some(OpCode::new(0x18, "CLC", 1, 2, AddressingMode::NoneAddressing)),
        0x58 => Some(OpCode::new(0x58, "CLI", 1, 2, AddressingMode::NoneAddressing)),
        0x49 => Some(OpCode::new(0x49, "EOR", 2, 2, AddressingMode::Immediate)),
        0x45 => Some(OpCode::new(0x45, "EOR", 2, 3, AddressingMode::ZeroPage)),
        0x55 => Some(OpCode::new(0x55, "EOR", 2, 4, AddressingMode::ZeroPage_X)),
        0x4D => Some(OpCode::new(0x4D, "EOR", 3, 4, AddressingMode::Absolute)),
        0x5D => Some(OpCode::new(0x5D, "EOR", 3, 4, AddressingMode::Absolute_X)),
        0x59 => Some(OpCode::new(0x59, "EOR", 3, 4, AddressingMode::Absolute_Y)),
        0x41 => Some(OpCode::new(0x41, "EOR", 2, 6, AddressingMode::Indirect_X)),
        0x51 => Some(OpCode::new(0x51, "EOR", 2, 5, AddressingMode::Indirect_Y)),
        0x4C => Some(OpCode::new(0x4C, "JMP", 3, 3, AddressingMode::Absolute)),
        0x6C => Some(OpCode::new(0x6C, "JMP", 3, 5, AddressingMode::Indirect)),
        0x20 => Some(OpCode::new(0x20, "JSR", 3, 6, AddressingMode::Absolute)),
        0x4A => Some(OpCode::new(0x4A, "LSR", 1, 2, AddressingMode::NoneAddressing)),
        0x46 => Some(OpCode::new(0x46, "LSR", 2, 5, AddressingMode::ZeroPage)),
        0x56 => Some(OpCode::new(0x56, "LSR", 2, 6, AddressingMode::ZeroPage_X)),
        0x4E => Some(OpCode::new(0x4E, "LSR", 3, 6, AddressingMode::Absolute)),
        0x5E => Some(OpCode::new(0x5E, "LSR", 3, 7, AddressingMode::Absolute_X)),
        0x09 => Some(OpCode::new(0x09, "ORA", 2, 2, AddressingMode::Immediate)),
        0x05 => Some(OpCode::new(0x05, "ORA", 2, 3, AddressingMode::ZeroPage)),
        0x15 => Some(OpCode::new(0x15, "ORA", 2, 4, AddressingMode::ZeroPage_X)),
        0x0D => Some(OpCode::new(0x0D, "ORA", 3, 4, AddressingMode::Absolute)),
        0x1D => Some(OpCode::new(0x1D, "ORA", 3, 4, AddressingMode::Absolute_X)),
        0x19 => Some(OpCode::new(0x19, "ORA", 3, 4, AddressingMode::Absolute_Y)),
        0x01 => Some(OpCode::new(0x01, "ORA", 2, 6, AddressingMode::Indirect_X)),
        0x11 => Some(OpCode::new(0x11, "ORA", 2, 5, AddressingMode::Indirect_Y)),
        0x48 => Some(OpCode::new(0x48, "PHA", 1, 3, AddressingMode::NoneAddressing)),
        0x08 => Some(OpCode::new(0x08, "PHP", 1, 3, AddressingMode::NoneAddressing)),
        0x68 => Some(OpCode::new(0x68, "PLA", 1, 4, AddressingMode::NoneAddressing)),
        0x28 => Some(OpCode::new(0x28, "PLP", 1, 4, AddressingMode::NoneAddressing)),
        0x2A => Some(OpCode::new(0x2A, "ROL", 1, 2, AddressingMode::NoneAddressing)),
        0x26 => Some(OpCode::new(0x26, "ROL", 2, 5, AddressingMode::ZeroPage)),
        0x36 => Some(OpCode::new(0x36, "ROL", 2, 6, AddressingMode::ZeroPage_X)),
        0x2E => Some(OpCode::new(0x2E, "ROL", 3, 6, AddressingMode::Absolute)),
        0x3E => Some(OpCode::new(0x3E, "ROL", 3, 7, AddressingMode::Absolute_X)),
        0x6A => Some(OpCode::new(0x6A, "ROR", 1, 2, AddressingMode::NoneAddressing)),
        0x66 => Some(OpCode::new(0x66, "ROR", 2, 5, AddressingMode::ZeroPage)),
        0x76 => Some(OpCode::new(0x76, "ROR", 2, 6, AddressingMode::ZeroPage_X)),
        0x6E => Some(OpCode::new(0x6E, "ROR", 3, 6, AddressingMode::Absolute)),
        0x7E => Some(OpCode::new(0x7E, "ROR", 3, 7, AddressingMode::Absolute_X)),
        0x40 => Some(OpCode::new(0x40, "RTI", 1, 6, AddressingMode::NoneAddressing)),
        0x60 => Some(OpCode::new(0x60, "RTS", 1, 6, AddressingMode::NoneAddressing)),
        0x38 => Some(OpCode::new(0x38, "SEC", 1, 2, AddressingMode::NoneAddressing)),
        0x78 => Some(OpCode::new(0x78, "SEI", 1, 2, AddressingMode::NoneAddressing)),
        _ => None,
    }
}

/// Looks up an opcode 0x80 or above.
fn lookup_high(code: u8) -> (r: Option<OpCode>)
    requires
        code >= 0x80,
    ensures
        r == op_entry(code),
{
    reveal(op_entry);
    match code {
        0x90 => Some(OpCode::new(0x90, "BCC", 2, 2, AddressingMode::NoneAddressing)),
        0xB0 => Some(OpCode::new(0xB0, "BCS", 2, 2, AddressingMode::NoneAddressing)),
        0xF0 => Some(OpCode::new(0xF0, "BEQ", 2, 2, AddressingMode::NoneAddressing)),
        0xD0 => Some(OpCode::new(0xD0, "BNE", 2, 2, AddressingMode::NoneAddressing)),
        0xD8 => Some(OpCode::new(0xD8, "CLD", 1, 2, AddressingMode::NoneAddressing)),
        0xB8 => Some(OpCode::new(0xB8, "CLV", 1, 2, AddressingMode::NoneAddressing)),
        0xC9 => Some(OpCode::new(0xC9, "CMP", 2, 2, AddressingMode::Immediate)),
        0xC5 => Some(OpCode::new(0xC5, "CMP", 2, 3, AddressingMode::ZeroPage)),
        0xD5 => Some(OpCode::new(0xD5, "CMP", 2, 4, AddressingMode::ZeroPage_X)),
        0xCD => Some(OpCode::new(0xCD, "CMP", 3, 4, AddressingMode::Absolute)),
        0xDD => Some(OpCode::new(0xDD, "CMP", 3, 4, AddressingMode::Absolute_X)),
        0xD9 => Some(OpCode::new(0xD9, "CMP", 3, 4, AddressingMode::Absolute_Y)),
        0xC1 => Some(OpCode::new(0xC1, "CMP", 2, 6, AddressingMode::Indirect_X)),
        0xD1 => Some(OpCode::new(0xD1, "CMP", 2, 5, AddressingMode::Indirect_Y)),
        0xE0 => Some(OpCode::new(0xE0, "CPX", 2, 2, AddressingMode::Immediate)),
        0xE4 => Some(OpCode::new(0xE4, "CPX", 2, 3, AddressingMode::ZeroPage)),
        0xEC => Some(OpCode::new(0xEC, "CPX", 3, 4, AddressingMode::Absolute)),
        0xC0 => Some(OpCode::new(0xC0, "CPY", 2, 2, AddressingMode::Immediate)),
        0xC4 => Some(OpCode::new(0xC4, "CPY", 2, 3, AddressingMode::ZeroPage)),
        0xCC => Some(OpCode::new(0xCC, "CPY", 3, 4, AddressingMode::Absolute)),
        0xC6 => Some(OpCode::new(0xC6, "DEC", 2, 5, AddressingMode::ZeroPage)),
        0xD6 => Some(OpCode::new(0xD6, "DEC", 2, 6, AddressingMode::ZeroPage_X)),
        0xCE => Some(OpCode::new(0xCE, "DEC", 3, 6, AddressingMode::Absolute)),
        0xDE => Some(OpCode::new(0xDE, "DEC", 3, 7, AddressingMode::Absolute_X)),
        0xCA => Some(OpCode::new(0xCA, "DEX", 1, 2, AddressingMode::NoneAddressing)),
        0x88 => Some(OpCode::new(0x88, "DEY", 1, 2, AddressingMode::NoneAddressing)),
        0xE6 => Some(OpCode::new(0xE6, "INC", 2, 5, AddressingMode::ZeroPage)),
        0xF6 => Some(OpCode::new(0xF6, "INC", 2, 6, AddressingMode::ZeroPage_X)),
        0xEE => Some(OpCode::new(0xEE, "INC", 3, 6, AddressingMode::Absolute)),
        0xFE => Some(OpCode::new(0xFE, "INC", 3, 7, AddressingMode::Absolute_X)),
        0xE8 => Some(OpCode::new(0xE8, "INX", 1, 2, AddressingMode::NoneAddressing)),
        0xC8 => Some(OpCode::new(0xC8, "INY", 1, 2, AddressingMode::NoneAddressing)),
        0xA9 => Some(OpCode::new(0xA9, "LDA", 2, 2, AddressingMode::Immediate)),
        0xA5 => Some(OpCode::new(0xA5, "LDA", 2, 3, AddressingMode::ZeroPage)),
        0xB5 => Some(OpCode::new(0xB5, "LDA", 2, 4, AddressingMode::ZeroPage_X)),
        0xAD => Some(OpCode::new(0xAD, "LDA", 3, 4, AddressingMode::Absolute)),
        0xBD => Some(OpCode::new(0xBD, "LDA", 3, 4, AddressingMode::Absolute_X)),
        0xB9 => Some(OpCode::new(0xB9, "LDA", 3, 4, AddressingMode::Absolute_Y)),
        0xA1 => Some(OpCode::new(0xA1, "LDA", 2, 6, AddressingMode::Indirect_X)),
        0xB1 => Some(OpCode::new(0xB1, "LDA", 2, 5, AddressingMode::Indirect_Y)),
        0xA2 => Some(OpCode::new(0xA2, "LDX", 2, 2, AddressingMode::Immediate)),
        0xA6 => Some(OpCode::new(0xA6, "LDX", 2, 3, AddressingMode::ZeroPage)),
        0xB6 => Some(OpCode::new(0xB6, "LDX", 2, 4, AddressingMode::ZeroPage_Y)),
        0xAE => Some(OpCode::new(0xAE, "LDX", 3, 4, AddressingMode::Absolute)),
        0xBE => Some(OpCode::new(0xBE, "LDX", 3, 4, AddressingMode::Absolute_Y)),
        0xA0 => Some(OpCode::new(0xA0, "LDY", 2, 2, AddressingMode::Immediate)),
        0xA4 => Some(OpCode::new(0xA4, "LDY", 2, 3, AddressingMode::ZeroPage)),
        0xB4 => Some(OpCode::new(0xB4, "LDY", 2, 4, AddressingMode::ZeroPage_X)),
        0xAC => Some(OpCode::new(0xAC, "LDY", 3, 4, AddressingMode::Absolute)),
        0xBC => Some(OpCode::new(0xBC, "LDY", 3, 4, AddressingMode::Absolute_X)),
        0xEA => Some(OpCode::new(0xEA, "NOP", 1, 2, AddressingMode::NoneAddressing)),
        0xE9 => Some(OpCode::new(0xE9, "SBC", 2, 2, AddressingMode::Immediate)),
        0xE5 => Some(OpCode::new(0xE5, "SBC", 2, 3, AddressingMode::ZeroPage)),
        0xF5 => Some(OpCode::new(0xF5, "SBC", 2, 4, AddressingMode::ZeroPage_X)),
        0xED => Some(OpCode::new(0xED, "SBC", 3, 4, AddressingMode::Absolute)),
        0xFD => Some(OpCode::new(0xFD, "SBC", 3, 4, AddressingMode::Absolute_X)),
        0xF9 => Some(OpCode::new(0xF9, "SBC", 3, 4, AddressingMode::Absolute_Y)),
        0xE1 => Some(OpCode::new(0xE1, "SBC", 2, 6, AddressingMode::Indirect_X)),
        0xF1 => Some(OpCode::new(0xF1, "SBC", 2, 5, AddressingMode::Indirect_Y)),
        0xF8 => Some(OpCode::new(0xF8, "SED", 1, 2, AddressingMode::NoneAddressing)),
        0x85 => Some(OpCode::new(0x85, "STA", 2, 3, AddressingMode::ZeroPage)),
        0x95 => Some(OpCode::new(0x95, "STA", 2, 4, AddressingMode::ZeroPage_X)),
        0x8D => Some(OpCode::new(0x8D, "STA", 3, 4, AddressingMode::Absolute)),
        0x9D => Some(OpCode::new(0x9D, "STA", 3, 5, AddressingMode::Absolute_X)),
        0x99 => Some(OpCode::new(0x99, "STA", 3, 5, AddressingMode::Absolute_Y)),
        0x81 => Some(OpCode::new(0x81, "STA", 2, 6, AddressingMode::Indirect_X)),
        0x91 => Some(OpCode::new(0x91, "STA", 2, 6, AddressingMode::Indirect_Y)),
        0x86 => Some(OpCode::new(0x86, "STX", 2, 3, AddressingMode::ZeroPage)),
        0x96 => Some(OpCode::new(0x96, "STX", 2, 4, AddressingMode::ZeroPage_Y)),
        0x8E => Some(OpCode::new(0x8E, "STX", 3, 4, AddressingMode::Absolute)),
        0x84 => Some(OpCode::new(0x84, "STY", 2, 3, AddressingMode::ZeroPage)),
        0x94 => Some(OpCode::new(0x94, "STY", 2, 4, AddressingMode::ZeroPage_X)),
        0x8C => Some(OpCode::new(0x8C, "STY", 3, 4, AddressingMode::Absolute)),
        0xAA => Some(OpCode::new(0xAA, "TAX", 1, 2, AddressingMode::NoneAddressing)),
        0xA8 => Some(OpCode::new(0xA8, "TAY", 1, 2, AddressingMode::NoneAddressing)),
        0xBA => Some(OpCode::new(0xBA, "TSX", 1, 2, AddressingMode::NoneAddressing)),
        0x8A => Some(OpCode::new(0x8A, "TXA", 1, 2, AddressingMode::NoneAddressing)),
        0x9A => Some(OpCode::new(0x9A, "TXS", 1, 2, AddressingMode::NoneAddressing)),
        0x98 => Some(OpCode::new(0x98, "TYA", 1, 2, AddressingMode::NoneAddressing)),
        _ => None,
    }
}

} // verus!
