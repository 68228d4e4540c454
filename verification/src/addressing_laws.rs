use vstd::prelude::*;

use crate::addressing_modes::AddressingMode;
use crate::op_codes::op_entry;
use crate::semantics::{add8, CpuState};

verus! {

// Where each addressing mode finds its operand, and what the instruction
// table encodes.

/// The little-endian word stored at `p` and `p + 1`.
pub open spec fn word_at(s: CpuState, p: int) -> int {
    s.mem[p] + 256 * s.mem[p + 1]
}

/// Where each addressing mode finds its operand, when the operand bytes of
/// the instruction start at `pc`: indexed modes add X or Y (within the zero
/// page for the zero-page forms, modulo 65536 for the absolute forms), and
/// indirect modes go through a little-endian pointer (kept in the zero page
/// for the indexed indirect forms).
pub proof fn law_operand_address(s: CpuState)
    ensures
        s.operand_addr(AddressingMode::Immediate) == Some(s.pc),
        s.operand_addr(AddressingMode::ZeroPage) == Some(s.mem[s.pc as int] as u16),
        s.operand_addr(AddressingMode::ZeroPage_X) == Some(((s.mem[s.pc as int] + s.x) % 256) as u16),
        s.operand_addr(AddressingMode::ZeroPage_Y) == Some(((s.mem[s.pc as int] + s.y) % 256) as u16),
        s.pc != 0xFFFF ==> s.operand_addr(AddressingMode::Absolute) == Some(word_at(s, s.pc as int) as u16),
        s.pc != 0xFFFF ==> s.operand_addr(AddressingMode::Absolute_X) == Some(((word_at(s, s.pc as int) + s.x) % 65536) as u16),
        s.pc != 0xFFFF ==> s.operand_addr(AddressingMode::Absolute_Y) == Some(((word_at(s, s.pc as int) + s.y) % 65536) as u16),
        s.pc == 0xFFFF ==> s.operand_addr(AddressingMode::Absolute) is None
            && s.operand_addr(AddressingMode::Absolute_X) is None
            && s.operand_addr(AddressingMode::Absolute_Y) is None
            && s.operand_addr(AddressingMode::Indirect) is None,
        ({
            let p = (s.mem[s.pc as int] + s.x) % 256;
            s.operand_addr(AddressingMode::Indirect_X) == Some((s.mem[p] + 256 * s.mem[(p + 1) % 256]) as u16)
        }),
        ({
            let p = s.mem[s.pc as int] as int;
            s.operand_addr(AddressingMode::Indirect_Y) == Some(((s.mem[p] + 256 * s.mem[(p + 1) % 256] + s.y) % 65536) as u16)
        }),
        s.pc != 0xFFFF && word_at(s, s.pc as int) != 0xFFFF ==> s.operand_addr(AddressingMode::Indirect) == Some(word_at(s, word_at(s, s.pc as int)) as u16),
        s.operand_addr(AddressingMode::NoneAddressing) is None,
{
}

/// The X-indexed modes do not look at Y and the Y-indexed modes do not look at X.
pub proof fn law_index_registers_apart(s: CpuState, other: u8)
    ensures
        (CpuState { y: other, ..s }).operand_addr(AddressingMode::ZeroPage_X) == s.operand_addr(AddressingMode::ZeroPage_X),
        (CpuState { y: other, ..s }).operand_addr(AddressingMode::Absolute_X) == s.operand_addr(AddressingMode::Absolute_X),
        (CpuState { y: other, ..s }).operand_addr(AddressingMode::Indirect_X) == s.operand_addr(AddressingMode::Indirect_X),
        (CpuState { x: other, ..s }).operand_addr(AddressingMode::ZeroPage_Y) == s.operand_addr(AddressingMode::ZeroPage_Y),
        (CpuState { x: other, ..s }).operand_addr(AddressingMode::Absolute_Y) == s.operand_addr(AddressingMode::Absolute_Y),
        (CpuState { x: other, ..s }).operand_addr(AddressingMode::Indirect_Y) == s.operand_addr(AddressingMode::Indirect_Y),
{
}

/// One more in X gives the next address in the X-indexed absolute and zero
/// page modes.
pub proof fn law_index_x_step(s: CpuState)
    requires
        s.pc != 0xFFFF,
        s.x < 255,
    ensures
        (CpuState { x: (s.x + 1) as u8, ..s }).operand_addr(AddressingMode::Absolute_X)->Some_0
            == (s.operand_addr(AddressingMode::Absolute_X)->Some_0 + 1) % 65536,
        (CpuState { x: (s.x + 1) as u8, ..s }).operand_addr(AddressingMode::ZeroPage_X)->Some_0
            == (s.operand_addr(AddressingMode::ZeroPage_X)->Some_0 + 1) % 256,
{
    let t = CpuState { x: (s.x + 1) as u8, ..s };
    let base = s.read_u16(s.pc)->Some_0;
    assert(t.read_u16(t.pc) == s.read_u16(s.pc));
    lemma_next_mod(base + s.x, 65536);
    lemma_next_mod(s.read(s.pc) + s.x, 256);
}

proof fn lemma_next_mod(n: int, k: int)
    requires
        0 <= n,
        k == 256 || k == 65536,
    ensures
        (n + 1) % k == (n % k + 1) % k,
{
}

/// One more in Y gives the next address in the Y-indexed absolute, zero page
/// and indirect modes.
pub proof fn law_index_y_step(s: CpuState)
    requires
        s.pc != 0xFFFF,
        s.y < 255,
    ensures
        (CpuState { y: (s.y + 1) as u8, ..s }).operand_addr(AddressingMode::Absolute_Y)->Some_0
            == (s.operand_addr(AddressingMode::Absolute_Y)->Some_0 + 1) % 65536,
        (CpuState { y: (s.y + 1) as u8, ..s }).operand_addr(AddressingMode::ZeroPage_Y)->Some_0
            == (s.operand_addr(AddressingMode::ZeroPage_Y)->Some_0 + 1) % 256,
        (CpuState { y: (s.y + 1) as u8, ..s }).operand_addr(AddressingMode::Indirect_Y)->Some_0
            == (s.operand_addr(AddressingMode::Indirect_Y)->Some_0 + 1) % 65536,
{
    let t = CpuState { y: (s.y + 1) as u8, ..s };
    let base = s.read_u16(s.pc)->Some_0;
    assert(t.read_u16(t.pc) == s.read_u16(s.pc));
    lemma_next_mod(base + s.y, 65536);
    lemma_next_mod(s.read(s.pc) + s.y, 256);
    let p = s.read(s.pc);
    let ptr = (s.read(add8(p, 1) as u16) * 256 + s.read(p as u16)) as u16;
    lemma_next_mod(ptr + s.y, 65536);
}

/// The addressing mode that the 6502 encodes in an opcode `aaabbbcc`: `bbb`
/// picks the mode within the column `cc`, with the exceptions of the
/// instructions that take no operand, of JSR (absolute) and of indirect JMP.
pub open spec fn encoded_mode(code: u8) -> AddressingMode {
    let aaa = code / 32;
    let bbb = (code / 4) % 8;
    let cc = code % 4;
    if cc == 1 {
        if bbb == 0 { AddressingMode::Indirect_X }
        else if bbb == 1 { AddressingMode::ZeroPage }
        else if bbb == 2 { AddressingMode::Immediate }
        else if bbb == 3 { AddressingMode::Absolute }
        else if bbb == 4 { AddressingMode::Indirect_Y }
        else if bbb == 5 { AddressingMode::ZeroPage_X }
        else if bbb == 6 { AddressingMode::Absolute_Y }
        else { AddressingMode::Absolute_X }
    } else if cc == 2 {
        if bbb == 0 { AddressingMode::Immediate }
        else if bbb == 1 { AddressingMode::ZeroPage }
        else if bbb == 3 { AddressingMode::Absolute }
        else if bbb == 5 { if aaa == 4 || aaa == 5 { AddressingMode::ZeroPage_Y } else { AddressingMode::ZeroPage_X } }
        else if bbb == 7 { if aaa == 5 { AddressingMode::Absolute_Y } else { AddressingMode::Absolute_X } }
        else { AddressingMode::NoneAddressing }
    } else if code == 0x20 {
        AddressingMode::Absolute
    } else if code == 0x6C {
        AddressingMode::Indirect
    } else {
        if bbb == 0 { if aaa >= 5 { AddressingMode::Immediate } else { AddressingMode::NoneAddressing } }
        else if bbb == 1 { AddressingMode::ZeroPage }
        else if bbb == 3 { AddressingMode::Absolute }
        else if bbb == 5 { AddressingMode::ZeroPage_X }
        else if bbb == 7 { AddressingMode::Absolute_X }
        else { AddressingMode::NoneAddressing }
    }
}

/// Instruction length: one byte of opcode, plus two for an absolute or
/// indirect address, one for any other operand or for a branch offset.
pub open spec fn encoded_length(code: u8, mode: AddressingMode) -> u8 {
    match mode {
        AddressingMode::NoneAddressing => if code % 32 == 16 { 2 } else { 1 },
        AddressingMode::Absolute | AddressingMode::Absolute_X | AddressingMode::Absolute_Y | AddressingMode::Indirect => 3,
        _ => 2,
    }
}

/// Every entry of the instruction table carries its own opcode, the
/// addressing mode the opcode encodes and the matching instruction length.
pub proof fn law_table_encoding(code: u8)
    requires
        op_entry(code) is Some,
    ensures
        op_entry(code)->Some_0.code == code,
        op_entry(code)->Some_0.addressing_mode == encoded_mode(code),
        op_entry(code)->Some_0.bytes == encoded_length(code, encoded_mode(code)),
{
    reveal(op_entry);
}

/// The mnemonic that the 6502 encodes in an opcode `aaabbbcc`: `aaa` picks
/// the operation within the column `cc`; the instructions without an operand
/// in columns 0 and 2 have their own rows.
pub open spec fn encoded_name(code: u8) -> &'static str {
    let aaa = code / 32;
    let bbb = (code / 4) % 8;
    let cc = code % 4;
    if cc == 1 {
        if aaa == 0 { "ORA" } else if aaa == 1 { "AND" } else if aaa == 2 { "EOR" } else if aaa == 3 { "ADC" }
        else if aaa == 4 { "STA" } else if aaa == 5 { "LDA" } else if aaa == 6 { "CMP" } else { "SBC" }
    } else if cc == 2 {
        if aaa >= 4 && (bbb == 2 || bbb == 6) {
            if code == 0x8A { "TXA" } else if code == 0xAA { "TAX" } else if code == 0xCA { "DEX" }
            else if code == 0xEA { "NOP" } else if code == 0x9A { "TXS" } else { "TSX" }
        }
        else if aaa == 0 { "ASL" } else if aaa == 1 { "ROL" } else if aaa == 2 { "LSR" } else if aaa == 3 { "ROR" }
        else if aaa == 4 { "STX" } else if aaa == 5 { "LDX" } else if aaa == 6 { "DEC" } else { "INC" }
    } else if bbb == 4 {
        if aaa == 0 { "BPL" } else if aaa == 1 { "BMI" } else if aaa == 2 { "BVC" } else if aaa == 3 { "BVS" }
        else if aaa == 4 { "BCC" } else if aaa == 5 { "BCS" } else if aaa == 6 { "BNE" } else { "BEQ" }
    } else if bbb == 6 {
        if aaa == 0 { "CLC" } else if aaa == 1 { "SEC" } else if aaa == 2 { "CLI" } else if aaa == 3 { "SEI" }
        else if aaa == 4 { "TYA" } else if aaa == 5 { "CLV" } else if aaa == 6 { "CLD" } else { "SED" }
    } else if bbb == 2 {
        if aaa == 0 { "PHP" } else if aaa == 1 { "PLP" } else if aaa == 2 { "PHA" } else if aaa == 3 { "PLA" }
        else if aaa == 4 { "DEY" } else if aaa == 5 { "TAY" } else if aaa == 6 { "INY" } else { "INX" }
    } else if bbb == 0 && aaa < 4 {
        if aaa == 0 { "BRK" } else if aaa == 1 { "JSR" } else if aaa == 2 { "RTI" } else { "RTS" }
    } else {
        if aaa == 1 { "BIT" } else if aaa == 2 || aaa == 3 { "JMP" } else if aaa == 4 { "STY" }
        else if aaa == 5 { "LDY" } else if aaa == 6 { "CPY" } else { "CPX" }
    }
}

/// Every entry of the instruction table is named by the mnemonic its opcode encodes.
pub proof fn law_table_names(code: u8)
    requires
        op_entry(code) is Some,
    ensures
        op_entry(code)->Some_0.name == encoded_name(code),
{
    reveal(op_entry);
}

} // verus!
