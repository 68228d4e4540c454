use vstd::prelude::*;

use crate::addressing_modes::AddressingMode;
use crate::arithmetic_laws::{lemma_reports_zn, reports, signed};
use crate::addressing_laws::{encoded_length, encoded_mode, law_table_encoding, word_at};
use crate::cpu::CpuFlags;
use crate::op_codes::op_entry;
use crate::semantics::{add16, add8, stack_addr, CpuState};

verus! {

// How instructions move the program counter and the stack.

/// The condition under which each branch opcode branches.
pub open spec fn branch_taken(code: u8, status: u8) -> Option<bool> {
    if code == 0x10 {
        Some(status & 0x80 == 0)  // BPL
    } else if code == 0x30 {
        Some(status & 0x80 != 0)  // BMI
    } else if code == 0x50 {
        Some(status & 0x40 == 0)  // BVC
    } else if code == 0x70 {
        Some(status & 0x40 != 0)  // BVS
    } else if code == 0x90 {
        Some(status & 0x01 == 0)  // BCC
    } else if code == 0xB0 {
        Some(status & 0x01 != 0)  // BCS
    } else if code == 0xD0 {
        Some(status & 0x02 == 0)  // BNE
    } else if code == 0xF0 {
        Some(status & 0x02 != 0)  // BEQ
    } else {
        None
    }
}

// ---- bit-level facts about the status updates ----
/// condition holds; otherwise nothing changes.
pub proof fn law_branch(s: CpuState, code: u8, mode: AddressingMode)
    requires
        branch_taken(code, s.status) is Some,
    ensures
        s.execute(code, mode) == Some(
            if branch_taken(code, s.status)->Some_0 {
                CpuState { pc: ((s.pc + 1 + signed(s.read(s.pc))) % 65536) as u16, ..s }
            } else {
                s
            },
        ),
{
    assert(s.status & 0x80 != 0 <==> s.status & CpuFlags::NEGATIVE != 0);
}

/// The address of stack slot `sp` on page one.
pub open spec fn slot(sp: int) -> int {
    0x100 + sp % 256
}

/// PHA and PHP store A or the status in the slot of the stack pointer, which
/// then moves down one (modulo 256).
pub proof fn law_push(s: CpuState, mode: AddressingMode)
    ensures
        s.execute(0x48, mode) == Some(CpuState { mem: s.mem.update(slot(s.sp as int), s.a), sp: ((s.sp + 255) % 256) as u8, ..s }),
        s.execute(0x08, mode) == Some(CpuState { mem: s.mem.update(slot(s.sp as int), s.status), sp: ((s.sp + 255) % 256) as u8, ..s }),
{
    lemma_push_result(s, s.a);
    lemma_push_result(s, s.status);
    assert(s.execute(0x48, mode) == Some(s.push(s.a)));
    assert(s.execute(0x08, mode) == Some(s.push(s.status)));
}

proof fn lemma_push_result(s: CpuState, v: u8)
    ensures
        s.push(v) == (CpuState { mem: s.mem.update(slot(s.sp as int), v), sp: ((s.sp + 255) % 256) as u8, ..s }),
{
    assert(stack_addr(s.sp) as int == slot(s.sp as int));
    assert(add8(s.sp, -1) == (s.sp + 255) % 256) by {
        if s.sp == 0 {
            assert(add8(s.sp, -1) == 255);
        } else {
            assert(add8(s.sp, -1) == s.sp - 1);
        }
    }
}

/// PLA moves the stack pointer up one and loads A from that slot, reporting
/// it in Z and N; nothing else changes.
pub proof fn law_pla(s: CpuState, mode: AddressingMode)
    ensures
        ({
            let t = s.execute(0x68, mode)->Some_0;
            let up = s.mem[slot(s.sp + 1)];
            t == (CpuState { a: up, status: t.status, sp: ((s.sp + 1) % 256) as u8, ..s }) && reports(s.status, t.status, up, 0x7D)
        }),
{
    assert(stack_addr(add8(s.sp, 1)) as int == slot(s.sp + 1));
    assert(add8(s.sp, 1) == (s.sp + 1) % 256);
    lemma_reports_zn(s.status, s.mem[slot(s.sp + 1)]);
    assert(s.execute(0x68, mode) == Some(s.pla()));
}

/// PLP moves the stack pointer up one and loads the status from that slot.
pub proof fn law_plp(s: CpuState, mode: AddressingMode)
    ensures
        s.execute(0x28, mode) == Some(CpuState { status: s.mem[slot(s.sp + 1)], sp: ((s.sp + 1) % 256) as u8, ..s }),
{
    assert(stack_addr(add8(s.sp, 1)) as int == slot(s.sp + 1));
    assert(add8(s.sp, 1) == (s.sp + 1) % 256);
    assert(s.execute(0x28, mode) == Some(s.plp()));
}

/// JMP: the program counter becomes the operand address (the absolute
/// address, or for the indirect form the word it points to); nothing else
/// changes.  NOP changes nothing.
pub proof fn law_jmp_nop(s: CpuState, code: u8, mode: AddressingMode)
    requires
        code == 0x4C || code == 0x6C || code == 0xEA,
        code != 0xEA ==> s.operand_addr(mode) is Some,
    ensures
        code != 0xEA ==> s.execute(code, mode) == Some(CpuState { pc: s.operand_addr(mode)->Some_0, ..s }),
        code == 0xEA ==> s.execute(code, mode) == Some(s),
{
}

/// JSR (with `pc` at the byte after its opcode): the program counter becomes
/// the word that follows the opcode; the address of the last byte of the
/// instruction is pushed, high byte first, and the stack pointer moves down two.
#[verifier::rlimit(100)]
pub proof fn law_jsr(s: CpuState, mode: AddressingMode)
    requires
        s.wf(),
        s.pc != 0xFFFF,
    ensures
        s.execute(0x20, mode) is Some,
        ({
            let t = s.execute(0x20, mode)->Some_0;
            let ret = (s.pc + 1) % 65536;
            &&& t.pc == word_at(s, s.pc as int)
            &&& t.mem == s.mem.update(slot(s.sp as int), (ret / 256) as u8).update(slot(s.sp + 255), (ret % 256) as u8)
            &&& t.sp == (s.sp + 254) % 256
            &&& t == (CpuState { pc: t.pc, mem: t.mem, sp: t.sp, ..s })
        }),
{
    lemma_jsr_result(s);
    assert(s.execute(0x20, mode) == s.jsr());
}

proof fn lemma_jsr_result(s: CpuState)
    requires
        s.wf(),
        s.pc != 0xFFFF,
    ensures
        s.jsr() is Some,
        ({
            let t = s.jsr()->Some_0;
            let ret = (s.pc + 1) % 65536;
            &&& t.pc == word_at(s, s.pc as int)
            &&& t.mem == s.mem.update(slot(s.sp as int), (ret / 256) as u8).update(slot(s.sp + 255), (ret % 256) as u8)
            &&& t.sp == (s.sp + 254) % 256
            &&& t == (CpuState { pc: t.pc, mem: t.mem, sp: t.sp, ..s })
        }),
{
    let v = add16(s.pc, 1);
    assert(v == (s.pc + 1) % 65536);
    let s1 = s.push((v / 256) as u8);
    lemma_push_result(s, (v / 256) as u8);
    lemma_push_result(s1, (v % 256) as u8);
    assert(s1.sp == (s.sp + 255) % 256);
    assert(slot(s1.sp as int) == slot(s.sp + 255));
    assert(s1.push((v % 256) as u8).sp == (s.sp + 254) % 256);
}

/// RTS: the program counter becomes one past the word in the two slots above
/// the stack pointer (low byte first), and the stack pointer moves up two.
pub proof fn law_rts(s: CpuState, mode: AddressingMode)
    requires
        s.wf(),
    ensures
        s.execute(0x60, mode) == Some(CpuState {
            pc: ((s.mem[slot(s.sp + 1)] + 256 * s.mem[slot(s.sp + 2)] + 1) % 65536) as u16,
            sp: ((s.sp + 2) % 256) as u8,
            ..s
        }),
{
    lemma_rts_result(s);
    assert(s.execute(0x60, mode) == Some(s.rts()));
}

proof fn lemma_rts_result(s: CpuState)
    requires
        s.wf(),
    ensures
        s.rts() == (CpuState {
            pc: ((s.mem[slot(s.sp + 1)] + 256 * s.mem[slot(s.sp + 2)] + 1) % 65536) as u16,
            sp: ((s.sp + 2) % 256) as u8,
            ..s
        }),
{
    let b1 = s.mem[slot(s.sp + 1)];
    let b2 = s.mem[slot(s.sp + 2)];
    assert(stack_addr(add8(s.sp, 1)) as int == slot(s.sp + 1));
    assert(stack_addr(add8(add8(s.sp, 1), 1)) as int == slot(s.sp + 2));
    assert(add8(add8(s.sp, 1), 1) == (s.sp + 2) % 256);
    assert(s.pop_value() == b1);
    assert(s.popped().pop_value() == b2);
    assert(s.pop_u16_value() == b2 * 256 + b1);
    assert(s.rts().pc == ((b1 + 256 * b2 + 1) % 65536) as u16);
    assert(s.rts() == (CpuState { pc: ((b1 + 256 * b2 + 1) % 65536) as u16, sp: ((s.sp + 2) % 256) as u8, ..s }));
}

/// RTI: the status comes from the slot above the stack pointer, the program
/// counter from the word in the next two (low byte first), and the stack
/// pointer moves up three.
pub proof fn law_rti(s: CpuState, mode: AddressingMode)
    requires
        s.wf(),
    ensures
        s.execute(0x40, mode) == Some(CpuState {
            status: s.mem[slot(s.sp + 1)],
            pc: (s.mem[slot(s.sp + 2)] + 256 * s.mem[slot(s.sp + 3)]) as u16,
            sp: ((s.sp + 3) % 256) as u8,
            ..s
        }),
{
    lemma_rti_result(s);
    assert(s.execute(0x40, mode) == Some(s.rti()));
}

proof fn lemma_rti_result(s: CpuState)
    requires
        s.wf(),
    ensures
        s.rti() == (CpuState {
            status: s.mem[slot(s.sp + 1)],
            pc: (s.mem[slot(s.sp + 2)] + 256 * s.mem[slot(s.sp + 3)]) as u16,
            sp: ((s.sp + 3) % 256) as u8,
            ..s
        }),
{
    let b2 = s.mem[slot(s.sp + 2)];
    let b3 = s.mem[slot(s.sp + 3)];
    assert(stack_addr(add8(s.sp, 1)) as int == slot(s.sp + 1));
    assert(stack_addr(add8(add8(s.sp, 1), 1)) as int == slot(s.sp + 2));
    assert(stack_addr(add8(add8(add8(s.sp, 1), 1), 1)) as int == slot(s.sp + 3));
    assert(add8(add8(add8(s.sp, 1), 1), 1) == (s.sp + 3) % 256);
    let r = s.plp();
    assert(r.pop_value() == b2);
    assert(r.popped().pop_value() == b3);
    assert(r.pop_u16_value() == b3 * 256 + b2);
    assert(s.rti() == (CpuState { status: s.mem[slot(s.sp + 1)], pc: (b2 + 256 * b3) as u16, sp: ((s.sp + 3) % 256) as u8, ..s }));
}

/// Reset clears A, X and the status and loads the program counter from the
/// little-endian word at 0xFFFC; Y, the stack pointer and memory are kept.
pub proof fn law_reset(s: CpuState)
    requires
        s.wf(),
    ensures
        s.reset() == (CpuState { a: 0, x: 0, status: 0, pc: word_at(s, 0xFFFC) as u16, ..s }),
{
}

/// Whether an opcode can move the program counter itself: branches, jumps,
/// subroutine call and return, return from interrupt, and `BRK`.
pub open spec fn controls_flow(code: u8) -> bool {
    branch_taken(code, 0) is Some || code == 0x4C || code == 0x6C || code == 0x20 || code == 0x60 || code == 0x40 || code == 0x00
}

/// Any other instruction of the table is executed with the addressing mode its
/// opcode encodes, its operand bytes starting right after the opcode, and then
/// leaves the program counter just past its own bytes.
#[verifier::rlimit(100)]
pub proof fn law_step_advances(s: CpuState)
    requires
        s.wf(),
        s.pc <= 0xFFFC,
        op_entry(s.read(s.pc)) is Some,
        !controls_flow(s.read(s.pc)),
        !(s.step() is Fault),
    ensures
        s.step() is Next,
        s.step()->Next_0.pc == s.pc + op_entry(s.read(s.pc))->Some_0.bytes,
        ({
            let code = s.read(s.pc);
            let r = s.with_pc((s.pc + 1) as u16).execute(code, encoded_mode(code));
            &&& r is Some
            &&& s.step()->Next_0 == (CpuState { pc: (s.pc + encoded_length(code, encoded_mode(code))) as u16, ..r->Some_0 })
        }),
{
    reveal(op_entry);
    law_table_encoding(s.read(s.pc));
}

} // verus!
