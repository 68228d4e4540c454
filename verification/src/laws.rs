use vstd::prelude::*;

use crate::addressing_modes::AddressingMode;
use crate::cpu::CpuFlags;
use crate::op_codes::op_entry;
use crate::semantics::{add16, add8, flag, set_flag, stack_addr, zn, CpuState, Step};

verus! {

/// A byte written to memory is read back from the same address, and every
/// other address keeps its byte.
pub proof fn lemma_read_after_write(s: CpuState, addr: u16, v: u8, other: u16)
    requires
        s.wf(),
    ensures
        s.write(addr, v).wf(),
        s.write(addr, v).read(addr) == v,
        other != addr ==> s.write(addr, v).read(other) == s.read(other),
{
}

/// A word written little-endian is read back as the same word.
pub proof fn lemma_read_u16_after_write_u16(s: CpuState, pos: u16, data: u16)
    requires
        s.wf(),
        pos != 0xFFFF,
    ensures
        s.write_u16(pos, data) is Some,
        s.write_u16(pos, data)->Some_0.read_u16(pos) == Some(data),
{
}

/// The stack lives on page one, whatever the stack pointer.
pub proof fn lemma_stack_on_page_one(sp: u8)
    ensures
        0x100 <= stack_addr(sp) <= 0x1FF,
{
}

/// The stack works top down: a push moves the stack pointer down, and a pop
/// right after it gives the pushed byte back and brings the stack pointer to
/// where it was.
pub proof fn lemma_pop_undoes_push(s: CpuState, v: u8)
    requires
        s.wf(),
    ensures
        s.push(v).sp == (if s.sp == 0 { 0xFFu8 } else { (s.sp - 1) as u8 }),
        s.push(v).pop_value() == v,
        s.push(v).popped() == s.write(stack_addr(s.sp), v),
{
}

/// A word pushed on the stack is popped back unchanged, and the stack
/// pointer returns to where it was.
pub proof fn lemma_pop_u16_undoes_push_u16(s: CpuState, v: u16)
    requires
        s.wf(),
    ensures
        s.push_u16(v).pop_u16_value() == v,
        s.push_u16(v).popped_u16().sp == s.sp,
{
}

/// RTS right after JSR returns to the instruction that follows the three-byte
/// JSR (wrapping at the end of memory), with the stack pointer back where it
/// was.  `s.pc` is the byte that follows the JSR opcode.
pub proof fn lemma_rts_returns_after_jsr(s: CpuState)
    requires
        s.wf(),
        s.jsr() is Some,
    ensures
        s.jsr()->Some_0.rts().pc == add16(s.pc, 2),
        s.jsr()->Some_0.rts().sp == s.sp,
{
    let pushed = s.push_u16(add16(s.pc, 1));
    lemma_pop_u16_undoes_push_u16(s, add16(s.pc, 1));
    let t = s.jsr()->Some_0;
    assert(t == pushed.with_pc(t.pc));
    assert(t.pop_u16_value() == pushed.pop_u16_value());
}

/// Executing a JSR and then the RTS found at its target brings execution to
/// the instruction after the JSR, with the stack pointer restored.
pub proof fn lemma_jsr_then_rts_steps(s: CpuState)
    requires
        s.wf(),
        s.pc < 0xFFFD,
        s.read(s.pc) == 0x20,
        s.read_u16((s.pc + 1) as u16)->Some_0 != s.pc + 1,
        s.read_u16((s.pc + 1) as u16)->Some_0 != 0xFFFF,
        s.read_u16((s.pc + 1) as u16)->Some_0 != stack_addr(s.sp),
        s.read_u16((s.pc + 1) as u16)->Some_0 != stack_addr(add8(s.sp, -1)),
        s.read(s.read_u16((s.pc + 1) as u16)->Some_0) == 0x60,
    ensures
        s.step() is Next,
        s.step()->Next_0.pc == s.read_u16((s.pc + 1) as u16)->Some_0,
        s.step()->Next_0.step() is Next,
        s.step()->Next_0.step()->Next_0.pc == s.pc + 3,
        s.step()->Next_0.step()->Next_0.sp == s.sp,
{
    reveal(op_entry);
    let s1 = s.with_pc((s.pc + 1) as u16);
    lemma_rts_returns_after_jsr(s1);
}

/// PHA then PLA gives the accumulator back and restores the stack pointer.
pub proof fn lemma_pla_after_pha(s: CpuState)
    requires
        s.wf(),
    ensures
        s.push(s.a).pla().a == s.a,
        s.push(s.a).pla().sp == s.sp,
        s.push(s.a).pla().status == zn(s.status, s.a),
{
}

/// PHP then PLP gives the status back and restores the stack pointer.
pub proof fn lemma_plp_after_php(s: CpuState)
    requires
        s.wf(),
    ensures
        s.push(s.status).plp().status == s.status,
        s.push(s.status).plp().sp == s.sp,
{
}

/// Bit 0 of the status survives an update of the zero and negative flags.
proof fn lemma_carry_bit(status: u8, v: u8, on: bool)
    by (bit_vector)
    ensures
        flag(set_flag(status, CpuFlags::CARRY_FLAG, on), CpuFlags::CARRY_FLAG) == on,
        on ==> zn(set_flag(status, CpuFlags::CARRY_FLAG, on), v) & CpuFlags::CARRY_FLAG == 1,
        !on ==> zn(set_flag(status, CpuFlags::CARRY_FLAG, on), v) & CpuFlags::CARRY_FLAG == 0,
{
}

/// ROL right after ROR on the accumulator gives the accumulator and the
/// carry back.
pub proof fn lemma_rol_undoes_ror(s: CpuState)
    ensures
        s.ror_accumulator().rol_accumulator().a == s.a,
        flag(s.ror_accumulator().rol_accumulator().status, CpuFlags::CARRY_FLAG) == flag(s.status, CpuFlags::CARRY_FLAG),
{
    let t = s.ror_accumulator();
    let u = t.rol_accumulator();
    lemma_carry_bit(s.status, t.a, s.a % 2 == 1);
    lemma_carry_bit(zn(t.status, u.a), 0, t.a >= 0x80);
}

/// DEC right after INC on the same byte gives the byte back.
pub proof fn lemma_dec_undoes_inc(s: CpuState, addr: u16)
    requires
        s.wf(),
    ensures
        s.inc(addr).dec(addr).mem == s.mem,
{
    assert(s.inc(addr).dec(addr).mem =~= s.mem);
}

/// EOR twice with the same operand gives the accumulator back.
pub proof fn lemma_eor_twice(s: CpuState, addr: u16)
    requires
        s.wf(),
    ensures
        s.eor(addr).eor(addr).a == s.a,
{
    let m = s.read(addr);
    let a = s.a;
    assert((a ^ m) ^ m == a) by (bit_vector);
}

/// After a result is produced, the zero flag says whether it is zero, the
/// negative flag is its bit 7, and all other status bits are unchanged.
pub proof fn lemma_zero_negative_flags(status: u8, v: u8)
    ensures
        flag(zn(status, v), CpuFlags::ZERO_FLAG) == (v == 0),
        flag(zn(status, v), CpuFlags::NEGATIVE) == (v >= 0x80),
        zn(status, v) & 0b0111_1101 == status & 0b0111_1101,
{
    assert(flag(zn(status, v), CpuFlags::ZERO_FLAG) == (v == 0)) by (bit_vector);
    assert(flag(zn(status, v), CpuFlags::NEGATIVE) == (v >= 0x80)) by (bit_vector);
    assert(zn(status, v) & 0b0111_1101 == status & 0b0111_1101) by (bit_vector);
}

/// Setting or clearing one flag leaves the other bits of the status alone.
pub proof fn lemma_set_flag(status: u8, on: bool)
    ensures
        flag(set_flag(status, CpuFlags::CARRY_FLAG, on), CpuFlags::CARRY_FLAG) == on,
        set_flag(status, CpuFlags::CARRY_FLAG, on) & 0b1111_1110 == status & 0b1111_1110,
{
    assert(flag(set_flag(status, CpuFlags::CARRY_FLAG, on), CpuFlags::CARRY_FLAG) == on) by (bit_vector);
    assert(set_flag(status, CpuFlags::CARRY_FLAG, on) & 0b1111_1110 == status & 0b1111_1110) by (bit_vector);
}

/// After a program is loaded and the processor reset, execution starts at
/// 0x8000, where the program lies; A, X and the status are cleared.
pub proof fn lemma_load_then_reset(s: CpuState, program: Seq<u8>)
    requires
        s.wf(),
        program.len() <= 0x8000,
    ensures
        s.load(program).reset().wf(),
        s.load(program).reset().pc == 0x8000,
        s.load(program).reset().a == 0,
        s.load(program).reset().x == 0,
        s.load(program).reset().status == 0,
        forall|i: int|
            0 <= i < program.len() && 0x8000 + i < 0xFFFC ==> #[trigger] s.load(program).reset().mem[0x8000 + i] == program[i],
{
}

/// Reset forgets the accumulator, X, the status and the program counter:
/// two states that agree on everything else are the same after a reset.
pub proof fn lemma_reset_forgets(s1: CpuState, s2: CpuState)
    requires
        s1.y == s2.y,
        s1.sp == s2.sp,
        s1.mem == s2.mem,
    ensures
        s1.reset() == s2.reset(),
{
}

/// `BRK` stops execution right after the opcode byte, with nothing else changed.
pub proof fn lemma_brk_halts(s: CpuState)
    requires
        s.wf(),
        s.pc != 0xFFFF,
        s.read(s.pc) == 0x00,
    ensures
        s.step() == Step::Halt(s.with_pc((s.pc + 1) as u16)),
        s.halts(),
        s.halted_state() == s.with_pc((s.pc + 1) as u16),
{
    reveal(op_entry);
    assert(s.run_for(1) is Halted);
    lemma_halted_state_of(s, 1);
}

/// A branch whose condition does not hold only skips its offset byte.
pub proof fn lemma_branch_not_taken(s: CpuState)
    requires
        s.wf(),
        s.pc < 0xFFFE,
        s.read(s.pc) == 0x90 && flag(s.status, CpuFlags::CARRY_FLAG)
            || s.read(s.pc) == 0xB0 && !flag(s.status, CpuFlags::CARRY_FLAG)
            || s.read(s.pc) == 0xF0 && !flag(s.status, CpuFlags::ZERO_FLAG)
            || s.read(s.pc) == 0xD0 && flag(s.status, CpuFlags::ZERO_FLAG)
            || s.read(s.pc) == 0x30 && !flag(s.status, CpuFlags::NEGATIVE)
            || s.read(s.pc) == 0x10 && flag(s.status, CpuFlags::NEGATIVE),
    ensures
        s.step() == Step::Next(s.with_pc((s.pc + 2) as u16)),
{
    reveal(op_entry);
}

/// No instruction changes the size of the address space.
#[verifier::rlimit(100)]
pub proof fn lemma_step_keeps_wf(s: CpuState)
    requires
        s.wf(),
    ensures
        s.step() matches Step::Next(t) ==> t.wf(),
        s.step() matches Step::Halt(t) ==> t.wf(),
{
}

/// Two runs from the same state that both halt end in the same state.
pub proof fn lemma_run_deterministic(s: CpuState, n: nat, m: nat)
    requires
        s.run_for(n) is Halted,
        s.run_for(m) is Halted,
    ensures
        s.run_for(n) == s.run_for(m),
    decreases n,
{
    if n > 0 && m > 0 {
        if let Step::Next(t) = s.step() {
            lemma_run_deterministic(t, (n - 1) as nat, (m - 1) as nat);
        }
    }
}

/// Any run that halts ends in the halted state.
pub proof fn lemma_halted_state_of(s: CpuState, n: nat)
    requires
        s.run_for(n) is Halted,
    ensures
        s.halts(),
        s.halted_state() == s.run_for(n)->Halted_0,
{
    let k = choose|k: nat| #[trigger] s.run_for(k) is Halted;
    lemma_run_deterministic(s, n, k);
}

/// Executing one instruction changes neither whether the run halts nor
/// where it halts.
pub proof fn lemma_step_keeps_outcome(s: CpuState, t: CpuState)
    requires
        s.step() == Step::Next(t),
    ensures
        s.halts() == t.halts(),
        s.halts() ==> s.halted_state() == t.halted_state(),
{
    if s.halts() {
        let n = choose|n: nat| #[trigger] s.run_for(n) is Halted;
        assert(n > 0);
        assert(t.run_for((n - 1) as nat) == s.run_for(n));
        lemma_halted_state_of(s, n);
        lemma_halted_state_of(t, (n - 1) as nat);
    }
    if t.halts() {
        let n = choose|n: nat| #[trigger] t.run_for(n) is Halted;
        assert(s.run_for(n + 1) == t.run_for(n));
        lemma_halted_state_of(s, n + 1);
    }
}

/// A run that halts passes through no fault on its way.
pub proof fn lemma_halting_run_never_faults(s: CpuState, n: nat, k: nat)
    requires
        s.run_for(n) is Halted,
        k <= n,
    ensures
        !(s.run_for(k) is Faulted),
    decreases k,
{
    if k > 0 {
        if let Step::Next(t) = s.step() {
            lemma_halting_run_never_faults(t, (n - 1) as nat, (k - 1) as nat);
        }
    }
}

/// The table gives every known instruction one, two or three bytes.
pub proof fn lemma_instruction_length(code: u8)
    requires
        op_entry(code) is Some,
    ensures
        1 <= op_entry(code)->Some_0.bytes <= 3,
        op_entry(code)->Some_0.code == code,
{
    reveal(op_entry);
}

/// A processor with zeroed memory, A, X and Y at 0xFF, executing at 0x0200:
/// from there no instruction runs an address out of range.
pub open spec fn probe_state() -> CpuState {
    CpuState {
        a: 0xFF,
        x: 0xFF,
        y: 0xFF,
        status: 0,
        pc: 0x0200,
        sp: 0xFD,
        mem: Seq::new(0x10000, |_i: int| 0u8),
    }
}

/// The instruction table and the instructions the processor executes agree:
/// every opcode of the table other than `BRK` is executed with the
/// addressing mode the table gives it, and no opcode outside the table is.
#[verifier::rlimit(100)]
pub proof fn lemma_table_matches_execution(code: u8)
    ensures
        (op_entry(code) is Some && code != 0x00) == (probe_state().execute(code, AddressingMode::Immediate) is Some),
        op_entry(code) is Some && code != 0x00
            ==> probe_state().execute(code, op_entry(code)->Some_0.addressing_mode) is Some,
{
    reveal(op_entry);
}

} // verus!
