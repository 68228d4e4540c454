use vstd::prelude::*;

use crate::addressing_modes::AddressingMode;
use crate::cpu::CpuFlags;
use crate::semantics::{add8, set_flag, zn, CpuState};

verus! {

// What each instruction does, stated from the 6502 reference in terms of the
// registers, the operand and the status bits before and after: results as
// arithmetic on integers, flags as the bits of the status byte.

/// Bit `i` of `v`.
pub open spec fn bit_of(v: u8, i: u8) -> bool {
    (v >> i) & 1 == 1
}

/// `v` read as a two's complement number.
pub open spec fn signed(v: u8) -> int {
    if v < 128 { v as int } else { v - 256 }
}

/// The byte an instruction in `mode` operates on.
pub open spec fn operand(s: CpuState, mode: AddressingMode) -> u8 {
    s.read(s.operand_addr(mode)->Some_0)
}

/// The carry bit of a status byte, as a number.
pub open spec fn carry_in(s: CpuState) -> int {
    if s.status & 1 != 0 { 1 } else { 0 }
}

pub open spec fn is_adc(c: u8) -> bool {
    c == 0x69 || c == 0x65 || c == 0x75 || c == 0x6D || c == 0x7D || c == 0x79 || c == 0x61 || c == 0x71
}

pub open spec fn is_sbc(c: u8) -> bool {
    c == 0xE9 || c == 0xE5 || c == 0xF5 || c == 0xED || c == 0xFD || c == 0xF9 || c == 0xE1 || c == 0xF1
}

pub open spec fn is_and(c: u8) -> bool {
    c == 0x29 || c == 0x25 || c == 0x35 || c == 0x2D || c == 0x3D || c == 0x39 || c == 0x21 || c == 0x31
}

pub open spec fn is_ora(c: u8) -> bool {
    c == 0x09 || c == 0x05 || c == 0x15 || c == 0x0D || c == 0x1D || c == 0x19 || c == 0x01 || c == 0x11
}

pub open spec fn is_eor(c: u8) -> bool {
    c == 0x49 || c == 0x45 || c == 0x55 || c == 0x4D || c == 0x5D || c == 0x59 || c == 0x41 || c == 0x51
}


proof fn lemma_arith_status(st: u8, cy: bool, ov: bool, r: u8)
    by (bit_vector)
    ensures
        (zn(set_flag(set_flag(st, CpuFlags::CARRY_FLAG, cy), CpuFlags::OVERFLOW, ov), r) & 1 != 0) == cy,
        (zn(set_flag(set_flag(st, CpuFlags::CARRY_FLAG, cy), CpuFlags::OVERFLOW, ov), r) & 0x40 != 0) == ov,
        (zn(set_flag(set_flag(st, CpuFlags::CARRY_FLAG, cy), CpuFlags::OVERFLOW, ov), r) & 2 != 0) == (r == 0),
        (zn(set_flag(set_flag(st, CpuFlags::CARRY_FLAG, cy), CpuFlags::OVERFLOW, ov), r) & 0x80 != 0) == (r >= 0x80),
        zn(set_flag(set_flag(st, CpuFlags::CARRY_FLAG, cy), CpuFlags::OVERFLOW, ov), r) & 0x3C == st & 0x3C,
{
}

proof fn lemma_add_overflow_bits(a: u8, m: u8, r: u8)
    by (bit_vector)
    ensures
        ((a ^ r) & (m ^ r) & 0x80 != 0) == ((a >= 128) != (r >= 128) && (m >= 128) != (r >= 128)),
{
}

proof fn lemma_sub_overflow_bits(a: u8, m: u8, r: u8)
    by (bit_vector)
    ensures
        ((a ^ m) & (a ^ r) & 0x80 != 0) == ((a >= 128) != (m >= 128) && (a >= 128) != (r >= 128)),
{
}

proof fn lemma_carry_bit(st: u8)
    by (bit_vector)
    ensures
        st & 1 == 0 || st & 1 == 1,
        (st & 1 != 0) == (st & 1 == 1),
{
}

/// Signed overflow of an addition, told by the signs of the operands and of
/// the result.
proof fn lemma_add_overflow_signed(a: u8, m: u8, c: int, r: u8)
    requires
        c == 0 || c == 1,
        r == (a + m + c) % 256,
    ensures
        ((a >= 128) != (r >= 128) && (m >= 128) != (r >= 128)) == (signed(r) != signed(a) + signed(m) + c),
{
}

/// Signed overflow of a subtraction, told by the signs of the operands and of
/// the result.
proof fn lemma_sub_overflow_signed(a: u8, m: u8, b: int, r: u8)
    requires
        b == 0 || b == 1,
        r == (a - m - b) % 256,
    ensures
        ((a >= 128) != (m >= 128) && (a >= 128) != (r >= 128)) == (signed(r) != signed(a) - signed(m) - b),
{
}

// ---- laws ----

/// ADC: the accumulator becomes (A + M + C) mod 256; the carry says whether
/// A + M + C exceeds 255; the overflow flag says whether the signed result
/// differs from the signed sum; Z and N describe the new accumulator; bits 2-5
/// of the status and everything but A and the status are unchanged.
pub proof fn law_adc(s: CpuState, code: u8, mode: AddressingMode)
    requires
        is_adc(code),
        s.operand_addr(mode) is Some,
    ensures
        s.execute(code, mode) is Some,
        ({
            let t = s.execute(code, mode)->Some_0;
            let m = operand(s, mode);
            let sum = s.a + m + carry_in(s);
            &&& t.a == sum % 256
            &&& (t.status & 1 != 0) == (sum > 255)
            &&& (t.status & 0x40 != 0) == (signed(t.a) != signed(s.a) + signed(m) + carry_in(s))
            &&& (t.status & 2 != 0) == (t.a == 0)
            &&& (t.status & 0x80 != 0) == (t.a >= 0x80)
            &&& t.status & 0x3C == s.status & 0x3C
            &&& t == (CpuState { a: t.a, status: t.status, ..s })
        }),
{
    let addr = s.operand_addr(mode)->Some_0;
    let m = s.read(addr);
    lemma_carry_bit(s.status);
    let sum = s.a + m + (s.status & CpuFlags::CARRY_FLAG);
    let r = (sum % 256) as u8;
    let ov = (s.a ^ r) & (m ^ r) & 0x80 != 0;
    lemma_arith_status(s.status, sum > 0xff, ov, r);
    lemma_add_overflow_bits(s.a, m, r);
    lemma_add_overflow_signed(s.a, m, carry_in(s), r);
    let t = s.execute(code, mode)->Some_0;
    assert(t == s.adc(addr));
    assert(t.a == r);
}

/// SBC: with the borrow B = 1 - C, the accumulator becomes (A - M - B) mod
/// 256; the carry says whether A - M - B is not negative; the overflow flag
/// says whether the signed result differs from the signed difference; Z and N
/// describe the new accumulator; bits 2-5 and everything but A and the status
/// are unchanged.
pub proof fn law_sbc(s: CpuState, code: u8, mode: AddressingMode)
    requires
        is_sbc(code),
        s.operand_addr(mode) is Some,
    ensures
        s.execute(code, mode) is Some,
        ({
            let t = s.execute(code, mode)->Some_0;
            let m = operand(s, mode);
            let diff = s.a - m - (1 - carry_in(s));
            &&& t.a == diff % 256
            &&& (t.status & 1 != 0) == (diff >= 0)
            &&& (t.status & 0x40 != 0) == (signed(t.a) != signed(s.a) - signed(m) - (1 - carry_in(s)))
            &&& (t.status & 2 != 0) == (t.a == 0)
            &&& (t.status & 0x80 != 0) == (t.a >= 0x80)
            &&& t.status & 0x3C == s.status & 0x3C
            &&& t == (CpuState { a: t.a, status: t.status, ..s })
        }),
{
    let addr = s.operand_addr(mode)->Some_0;
    let m = s.read(addr);
    lemma_carry_bit(s.status);
    let diff = s.a - m - (1 - (s.status & CpuFlags::CARRY_FLAG));
    let r = (diff % 256) as u8;
    let ov = (s.a ^ m) & (s.a ^ r) & 0x80 != 0;
    lemma_arith_status(s.status, diff >= 0, ov, r);
    lemma_sub_overflow_bits(s.a, m, r);
    lemma_sub_overflow_signed(s.a, m, 1 - carry_in(s), r);
    let t = s.execute(code, mode)->Some_0;
    assert(t == s.sbc(addr));
    assert(t.a == r);
}

/// SBC with the carry set undoes ADC with the carry clear: subtracting the
/// operand that was added gives the accumulator back (shown for the immediate
/// forms, whose operand is the byte after the opcode).
#[verifier::rlimit(60)]
pub proof fn law_sbc_undoes_adc(s: CpuState)
    requires
        s.status & 1 == 0,
    ensures
        ({
            let t = s.execute(0x69, AddressingMode::Immediate)->Some_0;
            let u = CpuState { status: t.status | 1, ..t };
            u.execute(0xE9, AddressingMode::Immediate)->Some_0.a == s.a
        }),
{
    law_adc(s, 0x69, AddressingMode::Immediate);
    let t = s.execute(0x69, AddressingMode::Immediate)->Some_0;
    let u = CpuState { status: t.status | 1, ..t };
    let st = t.status;
    assert((st | 1) & 1 == 1) by (bit_vector);
    law_sbc(u, 0xE9, AddressingMode::Immediate);
    let m = operand(s, AddressingMode::Immediate);
    assert(operand(u, AddressingMode::Immediate) == m);
    assert(carry_in(s) == 0);
    assert(carry_in(u) == 1);
    lemma_sub_undoes_add(s.a, m, t.a, u.execute(0xE9, AddressingMode::Immediate)->Some_0.a);
}

proof fn lemma_sub_undoes_add(a: u8, m: u8, sum: u8, back: u8)
    requires
        sum == (a + m) % 256,
        back == (sum - m) % 256,
    ensures
        back == a,
{
}

/// AND, ORA, EOR: each bit of the new accumulator is the and, the or, the
/// exclusive or of that bit of A and of the operand; Z and N describe the new
/// accumulator; every other status bit and everything but A are unchanged.
pub proof fn law_logic(s: CpuState, code: u8, mode: AddressingMode)
    requires
        is_and(code) || is_ora(code) || is_eor(code),
        s.operand_addr(mode) is Some,
    ensures
        s.execute(code, mode) is Some,
        ({
            let t = s.execute(code, mode)->Some_0;
            let m = operand(s, mode);
            &&& forall|i: u8| i < 8 ==> #[trigger] bit_of(t.a, i) == (
                if is_and(code) { bit_of(s.a, i) && bit_of(m, i) }
                else if is_ora(code) { bit_of(s.a, i) || bit_of(m, i) }
                else { bit_of(s.a, i) != bit_of(m, i) })
            &&& (t.status & 2 != 0) == (t.a == 0)
            &&& (t.status & 0x80 != 0) == (t.a >= 0x80)
            &&& t.status & 0x7D == s.status & 0x7D
            &&& t == (CpuState { a: t.a, status: t.status, ..s })
        }),
{
    let addr = s.operand_addr(mode)->Some_0;
    let m = s.read(addr);
    let a = s.a;
    let t = s.execute(code, mode)->Some_0;
    crate::laws::lemma_zero_negative_flags(s.status, t.a);
    assert forall|i: u8| i < 8 implies #[trigger] bit_of(t.a, i) == (
        if is_and(code) { bit_of(a, i) && bit_of(m, i) }
        else if is_ora(code) { bit_of(a, i) || bit_of(m, i) }
        else { bit_of(a, i) != bit_of(m, i) }) by {
        assert((((a & m) >> i) & 1 == 1) == (((a >> i) & 1 == 1) && ((m >> i) & 1 == 1))) by (bit_vector);
        assert((((a | m) >> i) & 1 == 1) == (((a >> i) & 1 == 1) || ((m >> i) & 1 == 1))) by (bit_vector);
        assert((((a ^ m) >> i) & 1 == 1) == (((a >> i) & 1 == 1) != ((m >> i) & 1 == 1))) by (bit_vector);
    }
}

/// ORA and AND twice with the same operand are ORA and AND once; EOR twice
/// with the same operand gives the accumulator back.
pub proof fn law_logic_twice(s: CpuState, code: u8, mode: AddressingMode)
    requires
        is_and(code) || is_ora(code) || is_eor(code),
        s.operand_addr(mode) is Some,
    ensures
        ({
            let t = s.execute(code, mode)->Some_0;
            &&& t.operand_addr(mode) is Some
            &&& is_eor(code) ==> t.execute(code, mode)->Some_0.a == s.a
            &&& !is_eor(code) ==> t.execute(code, mode)->Some_0.a == t.a
        }),
{
    law_logic(s, code, mode);
    let t = s.execute(code, mode)->Some_0;
    assert(t.operand_addr(mode) == s.operand_addr(mode));
    law_logic(t, code, mode);
    let u = t.execute(code, mode)->Some_0;
    let m = operand(s, mode);
    if is_eor(code) {
        assert forall|i: u8| i < 8 implies #[trigger] bit_of(u.a, i) == bit_of(s.a, i) by {
            assert(bit_of(t.a, i) == (bit_of(s.a, i) != bit_of(m, i)));
        }
        lemma_bits_determine(u.a, s.a);
    } else {
        assert forall|i: u8| i < 8 implies #[trigger] bit_of(u.a, i) == bit_of(t.a, i) by {
            assert(bit_of(t.a, i) == (if is_and(code) { bit_of(s.a, i) && bit_of(m, i) } else { bit_of(s.a, i) || bit_of(m, i) }));
        }
        lemma_bits_determine(u.a, t.a);
    }
}

/// Two bytes with the same eight bits are equal.
proof fn lemma_bits_determine(x: u8, y: u8)
    requires
        forall|i: u8| i < 8 ==> #[trigger] bit_of(x, i) == bit_of(y, i),
    ensures
        x == y,
{
    assert(bit_of(x, 0) == bit_of(y, 0));
    assert(bit_of(x, 1) == bit_of(y, 1));
    assert(bit_of(x, 2) == bit_of(y, 2));
    assert(bit_of(x, 3) == bit_of(y, 3));
    assert(bit_of(x, 4) == bit_of(y, 4));
    assert(bit_of(x, 5) == bit_of(y, 5));
    assert(bit_of(x, 6) == bit_of(y, 6));
    assert(bit_of(x, 7) == bit_of(y, 7));
    assert(x == y) by (bit_vector)
        requires
            ((x >> 0u8) & 1 == 1) == ((y >> 0u8) & 1 == 1),
            ((x >> 1u8) & 1 == 1) == ((y >> 1u8) & 1 == 1),
            ((x >> 2u8) & 1 == 1) == ((y >> 2u8) & 1 == 1),
            ((x >> 3u8) & 1 == 1) == ((y >> 3u8) & 1 == 1),
            ((x >> 4u8) & 1 == 1) == ((y >> 4u8) & 1 == 1),
            ((x >> 5u8) & 1 == 1) == ((y >> 5u8) & 1 == 1),
            ((x >> 6u8) & 1 == 1) == ((y >> 6u8) & 1 == 1),
            ((x >> 7u8) & 1 == 1) == ((y >> 7u8) & 1 == 1),
    ;
}

/// A branch opcode moves the program counter (which points at its offset
/// byte) by one plus the signed offset, modulo 65536, exactly when its
/// `after` reports the result `v`: the zero flag says whether `v` is zero,
/// the negative flag is bit 7 of `v`, and the bits of `keep` are as `before`.
pub open spec fn reports(before: u8, after: u8, v: u8, keep: u8) -> bool {
    &&& (after & 2 != 0) == (v == 0)
    &&& (after & 0x80 != 0) == (v >= 0x80)
    &&& after & keep == before & keep
}

pub open spec fn is_lda(c: u8) -> bool {
    c == 0xA9 || c == 0xA5 || c == 0xB5 || c == 0xAD || c == 0xBD || c == 0xB9 || c == 0xA1 || c == 0xB1
}

pub open spec fn is_ldx(c: u8) -> bool {
    c == 0xA2 || c == 0xA6 || c == 0xB6 || c == 0xAE || c == 0xBE
}

pub open spec fn is_ldy(c: u8) -> bool {
    c == 0xA0 || c == 0xA4 || c == 0xB4 || c == 0xAC || c == 0xBC
}

pub open spec fn is_sta(c: u8) -> bool {
    c == 0x85 || c == 0x95 || c == 0x8D || c == 0x9D || c == 0x99 || c == 0x81 || c == 0x91
}

pub open spec fn is_stx(c: u8) -> bool {
    c == 0x86 || c == 0x96 || c == 0x8E
}

pub open spec fn is_sty(c: u8) -> bool {
    c == 0x84 || c == 0x94 || c == 0x8C
}

pub open spec fn is_inc(c: u8) -> bool {
    c == 0xE6 || c == 0xF6 || c == 0xEE || c == 0xFE
}

pub open spec fn is_dec(c: u8) -> bool {
    c == 0xC6 || c == 0xD6 || c == 0xCE || c == 0xDE
}

pub open spec fn is_compare_a(c: u8) -> bool {
    c == 0xC9 || c == 0xC5 || c == 0xD5 || c == 0xCD || c == 0xDD || c == 0xD9 || c == 0xC1 || c == 0xD1
}

pub open spec fn is_cpx(c: u8) -> bool {
    c == 0xE0 || c == 0xE4 || c == 0xEC
}

pub open spec fn is_cpy(c: u8) -> bool {
    c == 0xC0 || c == 0xC4 || c == 0xCC
}

pub open spec fn is_bit(c: u8) -> bool {
    c == 0x24 || c == 0x2C
}

pub proof fn lemma_reports_zn(st: u8, v: u8)
    ensures
        reports(st, zn(st, v), v, 0x7D),
{
    crate::laws::lemma_zero_negative_flags(st, v);
}

/// LDA, LDX, LDY: the register becomes the operand, Z and N describe it, and
/// nothing else changes but those status bits.
pub proof fn law_load(s: CpuState, code: u8, mode: AddressingMode)
    requires
        is_lda(code) || is_ldx(code) || is_ldy(code),
        s.operand_addr(mode) is Some,
    ensures
        s.execute(code, mode) is Some,
        ({
            let t = s.execute(code, mode)->Some_0;
            let m = operand(s, mode);
            &&& reports(s.status, t.status, m, 0x7D)
            &&& is_lda(code) ==> t == (CpuState { a: m, status: t.status, ..s })
            &&& is_ldx(code) ==> t == (CpuState { x: m, status: t.status, ..s })
            &&& is_ldy(code) ==> t == (CpuState { y: m, status: t.status, ..s })
        }),
{
    lemma_reports_zn(s.status, operand(s, mode));
}

/// STA, STX, STY: the register is written to the operand address; nothing
/// else changes.
pub proof fn law_store(s: CpuState, code: u8, mode: AddressingMode)
    requires
        is_sta(code) || is_stx(code) || is_sty(code),
        s.operand_addr(mode) is Some,
    ensures
        s.execute(code, mode) is Some,
        ({
            let t = s.execute(code, mode)->Some_0;
            let addr = s.operand_addr(mode)->Some_0 as int;
            let v = if is_sta(code) { s.a } else if is_stx(code) { s.x } else { s.y };
            t == (CpuState { mem: s.mem.update(addr, v), ..s })
        }),
{
}

/// INC and DEC on memory: the byte at the operand address goes one up or one
/// down, modulo 256; Z and N describe the new byte; nothing else changes.
pub proof fn law_inc_dec(s: CpuState, code: u8, mode: AddressingMode)
    requires
        is_inc(code) || is_dec(code),
        s.operand_addr(mode) is Some,
    ensures
        s.execute(code, mode) is Some,
        ({
            let t = s.execute(code, mode)->Some_0;
            let addr = s.operand_addr(mode)->Some_0 as int;
            let v = (if is_inc(code) { operand(s, mode) + 1 } else { operand(s, mode) + 255 }) % 256;
            &&& reports(s.status, t.status, v as u8, 0x7D)
            &&& t == (CpuState { mem: s.mem.update(addr, v as u8), status: t.status, ..s })
        }),
{
    let addr = s.operand_addr(mode)->Some_0;
    let v = (if is_inc(code) { operand(s, mode) + 1 } else { operand(s, mode) + 255 }) % 256;
    lemma_reports_zn(s.status, v as u8);
    if is_inc(code) {
        assert(s.execute(code, mode) == Some(s.inc(addr)));
        assert(add8(s.read(addr), 1) == v);
    } else {
        assert(s.execute(code, mode) == Some(s.dec(addr)));
        assert(add8(s.read(addr), -1) == v) by {
            if s.read(addr) == 0 {
                assert(add8(s.read(addr), -1) == 255);
            } else {
                assert(add8(s.read(addr), -1) == s.read(addr) - 1);
            }
        }
    }
}

/// INX: X goes one up, modulo 256; Z and N describe it; nothing else changes.
pub proof fn law_inx(s: CpuState, mode: AddressingMode)
    ensures
        ({
            let t = s.execute(0xE8, mode)->Some_0;
            t == (CpuState { x: ((s.x + 1) % 256) as u8, status: t.status, ..s }) && reports(s.status, t.status, t.x, 0x7D)
        }),
{
    lemma_reports_zn(s.status, add8(s.x, 1));
    assert(s.execute(0xE8, mode) == Some(s.with_x(add8(s.x, 1))));
}

/// INY: Y goes one up, modulo 256; Z and N describe it; nothing else changes.
pub proof fn law_iny(s: CpuState, mode: AddressingMode)
    ensures
        ({
            let t = s.execute(0xC8, mode)->Some_0;
            t == (CpuState { y: ((s.y + 1) % 256) as u8, status: t.status, ..s }) && reports(s.status, t.status, t.y, 0x7D)
        }),
{
    lemma_reports_zn(s.status, add8(s.y, 1));
    assert(s.execute(0xC8, mode) == Some(s.with_y(add8(s.y, 1))));
}

/// DEX: X goes one down, modulo 256; Z and N describe it; nothing else changes.
pub proof fn law_dex(s: CpuState, mode: AddressingMode)
    ensures
        ({
            let t = s.execute(0xCA, mode)->Some_0;
            t == (CpuState { x: ((s.x + 255) % 256) as u8, status: t.status, ..s }) && reports(s.status, t.status, t.x, 0x7D)
        }),
{
    let v = add8(s.x, -1);
    assert(v == (s.x + 255) % 256) by {
        if s.x == 0 {
            assert(v == 255);
        } else {
            assert(v == s.x - 1);
        }
    }
    lemma_reports_zn(s.status, v);
    assert(s.execute(0xCA, mode) == Some(s.with_x(v)));
}

/// DEY: Y goes one down, modulo 256; Z and N describe it; nothing else changes.
pub proof fn law_dey(s: CpuState, mode: AddressingMode)
    ensures
        ({
            let t = s.execute(0x88, mode)->Some_0;
            t == (CpuState { y: ((s.y + 255) % 256) as u8, status: t.status, ..s }) && reports(s.status, t.status, t.y, 0x7D)
        }),
{
    let v = add8(s.y, -1);
    assert(v == (s.y + 255) % 256) by {
        if s.y == 0 {
            assert(v == 255);
        } else {
            assert(v == s.y - 1);
        }
    }
    lemma_reports_zn(s.status, v);
    assert(s.execute(0x88, mode) == Some(s.with_y(v)));
}

proof fn lemma_carry_then_zn(st: u8, cy: bool, v: u8)
    by (bit_vector)
    ensures
        (zn(set_flag(st, CpuFlags::CARRY_FLAG, cy), v) & 1 != 0) == cy,
        (zn(set_flag(st, CpuFlags::CARRY_FLAG, cy), v) & 2 != 0) == (v == 0),
        (zn(set_flag(st, CpuFlags::CARRY_FLAG, cy), v) & 0x80 != 0) == (v >= 0x80),
        zn(set_flag(st, CpuFlags::CARRY_FLAG, cy), v) & 0x7C == st & 0x7C,
        (set_flag(zn(st, v), CpuFlags::CARRY_FLAG, cy) & 1 != 0) == cy,
        (set_flag(zn(st, v), CpuFlags::CARRY_FLAG, cy) & 2 != 0) == (v == 0),
        (set_flag(zn(st, v), CpuFlags::CARRY_FLAG, cy) & 0x80 != 0) == (v >= 0x80),
        set_flag(zn(st, v), CpuFlags::CARRY_FLAG, cy) & 0x7C == st & 0x7C,
{
}

/// The result and the carry out of a shift or rotation of `m` with carry in
/// `c`: ASL and ROL move bit 7 into the carry and shift left (ROL bringing
/// the old carry into bit 0); LSR and ROR move bit 0 into the carry and shift
/// right (ROR bringing the old carry into bit 7).
pub open spec fn shifted(kind: u8, m: u8, c: int) -> (int, bool) {
    if kind == 0 {
        ((2 * m) % 256, m >= 128)
    } else if kind == 1 {
        ((2 * m + c) % 256, m >= 128)
    } else if kind == 2 {
        ((m / 2) as int, m % 2 == 1)
    } else {
        (m / 2 + 128 * c, m % 2 == 1)
    }
}

/// Which shift an opcode performs (0 ASL, 1 ROL, 2 LSR, 3 ROR), and whether
/// on the accumulator.
pub open spec fn shift_kind(c: u8) -> Option<(u8, bool)> {
    if c == 0x0A { Some((0, true)) }
    else if c == 0x06 || c == 0x16 || c == 0x0E || c == 0x1E { Some((0, false)) }
    else if c == 0x2A { Some((1, true)) }
    else if c == 0x26 || c == 0x36 || c == 0x2E || c == 0x3E { Some((1, false)) }
    else if c == 0x4A { Some((2, true)) }
    else if c == 0x46 || c == 0x56 || c == 0x4E || c == 0x5E { Some((2, false)) }
    else if c == 0x6A { Some((3, true)) }
    else if c == 0x66 || c == 0x76 || c == 0x6E || c == 0x7E { Some((3, false)) }
    else { None }
}

/// ASL, ROL, LSR, ROR on the accumulator or on memory: the byte is replaced
/// by the shifted byte, the carry by the bit shifted out; Z and N describe
/// the new byte; nothing else changes.
#[verifier::rlimit(60)]
pub proof fn law_shift(s: CpuState, code: u8, mode: AddressingMode)
    requires
        shift_kind(code) is Some,
        !shift_kind(code)->Some_0.1 ==> s.operand_addr(mode) is Some,
    ensures
        s.execute(code, mode) is Some,
        ({
            let t = s.execute(code, mode)->Some_0;
            let (kind, acc) = shift_kind(code)->Some_0;
            let m = if acc { s.a } else { operand(s, mode) };
            let (r, cy) = shifted(kind, m, carry_in(s));
            &&& (t.status & 1 != 0) == cy
            &&& reports(s.status, t.status, r as u8, 0x7C)
            &&& acc ==> t == (CpuState { a: r as u8, status: t.status, ..s })
            &&& !acc ==> t == (CpuState { mem: s.mem.update(s.operand_addr(mode)->Some_0 as int, r as u8), status: t.status, ..s })
        }),
{
    lemma_carry_bit(s.status);
    let (kind, acc) = shift_kind(code)->Some_0;
    let m = if acc { s.a } else { operand(s, mode) };
    let (r, cy) = shifted(kind, m, carry_in(s));
    lemma_carry_then_zn(s.status, cy, r as u8);
}

/// CMP, CPX, CPY: the carry says whether the register is at least the
/// operand, the zero flag whether they are equal, the negative flag is bit 7
/// of their difference modulo 256; nothing else changes.
pub proof fn law_compare(s: CpuState, code: u8, mode: AddressingMode)
    requires
        is_compare_a(code) || is_cpx(code) || is_cpy(code),
        s.operand_addr(mode) is Some,
    ensures
        s.execute(code, mode) is Some,
        ({
            let t = s.execute(code, mode)->Some_0;
            let m = operand(s, mode);
            let reg = if is_compare_a(code) { s.a } else if is_cpx(code) { s.x } else { s.y };
            &&& (t.status & 1 != 0) == (reg >= m)
            &&& (t.status & 2 != 0) == (reg == m)
            &&& (t.status & 0x80 != 0) == ((reg - m + 256) % 256 >= 128)
            &&& t.status & 0x7C == s.status & 0x7C
            &&& t == (CpuState { status: t.status, ..s })
        }),
{
    let addr = s.operand_addr(mode)->Some_0;
    let reg = if is_compare_a(code) { s.a } else if is_cpx(code) { s.x } else { s.y };
    lemma_compare_result(s, addr, reg);
    assert(s.execute(code, mode) == Some(s.compare(addr, reg)));
}

proof fn lemma_compare_result(s: CpuState, addr: u16, reg: u8)
    ensures
        ({
            let t = s.compare(addr, reg);
            let m = s.read(addr);
            &&& (t.status & 1 != 0) == (reg >= m)
            &&& (t.status & 2 != 0) == (reg == m)
            &&& (t.status & 0x80 != 0) == ((reg - m + 256) % 256 >= 128)
            &&& t.status & 0x7C == s.status & 0x7C
            &&& t == (CpuState { status: t.status, ..s })
        }),
{
    let m = s.read(addr);
    let d = add8(reg, -(m as int));
    assert(d == (reg - m + 256) % 256);
    assert((d == 0) == (reg == m));
    lemma_carry_then_zn(s.status, reg >= m, d);
}

proof fn lemma_bit_status(st: u8, a: u8, m: u8)
    by (bit_vector)
    ensures
        ((set_flag(st, CpuFlags::ZERO_FLAG, a & m == 0) & 0x3F) | (m & 0xC0)) & 2 != 0 <==> a & m == 0,
        ((set_flag(st, CpuFlags::ZERO_FLAG, a & m == 0) & 0x3F) | (m & 0xC0)) & 0x80 != 0 <==> m & 0x80 != 0,
        ((set_flag(st, CpuFlags::ZERO_FLAG, a & m == 0) & 0x3F) | (m & 0xC0)) & 0x40 != 0 <==> m & 0x40 != 0,
        ((set_flag(st, CpuFlags::ZERO_FLAG, a & m == 0) & 0x3F) | (m & 0xC0)) & 0x3D == st & 0x3D,
{
}

/// BIT: the zero flag says whether the accumulator and the operand share no
/// set bit, the negative and overflow flags are bits 7 and 6 of the operand;
/// nothing else changes.
pub proof fn law_bit(s: CpuState, code: u8, mode: AddressingMode)
    requires
        is_bit(code),
        s.operand_addr(mode) is Some,
    ensures
        s.execute(code, mode) is Some,
        ({
            let t = s.execute(code, mode)->Some_0;
            let m = operand(s, mode);
            &&& (t.status & 2 != 0) == (s.a & m == 0)
            &&& (t.status & 0x80 != 0) == bit_of(m, 7)
            &&& (t.status & 0x40 != 0) == bit_of(m, 6)
            &&& t.status & 0x3D == s.status & 0x3D
            &&& t == (CpuState { status: t.status, ..s })
        }),
{
    let m = operand(s, mode);
    lemma_bit_status(s.status, s.a, m);
    assert((m & 0x80 != 0) == ((m >> 7u8) & 1 == 1)) by (bit_vector);
    assert((m & 0x40 != 0) == ((m >> 6u8) & 1 == 1)) by (bit_vector);
}

/// The status bit each flag instruction sets or clears: CLC, SEC, CLI, SEI,
/// CLD, SED, CLV.
pub open spec fn flag_change(c: u8) -> Option<(u8, bool)> {
    if c == 0x18 { Some((0x01, false)) }
    else if c == 0x38 { Some((0x01, true)) }
    else if c == 0x58 { Some((0x04, false)) }
    else if c == 0x78 { Some((0x04, true)) }
    else if c == 0xD8 { Some((0x08, false)) }
    else if c == 0xF8 { Some((0x08, true)) }
    else if c == 0xB8 { Some((0x40, false)) }
    else { None }
}

proof fn lemma_single_bit(st: u8, mask: u8, on: bool)
    by (bit_vector)
    requires
        mask == 1 || mask == 4 || mask == 8 || mask == 0x40,
    ensures
        (set_flag(st, mask, on) & mask != 0) == on,
        set_flag(st, mask, on) & !mask == st & !mask,
{
}

/// A flag instruction sets or clears its one status bit and changes nothing else.
pub proof fn law_flag_instruction(s: CpuState, code: u8, mode: AddressingMode)
    requires
        flag_change(code) is Some,
    ensures
        s.execute(code, mode) is Some,
        ({
            let t = s.execute(code, mode)->Some_0;
            let (mask, on) = flag_change(code)->Some_0;
            &&& (t.status & mask != 0) == on
            &&& t.status & !mask == s.status & !mask
            &&& t == (CpuState { status: t.status, ..s })
        }),
{
    let (mask, on) = flag_change(code)->Some_0;
    lemma_single_bit(s.status, mask, on);
}

/// TAX, TAY, TXA, TYA, TSX copy one register into another and report it in Z
/// and N; TXS copies X into the stack pointer and leaves the status alone.
pub proof fn law_transfer(s: CpuState, code: u8, mode: AddressingMode)
    requires
        code == 0xAA || code == 0xA8 || code == 0x8A || code == 0x98 || code == 0xBA || code == 0x9A,
    ensures
        s.execute(code, mode) is Some,
        ({
            let t = s.execute(code, mode)->Some_0;
            &&& code == 0xAA ==> t == (CpuState { x: s.a, status: t.status, ..s }) && reports(s.status, t.status, s.a, 0x7D)
            &&& code == 0xA8 ==> t == (CpuState { y: s.a, status: t.status, ..s }) && reports(s.status, t.status, s.a, 0x7D)
            &&& code == 0x8A ==> t == (CpuState { a: s.x, status: t.status, ..s }) && reports(s.status, t.status, s.x, 0x7D)
            &&& code == 0x98 ==> t == (CpuState { a: s.y, status: t.status, ..s }) && reports(s.status, t.status, s.y, 0x7D)
            &&& code == 0xBA ==> t == (CpuState { x: s.sp, status: t.status, ..s }) && reports(s.status, t.status, s.sp, 0x7D)
            &&& code == 0x9A ==> t == (CpuState { sp: s.x, ..s })
        }),
{
    lemma_reports_zn(s.status, s.a);
    lemma_reports_zn(s.status, s.x);
    lemma_reports_zn(s.status, s.y);
    lemma_reports_zn(s.status, s.sp);
}

} // verus!
