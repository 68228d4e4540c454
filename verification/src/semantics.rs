use vstd::prelude::*;

use crate::addressing_modes::AddressingMode;
use crate::cpu::CpuFlags;
use crate::op_codes::op_entry;

verus! {

/// Whether the bits of `mask` are set in `status`.
pub open spec fn flag(status: u8, mask: u8) -> bool {
    status & mask != 0
}

/// `status` with the bits of `mask` set (`on`) or cleared (`!on`), the others kept.
pub open spec fn set_flag(status: u8, mask: u8, on: bool) -> u8 {
    if on { status | mask } else { status & !mask }
}

/// `status` after a result `v` was produced: the zero flag says whether `v`
/// is zero, the negative flag carries bit 7 of `v`, every other bit is kept.
pub open spec fn zn(status: u8, v: u8) -> u8 {
    set_flag(set_flag(status, CpuFlags::ZERO_FLAG, v == 0), CpuFlags::NEGATIVE, v >= 0x80)
}

/// Adds `d` to a byte, modulo 256.
pub open spec fn add8(v: u8, d: int) -> u8 {
    ((v + d) % 256) as u8
}

/// Adds `d` to a word, modulo 65536.
pub open spec fn add16(v: u16, d: int) -> u16 {
    ((v + d) % 65536) as u16
}

/// The byte `v` read as a two's complement number.
pub open spec fn signed8(v: u8) -> int {
    if v >= 0x80 { v - 256 } else { v as int }
}

/// Address of the stack slot that the stack pointer `sp` designates (page one).
pub open spec fn stack_addr(sp: u8) -> u16 {
    (0x100 + sp) as u16
}

/// The complete state of the processor: registers, status, program counter,
/// stack pointer and the 64 KiB address space.
pub struct CpuState {
    pub a: u8,
    pub x: u8,
    pub y: u8,
    pub status: u8,
    pub pc: u16,
    pub sp: u8,
    pub mem: Seq<u8>,
}

/// What one instruction does to the processor.
pub enum Step {
    /// The instruction completed and execution goes on from this state.
    Next(CpuState),
    /// `BRK` was met: execution stops in this state.
    Halt(CpuState),
    /// The instruction cannot be carried out from this state: its opcode is
    /// unknown, or an address would leave its range.
    Fault,
}

/// What running from a state for at most a number of instructions gives.
pub enum Run {
    Halted(CpuState),
    Faulted,
    Running(CpuState),
}

impl CpuState {
    pub open spec fn wf(self) -> bool {
        self.mem.len() == 0x10000
    }

    pub open spec fn read(self, addr: u16) -> u8 {
        self.mem[addr as int]
    }

    pub open spec fn write(self, addr: u16, v: u8) -> CpuState {
        CpuState { mem: self.mem.update(addr as int, v), ..self }
    }

    /// Little-endian word at `pos`; there is none at the last address.
    pub open spec fn read_u16(self, pos: u16) -> Option<u16> {
        if pos == 0xFFFF {
            None
        } else {
            Some((self.read((pos + 1) as u16) * 256 + self.read(pos)) as u16)
        }
    }

    /// Stores `data` little-endian at `pos`; not possible at the last address.
    pub open spec fn write_u16(self, pos: u16, data: u16) -> Option<CpuState> {
        if pos == 0xFFFF {
            None
        } else {
            Some(self.write(pos, (data % 256) as u8).write((pos + 1) as u16, (data / 256) as u8))
        }
    }

    pub open spec fn with_status(self, status: u8) -> CpuState {
        CpuState { status, ..self }
    }

    pub open spec fn with_pc(self, pc: u16) -> CpuState {
        CpuState { pc, ..self }
    }

    /// Loads the accumulator and updates the zero and negative flags.
    pub open spec fn with_a(self, v: u8) -> CpuState {
        CpuState { a: v, status: zn(self.status, v), ..self }
    }

    pub open spec fn with_x(self, v: u8) -> CpuState {
        CpuState { x: v, status: zn(self.status, v), ..self }
    }

    pub open spec fn with_y(self, v: u8) -> CpuState {
        CpuState { y: v, status: zn(self.status, v), ..self }
    }

    pub open spec fn with_carry(self, on: bool) -> CpuState {
        self.with_status(set_flag(self.status, CpuFlags::CARRY_FLAG, on))
    }

    /// Pushes a byte: it goes to the slot of the stack pointer, which then moves down.
    pub open spec fn push(self, v: u8) -> CpuState {
        CpuState { sp: add8(self.sp, -1), ..self.write(stack_addr(self.sp), v) }
    }

    /// The stack after a pop: the stack pointer moves up.
    pub open spec fn popped(self) -> CpuState {
        CpuState { sp: add8(self.sp, 1), ..self }
    }

    /// The byte that a pop gives back.
    pub open spec fn pop_value(self) -> u8 {
        self.read(stack_addr(add8(self.sp, 1)))
    }

    /// Pushes a word, high byte first.
    pub open spec fn push_u16(self, v: u16) -> CpuState {
        self.push((v / 256) as u8).push((v % 256) as u8)
    }

    /// The stack after popping a word: two pops.
    pub open spec fn popped_u16(self) -> CpuState {
        self.popped().popped()
    }

    /// The word that popping a word gives back: low byte first, then high byte.
    pub open spec fn pop_u16_value(self) -> u16 {
        (self.popped().pop_value() * 256 + self.pop_value()) as u16
    }

    /// Where the operand of an instruction whose operand bytes start at `pc`
    /// lies in memory.  There is none for `NoneAddressing`, nor when a word
    /// would be read from the last address.
    pub open spec fn operand_addr(self, mode: AddressingMode) -> Option<u16> {
        let pc = self.pc;
        match mode {
            AddressingMode::Immediate => Some(pc),
            AddressingMode::ZeroPage => Some(self.read(pc) as u16),
            AddressingMode::ZeroPage_X => Some(add8(self.read(pc), self.x as int) as u16),
            AddressingMode::ZeroPage_Y => Some(add8(self.read(pc), self.y as int) as u16),
            AddressingMode::Absolute => self.read_u16(pc),
            AddressingMode::Absolute_X => match self.read_u16(pc) {
                Some(base) => Some(add16(base, self.x as int)),
                None => None,
            },
            AddressingMode::Absolute_Y => match self.read_u16(pc) {
                Some(base) => Some(add16(base, self.y as int)),
                None => None,
            },
            AddressingMode::Indirect_X => {
                let ptr = add8(self.read(pc), self.x as int);
                let lo = self.read(ptr as u16);
                let hi = self.read(add8(ptr, 1) as u16);
                Some((hi * 256 + lo) as u16)
            },
            AddressingMode::Indirect_Y => {
                let base = self.read(pc);
                let lo = self.read(base as u16);
                let hi = self.read(add8(base, 1) as u16);
                Some(add16((hi * 256 + lo) as u16, self.y as int))
            },
            AddressingMode::Indirect => match self.read_u16(pc) {
                Some(ptr) => self.read_u16(ptr),
                None => None,
            },
            AddressingMode::NoneAddressing => None,
        }
    }

    // ---- instructions; `self.pc` points just past the opcode byte ----

    /// ADC: the accumulator takes the low byte of accumulator + operand +
    /// carry; the carry says whether the sum exceeds a byte, the overflow flag
    /// whether two operands of the same sign gave a result of the other sign.
    pub open spec fn adc(self, addr: u16) -> CpuState {
        let m = self.read(addr);
        let sum = self.a + m + (self.status & CpuFlags::CARRY_FLAG);
        let r = (sum % 256) as u8;
        let overflow = (self.a ^ r) & (m ^ r) & 0x80 != 0;
        self.with_status(set_flag(set_flag(self.status, CpuFlags::CARRY_FLAG, sum > 0xff), CpuFlags::OVERFLOW, overflow)).with_a(r)
    }

    pub open spec fn and(self, addr: u16) -> CpuState {
        self.with_a(self.a & self.read(addr))
    }

    /// ASL on memory: bit 7 goes to the carry, the byte is doubled.
    pub open spec fn asl(self, addr: u16) -> CpuState {
        let m = self.read(addr);
        let res = add8(m, m as int);
        CpuState { status: zn(set_flag(self.status, CpuFlags::CARRY_FLAG, m >= 0x80), res), ..self.write(addr, res) }
    }

    pub open spec fn asl_accumulator(self) -> CpuState {
        self.with_carry(self.a >= 0x80).with_a(add8(self.a, self.a as int))
    }

    /// Branch: when `cond` holds, the signed offset at `pc` is added to the
    /// address of the next instruction.
    pub open spec fn branch(self, cond: bool) -> CpuState {
        if cond {
            self.with_pc(add16(self.pc, 1 + signed8(self.read(self.pc))))
        } else {
            self
        }
    }

    /// BIT: the zero flag says whether accumulator & operand is zero; the
    /// negative and overflow flags are bits 7 and 6 of the operand.
    pub open spec fn bit(self, addr: u16) -> CpuState {
        let m = self.read(addr);
        let st = set_flag(self.status, CpuFlags::ZERO_FLAG, self.a & m == 0);
        self.with_status((st & 0b0011_1111) | (m & 0b1100_0000))
    }

    /// Compare `reg` with the operand: the carry says whether `reg` is at
    /// least the operand, the zero and negative flags come from the wrapped
    /// difference.
    pub open spec fn compare(self, addr: u16, reg: u8) -> CpuState {
        let m = self.read(addr);
        self.with_status(zn(set_flag(self.status, CpuFlags::CARRY_FLAG, reg >= m), add8(reg, -(m as int))))
    }

    pub open spec fn dec(self, addr: u16) -> CpuState {
        let res = add8(self.read(addr), -1);
        CpuState { status: zn(self.status, res), ..self.write(addr, res) }
    }

    pub open spec fn eor(self, addr: u16) -> CpuState {
        self.with_a(self.a ^ self.read(addr))
    }

    pub open spec fn inc(self, addr: u16) -> CpuState {
        let res = add8(self.read(addr), 1);
        CpuState { status: zn(self.status, res), ..self.write(addr, res) }
    }

    /// JSR: reads the absolute target that follows the opcode, pushes the
    /// address of the last byte of the instruction (the return point minus
    /// one), and jumps to the target.
    pub open spec fn jsr(self) -> Option<CpuState> {
        match self.read_u16(self.pc) {
            Some(target) => Some(self.push_u16(add16(self.pc, 1)).with_pc(target)),
            None => None,
        }
    }

    /// LSR on memory: bit 0 goes to the carry, the byte is halved, the zero
    /// and negative flags follow the result.
    pub open spec fn lsr(self, addr: u16) -> CpuState {
        let m = self.read(addr);
        let res = m / 2;
        CpuState { status: zn(set_flag(self.status, CpuFlags::CARRY_FLAG, m % 2 == 1), res), ..self.write(addr, res) }
    }

    pub open spec fn lsr_accumulator(self) -> CpuState {
        self.with_carry(self.a % 2 == 1).with_a(self.a / 2)
    }

    pub open spec fn ora(self, addr: u16) -> CpuState {
        self.with_a(self.a | self.read(addr))
    }

    pub open spec fn pla(self) -> CpuState {
        self.popped().with_a(self.pop_value())
    }

    pub open spec fn plp(self) -> CpuState {
        self.popped().with_status(self.pop_value())
    }

    /// ROL on memory: shifts left, the old carry enters bit 0, bit 7 becomes
    /// the carry; the zero and negative flags follow the result.
    pub open spec fn rol(self, addr: u16) -> CpuState {
        let m = self.read(addr);
        let res = add8(m, m + (self.status & CpuFlags::CARRY_FLAG));
        CpuState { status: zn(set_flag(self.status, CpuFlags::CARRY_FLAG, m >= 0x80), res), ..self.write(addr, res) }
    }

    pub open spec fn rol_accumulator(self) -> CpuState {
        let res = add8(self.a, self.a + (self.status & CpuFlags::CARRY_FLAG));
        self.with_a(res).with_carry(self.a >= 0x80)
    }

    /// ROR on memory: shifts right, the old carry enters bit 7, bit 0 becomes
    /// the carry; the zero and negative flags follow the result.
    pub open spec fn ror(self, addr: u16) -> CpuState {
        let m = self.read(addr);
        let res = (m / 2 + if flag(self.status, CpuFlags::CARRY_FLAG) { 0x80int } else { 0 }) as u8;
        CpuState { status: zn(set_flag(self.status, CpuFlags::CARRY_FLAG, m % 2 == 1), res), ..self.write(addr, res) }
    }

    pub open spec fn ror_accumulator(self) -> CpuState {
        let res = (self.a / 2 + if flag(self.status, CpuFlags::CARRY_FLAG) { 0x80int } else { 0 }) as u8;
        self.with_carry(self.a % 2 == 1).with_a(res)
    }

    /// RTI: pulls the status, then pulls a word into the program counter.
    pub open spec fn rti(self) -> CpuState {
        let s = self.plp();
        s.popped_u16().with_pc(s.pop_u16_value())
    }

    /// RTS: pulls the word JSR pushed and returns to the byte after it.
    pub open spec fn rts(self) -> CpuState {
        self.popped_u16().with_pc(add16(self.pop_u16_value(), 1))
    }

    /// SBC: `a - operand - (1 - carry)`; the carry says whether that is not
    /// negative, the accumulator takes its low byte, and the overflow flag
    /// says whether operands of different signs gave a result whose sign
    /// differs from the accumulator's.
    pub open spec fn sbc(self, addr: u16) -> CpuState {
        let m = self.read(addr);
        let diff = self.a - m - (1 - (self.status & CpuFlags::CARRY_FLAG));
        let r = (diff % 256) as u8;
        let overflow = (self.a ^ m) & (self.a ^ r) & 0x80 != 0;
        self.with_status(set_flag(set_flag(self.status, CpuFlags::CARRY_FLAG, diff >= 0), CpuFlags::OVERFLOW, overflow)).with_a(r)
    }

    /// Runs `f` on the operand address of `mode`, when there is one.
    pub open spec fn on_operand(self, mode: AddressingMode, f: spec_fn(u16) -> CpuState) -> Option<CpuState> {
        match self.operand_addr(mode) {
            Some(addr) => Some(f(addr)),
            None => None,
        }
    }

    /// What the instruction `code`, whose table entry gives `mode`, does.
    /// `BRK` is not executed here; `None` when the instruction cannot be
    /// carried out or the opcode is not one the emulator executes.
    pub open spec fn execute(self, code: u8, mode: AddressingMode) -> Option<CpuState> {
        let s = self;
        match code {
            0x69 | 0x65 | 0x75 | 0x6D | 0x7D | 0x79 | 0x61 | 0x71 => s.on_operand(mode, |addr: u16| s.adc(addr)),
            0x29 | 0x25 | 0x35 | 0x2D | 0x3D | 0x39 | 0x21 | 0x31 => s.on_operand(mode, |addr: u16| s.and(addr)),
            0x06 | 0x16 | 0x0e | 0x1e => s.on_operand(mode, |addr: u16| s.asl(addr)),
            0x0A => Some(s.asl_accumulator()),
            0x90 => Some(s.branch(!flag(s.status, CpuFlags::CARRY_FLAG))),
            0xB0 => Some(s.branch(flag(s.status, CpuFlags::CARRY_FLAG))),
            0xF0 => Some(s.branch(flag(s.status, CpuFlags::ZERO_FLAG))),
            0x24 | 0x2C => s.on_operand(mode, |addr: u16| s.bit(addr)),
            0x30 => Some(s.branch(flag(s.status, CpuFlags::NEGATIVE))),
            0xD0 => Some(s.branch(!flag(s.status, CpuFlags::ZERO_FLAG))),
            0x10 => Some(s.branch(!flag(s.status, CpuFlags::NEGATIVE))),
            0x50 => Some(s.branch(!flag(s.status, CpuFlags::OVERFLOW))),
            0x70 => Some(s.branch(flag(s.status, CpuFlags::OVERFLOW))),
            0x18 => Some(s.with_status(set_flag(s.status, CpuFlags::CARRY_FLAG, false))),
            0xD8 => Some(s.with_status(set_flag(s.status, CpuFlags::DECIMAL_MODE_UNUSED, false))),
            0x58 => Some(s.with_status(set_flag(s.status, CpuFlags::INTERRUPT_DISABLE, false))),
            0xB8 => Some(s.with_status(set_flag(s.status, CpuFlags::OVERFLOW, false))),
            0xC9 | 0xC5 | 0xD5 | 0xCD | 0xDD | 0xD9 | 0xC1 | 0xD1 => s.on_operand(mode, |addr: u16| s.compare(addr, s.a)),
            0xE0 | 0xE4 | 0xEC => s.on_operand(mode, |addr: u16| s.compare(addr, s.x)),
            0xC0 | 0xC4 | 0xCC => s.on_operand(mode, |addr: u16| s.compare(addr, s.y)),
            0xC6 | 0xD6 | 0xCE | 0xDE => s.on_operand(mode, |addr: u16| s.dec(addr)),
            0xCA => Some(s.with_x(add8(s.x, -1))),
            0x88 => Some(s.with_y(add8(s.y, -1))),
            0x49 | 0x45 | 0x55 | 0x4D | 0x5D | 0x59 | 0x41 | 0x51 => s.on_operand(mode, |addr: u16| s.eor(addr)),
            0xE6 | 0xF6 | 0xEE | 0xFE => s.on_operand(mode, |addr: u16| s.inc(addr)),
            0xE8 => Some(s.with_x(add8(s.x, 1))),
            0xC8 => Some(s.with_y(add8(s.y, 1))),
            0x4C | 0x6C => s.on_operand(mode, |addr: u16| s.with_pc(addr)),
            0x20 => s.jsr(),
            0xA9 | 0xA5 | 0xB5 | 0xAD | 0xBD | 0xB9 | 0xA1 | 0xB1 => s.on_operand(mode, |addr: u16| s.with_a(s.read(addr))),
            0xA2 | 0xA6 | 0xB6 | 0xAE | 0xBE => s.on_operand(mode, |addr: u16| s.with_x(s.read(addr))),
            0xA0 | 0xA4 | 0xB4 | 0xAC | 0xBC => s.on_operand(mode, |addr: u16| s.with_y(s.read(addr))),
            0x46 | 0x56 | 0x4E | 0x5E => s.on_operand(mode, |addr: u16| s.lsr(addr)),
            0x4A => Some(s.lsr_accumulator()),
            0x09 | 0x05 | 0x15 | 0x0D | 0x1D | 0x19 | 0x01 | 0x11 => s.on_operand(mode, |addr: u16| s.ora(addr)),
            0x48 => Some(s.push(s.a)),
            0x08 => Some(s.push(s.status)),
            0x68 => Some(s.pla()),
            0x28 => Some(s.plp()),
            0x2A => Some(s.rol_accumulator()),
            0x26 | 0x36 | 0x2E | 0x3E => s.on_operand(mode, |addr: u16| s.rol(addr)),
            0x6A => Some(s.ror_accumulator()),
            0x66 | 0x76 | 0x6E | 0x7E => s.on_operand(mode, |addr: u16| s.ror(addr)),
            0x40 => Some(s.rti()),
            0x60 => Some(s.rts()),
            0xE9 | 0xE5 | 0xF5 | 0xED | 0xFD | 0xF9 | 0xE1 | 0xF1 => s.on_operand(mode, |addr: u16| s.sbc(addr)),
            0x38 => Some(s.with_status(set_flag(s.status, CpuFlags::CARRY_FLAG, true))),
            0xF8 => Some(s.with_status(set_flag(s.status, CpuFlags::DECIMAL_MODE_UNUSED, true))),
            0x78 => Some(s.with_status(set_flag(s.status, CpuFlags::INTERRUPT_DISABLE, true))),
            0x85 | 0x95 | 0x8D | 0x9D | 0x99 | 0x81 | 0x91 => s.on_operand(mode, |addr: u16| s.write(addr, s.a)),
            0x86 | 0x96 | 0x8E => s.on_operand(mode, |addr: u16| s.write(addr, s.x)),
            0x84 | 0x94 | 0x8C => s.on_operand(mode, |addr: u16| s.write(addr, s.y)),
            0xAA => Some(s.with_x(s.a)),
            0xA8 => Some(s.with_y(s.a)),
            0xBA => Some(s.with_x(s.sp)),
            0x8A => Some(s.with_a(s.x)),
            0x9A => Some(CpuState { sp: s.x, ..s }),
            0x98 => Some(s.with_a(s.y)),
            0xEA => Some(s),
            _ => None,
        }
    }

    /// One fetch-decode-execute cycle.  The opcode at `pc` is looked up in the
    /// instruction table, `pc` moves past it, and `BRK` halts.  Any other
    /// instruction is executed; if it left `pc` where it was, `pc` then moves
    /// past the instruction's operand bytes.
    pub open spec fn step(self) -> Step {
        let code = self.read(self.pc);
        match op_entry(code) {
            None => Step::Fault,
            Some(op) => {
                let bytes = op.bytes;
                let mode = op.addressing_mode;
                if self.pc == 0xFFFF {
                    Step::Fault
                } else {
                    let s1 = self.with_pc((self.pc + 1) as u16);
                    if code == 0x00 {
                        Step::Halt(s1)
                    } else {
                        match s1.execute(code, mode) {
                            None => Step::Fault,
                            Some(s2) => {
                                if s2.pc != s1.pc {
                                    Step::Next(s2)
                                } else if s2.pc + bytes - 1 > 0xFFFF {
                                    Step::Fault
                                } else {
                                    Step::Next(s2.with_pc((s2.pc + bytes - 1) as u16))
                                }
                            },
                        }
                    }
                }
            },
        }
    }

    /// Runs at most `n` instructions.
    pub open spec fn run_for(self, n: nat) -> Run
        decreases n,
    {
        if n == 0 {
            Run::Running(self)
        } else {
            match self.step() {
                Step::Fault => Run::Faulted,
                Step::Halt(t) => Run::Halted(t),
                Step::Next(t) => t.run_for((n - 1) as nat),
            }
        }
    }

    /// Running from this state reaches a `BRK` without a fault.
    pub open spec fn halts(self) -> bool {
        exists|n: nat| #[trigger] self.run_for(n) is Halted
    }

    /// The state in which the run from here halts (meaningful when it halts).
    pub open spec fn halted_state(self) -> CpuState {
        let n = choose|n: nat| #[trigger] self.run_for(n) is Halted;
        self.run_for(n)->Halted_0
    }

    /// What `reset` does: A, X and the status are cleared and the program
    /// counter is loaded from the reset vector at 0xFFFC.
    pub open spec fn reset(self) -> CpuState {
        CpuState { a: 0, x: 0, status: 0, pc: self.read_u16(0xFFFC)->Some_0, ..self }
    }

    /// What `load` does: the program is copied to 0x8000 onwards and the reset
    /// vector is pointed at 0x8000.
    pub open spec fn load(self, program: Seq<u8>) -> CpuState {
        let mem = Seq::new(0x10000, |i: int|
            if 0x8000 <= i < 0x8000 + program.len() { program[i - 0x8000] } else { self.mem[i] });
        CpuState { mem: mem.update(0xFFFC, 0x00).update(0xFFFD, 0x80), ..self }
    }
}

} // verus!
