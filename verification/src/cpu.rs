use vstd::prelude::*;

use crate::addressing_modes::AddressingMode;
use crate::bit_facts::{
    lemma_byte_bits, lemma_carry_update, lemma_masks, lemma_rotate,
    lemma_rotate_right, lemma_shift_left, lemma_sign_extend, lemma_word_bytes,
    lemma_word_from_bytes, lemma_zn_idempotent,
};
use crate::op_codes::lookup;
use crate::semantics::{add16, add8, flag, set_flag, signed8, zn, CpuState, Step};

verus! {

/// Bits of the status register (https://www.nesdev.org/wiki/Status_flags):
///
///  7 N --- Negative Flag
///  6 V --- Overflow Flag
///  5 _ --- Nothing
///  4 B --- Break command
///  3 D --- Decimal mode (Not used on NES)
///  2 I --- Interrupt Disable
///  1 Z --- Zero Flag
///  0 C --- Carry Flag
pub struct CpuFlags;

impl CpuFlags {
    pub const NEGATIVE: u8 = 0b1000_0000;
    pub const OVERFLOW: u8 = 0b0100_0000;
    pub const DECIMAL_MODE_UNUSED: u8 = 0b0000_1000;
    pub const INTERRUPT_DISABLE: u8 = 0b0000_0100;
    pub const ZERO_FLAG: u8 = 0b0000_0010;
    pub const CARRY_FLAG: u8 = 0b0000_0001;
}

/// The 6502 processor with its 64 KiB address space.
pub struct CPU {
    /// The accumulator.
    pub register_a: u8,
    pub register_x: u8,
    pub register_y: u8,
    pub status: u8,
    pub program_counter: u16,
    /// The 64 KiB address space.
    pub memory: [u8; 0x10000],
    /// The stack always lives on page one (0x100..=0x1FF) and grows downwards.
    pub stack_pointer: u8,
}

const STACK_START: u16 = 0x100;

/// Where the stack pointer starts; it is an offset into page one.
const STACK_END: u8 = 0xFD;

/// How one executed instruction ended.
#[derive(Clone, Copy, Debug, PartialEq, Eq, Structural)]
pub enum StepResult {
    /// Execution goes on with the next instruction.
    Continue,
    /// `BRK` was met.
    Break,
}

impl View for CPU {
    type V = CpuState;

    open spec fn view(&self) -> CpuState {
        CpuState {
            a: self.register_a,
            x: self.register_x,
            y: self.register_y,
            status: self.status,
            pc: self.program_counter,
            sp: self.stack_pointer,
            mem: self.memory@,
        }
    }
}

/// The state of a freshly built processor.
pub open spec fn power_on_state() -> CpuState {
    CpuState {
        a: 0,
        x: 0,
        y: 0,
        status: 0,
        pc: 0,
        sp: 0xFD,
        mem: Seq::new(0x10000, |_i: int| 0u8),
    }
}

impl CPU {
    /// The address space of a processor always has 64 KiB.
    pub proof fn lemma_view_wf(&self)
        ensures
            self@.wf(),
    {
    }

    pub fn new() -> (cpu: Self)
        ensures
            cpu@ == power_on_state(),
    {
        let cpu = CPU {
            register_a: 0,
            register_x: 0,
            register_y: 0,
            status: 0,
            program_counter: 0,
            memory: [0u8; 0x10000],
            stack_pointer: STACK_END,
        };
        proof {
            assert(cpu@.mem =~= power_on_state().mem);
        }
        cpu
    }

    /// Where the operand of an instruction in `mode` lies, when its operand
    /// bytes start at `pc`.
    #[verifier::rlimit(40)]
    fn operand_address_at(&self, mode: &AddressingMode, pc: u16) -> (r: u16)
        requires
            self@.with_pc(pc).operand_addr(*mode) is Some,
        ensures
            Some(r) == self@.with_pc(pc).operand_addr(*mode),
    {
        match mode {
            AddressingMode::Immediate => pc,
            AddressingMode::ZeroPage => self.mem_read(pc) as u16,
            AddressingMode::Absolute => self.mem_read_u16(pc),
            AddressingMode::ZeroPage_X => {
                let pos = self.mem_read(pc);
                let addr = pos.wrapping_add(self.register_x) as u16;
                addr
            },
            AddressingMode::ZeroPage_Y => {
                let pos = self.mem_read(pc);
                let addr = pos.wrapping_add(self.register_y) as u16;
                addr
            },
            AddressingMode::Absolute_X => {
                let base = self.mem_read_u16(pc);
                let addr = base.wrapping_add(self.register_x as u16);
                addr
            },
            AddressingMode::Absolute_Y => {
                let base = self.mem_read_u16(pc);
                let addr = base.wrapping_add(self.register_y as u16);
                addr
            },
            AddressingMode::Indirect_X => {
                let base = self.mem_read(pc);
                let ptr: u8 = base.wrapping_add(self.register_x);
                let lo = self.mem_read(ptr as u16);
                let hi = self.mem_read(ptr.wrapping_add(1) as u16);
                proof {
                    lemma_word_from_bytes(hi as u16, lo as u16);
                }
                (hi as u16) << 8 | (lo as u16)
            },
            AddressingMode::Indirect_Y => {
                let base = self.mem_read(pc);
                let lo = self.mem_read(base as u16);
                let hi = self.mem_read(base.wrapping_add(1) as u16);
                proof {
                    lemma_word_from_bytes(hi as u16, lo as u16);
                }
                let deref_base = (hi as u16) << 8 | (lo as u16);
                let deref = deref_base.wrapping_add(self.register_y as u16);
                deref
            },
            AddressingMode::Indirect => {
                // The 6502 fetches the high byte of a vector that ends a page
                // from the start of that page; that is not reproduced here.
                let ptr = self.mem_read_u16(pc);
                self.mem_read_u16(ptr)
            },
            AddressingMode::NoneAddressing => 0,
        }
    }

    fn get_operand_address(&self, mode: &AddressingMode) -> (r: u16)
        requires
            self@.operand_addr(*mode) is Some,
        ensures
            Some(r) == self@.operand_addr(*mode),
    {
        proof {
            assert(self@.with_pc(self.program_counter) == self@);
        }
        self.operand_address_at(mode, self.program_counter)
    }

    pub fn mem_read(&self, addr: u16) -> (r: u8)
        ensures
            r == self@.read(addr),
    {
        self.memory[addr as usize]
    }

    pub fn mem_write(&mut self, addr: u16, data: u8)
        ensures
            final(self)@ == old(self)@.write(addr, data),
    {
        self.memory[addr as usize] = data;
        proof {
            assert(self@.mem =~= old(self)@.write(addr, data).mem);
        }
    }

    /// Words are stored little-endian: low byte first.
    pub fn mem_read_u16(&self, pos: u16) -> (r: u16)
        requires
            pos != 0xFFFF,
        ensures
            Some(r) == self@.read_u16(pos),
    {
        let lo = self.mem_read(pos) as u16;
        let hi = self.mem_read(pos + 1) as u16;
        proof {
            lemma_word_from_bytes(hi, lo);
        }
        (hi << 8) | lo
    }

    pub fn mem_write_u16(&mut self, pos: u16, data: u16)
        requires
            pos != 0xFFFF,
        ensures
            Some(final(self)@) == old(self)@.write_u16(pos, data),
    {
        proof {
            lemma_word_bytes(data);
        }
        let hi = (data >> 8) as u8;
        let lo = (data & 0xff) as u8;
        self.mem_write(pos, lo);
        self.mem_write(pos + 1, hi);
    }

    /// The stack works top down: the byte goes to the current slot, then the
    /// stack pointer moves down.
    fn stack_push(&mut self, value: u8)
        ensures
            final(self)@ == old(self)@.push(value),
    {
        self.mem_write(STACK_START + self.stack_pointer as u16, value);
        self.stack_pointer = self.stack_pointer.wrapping_sub(1);
    }

    fn stack_pop(&mut self) -> (r: u8)
        ensures
            r == old(self)@.pop_value(),
            final(self)@ == old(self)@.popped(),
    {
        self.stack_pointer = self.stack_pointer.wrapping_add(1);
        let stored = self.mem_read(STACK_START + self.stack_pointer as u16);
        stored
    }

    fn stack_push_u16(&mut self, value: u16)
        ensures
            final(self)@ == old(self)@.push_u16(value),
    {
        proof {
            lemma_word_bytes(value);
        }
        let hi = (value >> 8) as u8;
        let lo = (value & 0xff) as u8;
        self.stack_push(hi);
        self.stack_push(lo);
    }

    /// Pops a word: low byte first, then high byte.
    fn stack_pop_u16(&mut self) -> (r: u16)
        ensures
            r == old(self)@.pop_u16_value(),
            final(self)@ == old(self)@.popped_u16(),
    {
        let lo = self.stack_pop() as u16;
        let hi = self.stack_pop() as u16;
        proof {
            lemma_word_from_bytes(hi, lo);
        }
        (hi << 8) | lo
    }

    /// Clears A, X and the status and loads the program counter from the
    /// reset vector at 0xFFFC.
    pub fn reset(&mut self)
        ensures
            final(self)@ == old(self)@.reset(),
    {
        self.register_a = 0;
        self.register_x = 0;
        self.status = 0;
        self.program_counter = self.mem_read_u16(0xFFFC)
    }

    /// Copies the program to 0x8000 onwards and points the reset vector at it.
    pub fn load(&mut self, program: Vec<u8>)
        requires
            program.len() <= 0x8000,
        ensures
            final(self)@ == old(self)@.load(program@),
    {
        let mut i: usize = 0;
        while i < program.len()
            invariant
                program.len() <= 0x8000,
                i <= program.len(),
                self@.mem == Seq::new(0x10000, |j: int|
                    if 0x8000 <= j < 0x8000 + i { program@[j - 0x8000] } else { old(self)@.mem[j] }),
                self@ == (CpuState { mem: self@.mem, ..old(self)@ }),
            decreases program.len() - i,
        {
            self.memory[0x8000 + i] = program[i];
            proof {
                assert(self@.mem =~= Seq::new(0x10000, |j: int|
                    if 0x8000 <= j < 0x8000 + (i + 1) { program@[j - 0x8000] } else { old(self)@.mem[j] }));
            }
            i = i + 1;
        }
        self.mem_write_u16(0xFFFC, 0x8000);
        proof {
            assert(self@.mem =~= old(self)@.load(program@).mem);
        }
    }

    /// Loads the program, resets and runs until `BRK`.
    pub fn load_and_run(&mut self, program: Vec<u8>)
        requires
            program.len() <= 0x8000,
            old(self)@.load(program@).reset().halts(),
        ensures
            final(self)@ == old(self)@.load(program@).reset().halted_state(),
    {
        self.load(program);
        self.reset();
        self.run()
    }

    fn update_zero_and_negative_flags(&mut self, result: u8)
        ensures
            final(self)@ == old(self)@.with_status(zn(old(self).status, result)),
    {
        proof {
            lemma_masks();
            lemma_byte_bits(result);
        }
        if result == 0 {
            self.status = self.status | 0b0000_0010;
        } else {
            self.status = self.status & 0b1111_1101;
        }
        if result & 0b1000_0000 != 0 {
            self.status = self.status | 0b1000_0000;
        } else {
            self.status = self.status & 0b0111_1111;
        }
    }

    fn set_register_a(&mut self, new_val: u8)
        ensures
            final(self)@ == old(self)@.with_a(new_val),
    {
        self.register_a = new_val;
        self.update_zero_and_negative_flags(self.register_a);
    }

    fn set_register_x(&mut self, new_val: u8)
        ensures
            final(self)@ == old(self)@.with_x(new_val),
    {
        self.register_x = new_val;
        self.update_zero_and_negative_flags(self.register_x);
    }

    fn set_register_y(&mut self, new_val: u8)
        ensures
            final(self)@ == old(self)@.with_y(new_val),
    {
        self.register_y = new_val;
        self.update_zero_and_negative_flags(self.register_y);
    }
}

impl CPU {
    /// Adds the operand and the carry to the accumulator.
    fn adc(&mut self, mode: &AddressingMode)
        requires
            old(self)@.operand_addr(*mode) is Some,
        ensures
            final(self)@ == old(self)@.adc(old(self)@.operand_addr(*mode)->Some_0),
    {
        let addr = self.get_operand_address(mode);
        let operand = self.mem_read(addr);
        proof {
            lemma_byte_bits(self.status);
        }
        let sum: u16 = self.register_a as u16 + operand as u16 + (self.status & CpuFlags::CARRY_FLAG) as u16;
        let result = (sum % 256) as u8;
        if sum > 0xff {
            self.status = self.status | CpuFlags::CARRY_FLAG;
        } else {
            self.status = self.status & !CpuFlags::CARRY_FLAG;
        }
        if (self.register_a ^ result) & (operand ^ result) & 0x80 != 0 {
            self.status = self.status | CpuFlags::OVERFLOW;
        } else {
            self.status = self.status & !CpuFlags::OVERFLOW;
        }
        self.set_register_a(result);
    }

    fn and(&mut self, mode: &AddressingMode)
        requires
            old(self)@.operand_addr(*mode) is Some,
        ensures
            final(self)@ == old(self)@.and(old(self)@.operand_addr(*mode)->Some_0),
    {
        let addr = self.get_operand_address(mode);
        let operand = self.mem_read(addr);
        self.set_register_a(self.register_a & operand);
    }

    /// Arithmetic shift left of a byte in memory.
    fn asl(&mut self, mode: &AddressingMode)
        requires
            old(self)@.operand_addr(*mode) is Some,
        ensures
            final(self)@ == old(self)@.asl(old(self)@.operand_addr(*mode)->Some_0),
    {
        let addr = self.get_operand_address(mode);
        let data = self.mem_read(addr);
        proof {
            lemma_byte_bits(data);
            lemma_shift_left(data);
        }
        if data & CpuFlags::NEGATIVE != 0 {
            self.status = self.status | CpuFlags::CARRY_FLAG;
        } else {
            self.status = self.status & !CpuFlags::CARRY_FLAG;
        }
        let res = data << 1;
        self.mem_write(addr, res);
        self.update_zero_and_negative_flags(res);
    }

    fn asl_accumulator(&mut self)
        ensures
            final(self)@ == old(self)@.asl_accumulator(),
    {
        proof {
            lemma_byte_bits(self.register_a);
            lemma_shift_left(self.register_a);
        }
        if self.register_a & CpuFlags::NEGATIVE != 0 {
            self.status = self.status | CpuFlags::CARRY_FLAG;
        } else {
            self.status = self.status & !CpuFlags::CARRY_FLAG;
        }
        self.set_register_a(self.register_a << 1);
    }

    /// Relative branch: the offset byte is signed.
    fn branch(&mut self, condition: bool)
        ensures
            final(self)@ == old(self)@.branch(condition),
    {
        if condition {
            let jump_addr = self.branch_target(self.program_counter);
            self.program_counter = jump_addr;
        }
    }

    fn bcc(&mut self)
        ensures
            final(self)@ == old(self)@.branch(!flag(old(self).status, CpuFlags::CARRY_FLAG)),
    {
        self.branch(self.status & CpuFlags::CARRY_FLAG == 0);
    }

    fn bcs(&mut self)
        ensures
            final(self)@ == old(self)@.branch(flag(old(self).status, CpuFlags::CARRY_FLAG)),
    {
        self.branch(self.status & CpuFlags::CARRY_FLAG != 0);
    }

    fn beq(&mut self)
        ensures
            final(self)@ == old(self)@.branch(flag(old(self).status, CpuFlags::ZERO_FLAG)),
    {
        self.branch(self.status & CpuFlags::ZERO_FLAG != 0);
    }

    /// Tests the operand against the accumulator.
    fn bit(&mut self, mode: &AddressingMode)
        requires
            old(self)@.operand_addr(*mode) is Some,
        ensures
            final(self)@ == old(self)@.bit(old(self)@.operand_addr(*mode)->Some_0),
    {
        let addr = self.get_operand_address(mode);
        let operand = self.mem_read(addr);
        if self.register_a & operand == 0 {
            self.status = self.status | CpuFlags::ZERO_FLAG;
        } else {
            self.status = self.status & !CpuFlags::ZERO_FLAG;
        }
        // negative and overflow bits come from the operand
        let stat_mask = operand & 0b1100_0000;
        self.status = (self.status & 0b0011_1111) | stat_mask
    }

    fn bmi(&mut self)
        ensures
            final(self)@ == old(self)@.branch(flag(old(self).status, CpuFlags::NEGATIVE)),
    {
        self.branch(self.status & CpuFlags::NEGATIVE != 0);
    }

    fn bne(&mut self)
        ensures
            final(self)@ == old(self)@.branch(!flag(old(self).status, CpuFlags::ZERO_FLAG)),
    {
        self.branch(self.status & CpuFlags::ZERO_FLAG == 0);
    }

    fn bpl(&mut self)
        ensures
            final(self)@ == old(self)@.branch(!flag(old(self).status, CpuFlags::NEGATIVE)),
    {
        self.branch(self.status & CpuFlags::NEGATIVE == 0);
    }

    fn bvc(&mut self)
        ensures
            final(self)@ == old(self)@.branch(!flag(old(self).status, CpuFlags::OVERFLOW)),
    {
        self.branch(self.status & CpuFlags::OVERFLOW == 0);
    }

    fn bvs(&mut self)
        ensures
            final(self)@ == old(self)@.branch(flag(old(self).status, CpuFlags::OVERFLOW)),
    {
        self.branch(self.status & CpuFlags::OVERFLOW != 0);
    }

    fn clc(&mut self)
        ensures
            final(self)@ == old(self)@.with_status(set_flag(old(self).status, CpuFlags::CARRY_FLAG, false)),
    {
        self.status &= !CpuFlags::CARRY_FLAG;
    }

    fn cld(&mut self)
        ensures
            final(self)@ == old(self)@.with_status(set_flag(old(self).status, CpuFlags::DECIMAL_MODE_UNUSED, false)),
    {
        self.status &= !CpuFlags::DECIMAL_MODE_UNUSED;
    }

    fn cli(&mut self)
        ensures
            final(self)@ == old(self)@.with_status(set_flag(old(self).status, CpuFlags::INTERRUPT_DISABLE, false)),
    {
        self.status &= !CpuFlags::INTERRUPT_DISABLE;
    }

    fn clv(&mut self)
        ensures
            final(self)@ == old(self)@.with_status(set_flag(old(self).status, CpuFlags::OVERFLOW, false)),
    {
        self.status &= !CpuFlags::OVERFLOW;
    }

    /// Compares `register` with the operand through `register - operand`.
    fn _cmp(&mut self, mode: &AddressingMode, register: u8)
        requires
            old(self)@.operand_addr(*mode) is Some,
        ensures
            final(self)@ == old(self)@.compare(old(self)@.operand_addr(*mode)->Some_0, register),
    {
        let addr = self.get_operand_address(mode);
        let operand = self.mem_read(addr);
        if register >= operand {
            self.status = self.status | CpuFlags::CARRY_FLAG;
        } else {
            self.status = self.status & !CpuFlags::CARRY_FLAG;
        }
        self.update_zero_and_negative_flags(register.wrapping_sub(operand));
    }

    fn cmp(&mut self, mode: &AddressingMode)
        requires
            old(self)@.operand_addr(*mode) is Some,
        ensures
            final(self)@ == old(self)@.compare(old(self)@.operand_addr(*mode)->Some_0, old(self).register_a),
    {
        self._cmp(mode, self.register_a);
    }

    fn cpx(&mut self, mode: &AddressingMode)
        requires
            old(self)@.operand_addr(*mode) is Some,
        ensures
            final(self)@ == old(self)@.compare(old(self)@.operand_addr(*mode)->Some_0, old(self).register_x),
    {
        self._cmp(mode, self.register_x);
    }

    fn cpy(&mut self, mode: &AddressingMode)
        requires
            old(self)@.operand_addr(*mode) is Some,
        ensures
            final(self)@ == old(self)@.compare(old(self)@.operand_addr(*mode)->Some_0, old(self).register_y),
    {
        self._cmp(mode, self.register_y);
    }

    fn dec(&mut self, mode: &AddressingMode)
        requires
            old(self)@.operand_addr(*mode) is Some,
        ensures
            final(self)@ == old(self)@.dec(old(self)@.operand_addr(*mode)->Some_0),
    {
        let addr = self.get_operand_address(mode);
        let operand = self.mem_read(addr);
        let res = operand.wrapping_sub(1);
        self.mem_write(addr, res);
        self.update_zero_and_negative_flags(res);
    }

    fn dex(&mut self)
        ensures
            final(self)@ == old(self)@.with_x(add8(old(self).register_x, -1)),
    {
        self.set_register_x(self.register_x.wrapping_sub(1));
    }

    fn dey(&mut self)
        ensures
            final(self)@ == old(self)@.with_y(add8(old(self).register_y, -1)),
    {
        self.set_register_y(self.register_y.wrapping_sub(1));
    }

    /// Exclusive or of the accumulator with the operand.
    fn eor(&mut self, mode: &AddressingMode)
        requires
            old(self)@.operand_addr(*mode) is Some,
        ensures
            final(self)@ == old(self)@.eor(old(self)@.operand_addr(*mode)->Some_0),
    {
        let addr = self.get_operand_address(mode);
        let operand = self.mem_read(addr);
        let ghost status_before = self.status;
        self.set_register_a(self.register_a ^ operand);
        proof {
            lemma_zn_idempotent(status_before, self.register_a);
        }
        self.update_zero_and_negative_flags(self.register_a);
    }

    fn inc(&mut self, mode: &AddressingMode)
        requires
            old(self)@.operand_addr(*mode) is Some,
        ensures
            final(self)@ == old(self)@.inc(old(self)@.operand_addr(*mode)->Some_0),
    {
        let addr = self.get_operand_address(mode);
        let operand = self.mem_read(addr);
        let res = operand.wrapping_add(1);
        self.mem_write(addr, res);
        self.update_zero_and_negative_flags(res);
    }

    fn inx(&mut self)
        ensures
            final(self)@ == old(self)@.with_x(add8(old(self).register_x, 1)),
    {
        self.set_register_x(self.register_x.wrapping_add(1));
    }

    fn iny(&mut self)
        ensures
            final(self)@ == old(self)@.with_y(add8(old(self).register_y, 1)),
    {
        self.set_register_y(self.register_y.wrapping_add(1));
    }

    /// The program counter becomes the operand address.
    fn jmp(&mut self, mode: &AddressingMode)
        requires
            old(self)@.operand_addr(*mode) is Some,
        ensures
            final(self)@ == old(self)@.with_pc(old(self)@.operand_addr(*mode)->Some_0),
    {
        let destination = self.get_operand_address(mode);
        self.program_counter = destination;
    }

    /// Jump to subroutine: pushes the address (minus one) of the return point,
    /// which is the last byte of the instruction, then jumps to the target.
    fn jsr(&mut self)
        requires
            old(self)@.jsr() is Some,
        ensures
            final(self)@ == old(self)@.jsr()->Some_0,
    {
        let destination = self.get_operand_address(&AddressingMode::Absolute);
        self.stack_push_u16(self.program_counter + 1);
        self.program_counter = destination;
    }

    fn lda(&mut self, mode: &AddressingMode)
        requires
            old(self)@.operand_addr(*mode) is Some,
        ensures
            final(self)@ == old(self)@.with_a(old(self)@.read(old(self)@.operand_addr(*mode)->Some_0)),
    {
        let addr = self.get_operand_address(mode);
        let value = self.mem_read(addr);
        self.set_register_a(value);
    }

    fn ldx(&mut self, mode: &AddressingMode)
        requires
            old(self)@.operand_addr(*mode) is Some,
        ensures
            final(self)@ == old(self)@.with_x(old(self)@.read(old(self)@.operand_addr(*mode)->Some_0)),
    {
        let addr = self.get_operand_address(mode);
        let value = self.mem_read(addr);
        self.set_register_x(value);
    }

    fn ldy(&mut self, mode: &AddressingMode)
        requires
            old(self)@.operand_addr(*mode) is Some,
        ensures
            final(self)@ == old(self)@.with_y(old(self)@.read(old(self)@.operand_addr(*mode)->Some_0)),
    {
        let addr = self.get_operand_address(mode);
        let value = self.mem_read(addr);
        self.set_register_y(value);
    }

    /// Logical shift right of a byte in memory.
    fn lsr(&mut self, mode: &AddressingMode)
        requires
            old(self)@.operand_addr(*mode) is Some,
        ensures
            final(self)@ == old(self)@.lsr(old(self)@.operand_addr(*mode)->Some_0),
    {
        let addr = self.get_operand_address(mode);
        let value = self.mem_read(addr);
        proof {
            lemma_byte_bits(value);
            lemma_carry_update(self.status, value & 1);
        }
        let stat_mask = value & CpuFlags::CARRY_FLAG;
        self.status = (self.status & !CpuFlags::CARRY_FLAG) | stat_mask;
        let res = value >> 1;
        self.mem_write(addr, res);
        self.update_zero_and_negative_flags(res);
    }

    fn lsr_accumulator(&mut self)
        ensures
            final(self)@ == old(self)@.lsr_accumulator(),
    {
        proof {
            lemma_byte_bits(self.register_a);
            lemma_carry_update(self.status, self.register_a & 1);
        }
        let stat_mask = self.register_a & CpuFlags::CARRY_FLAG;
        self.status = (self.status & !CpuFlags::CARRY_FLAG) | stat_mask;
        self.set_register_a(self.register_a >> 1);
    }

    fn nop(&mut self)
        ensures
            final(self)@ == old(self)@,
    {
    }

    fn ora(&mut self, mode: &AddressingMode)
        requires
            old(self)@.operand_addr(*mode) is Some,
        ensures
            final(self)@ == old(self)@.ora(old(self)@.operand_addr(*mode)->Some_0),
    {
        let addr = self.get_operand_address(mode);
        let mask = self.mem_read(addr);
        self.set_register_a(self.register_a | mask);
    }

    /// Pushes the accumulator.
    fn pha(&mut self)
        ensures
            final(self)@ == old(self)@.push(old(self).register_a),
    {
        self.stack_push(self.register_a);
    }

    fn php(&mut self)
        ensures
            final(self)@ == old(self)@.push(old(self).status),
    {
        self.stack_push(self.status);
    }

    fn pla(&mut self)
        ensures
            final(self)@ == old(self)@.pla(),
    {
        let stored = self.stack_pop();
        self.set_register_a(stored);
    }

    fn plp(&mut self)
        ensures
            final(self)@ == old(self)@.plp(),
    {
        let stored = self.stack_pop();
        self.status = stored;
    }

    fn rol(&mut self, mode: &AddressingMode)
        requires
            old(self)@.operand_addr(*mode) is Some,
        ensures
            final(self)@ == old(self)@.rol(old(self)@.operand_addr(*mode)->Some_0),
    {
        let addr = self.get_operand_address(mode);
        let operand = self.mem_read(addr);
        proof {
            lemma_byte_bits(operand);
            lemma_byte_bits(self.status);
            lemma_rotate(operand, self.status & 1);
            lemma_carry_update(self.status, if operand >= 0x80 { 1 } else { 0 });
        }
        let bit_7 = operand & 0b1000_0000;
        let shifted = operand << 1;
        let carry_inserted = shifted | (self.status & CpuFlags::CARRY_FLAG);
        self.mem_write(addr, carry_inserted);
        self.status = (self.status & !CpuFlags::CARRY_FLAG) | (bit_7 >> 7);
        self.update_zero_and_negative_flags(carry_inserted);
    }

    fn rol_accumulator(&mut self)
        ensures
            final(self)@ == old(self)@.rol_accumulator(),
    {
        let bit_7 = self.register_a & 0b1000_0000;
        let shifted = self.register_a << 1;
        proof {
            lemma_byte_bits(self.register_a);
            lemma_byte_bits(self.status);
            lemma_rotate(self.register_a, self.status & 1);
        }
        let carry_inserted = shifted | (self.status & CpuFlags::CARRY_FLAG);
        self.set_register_a(carry_inserted);
        proof {
            lemma_carry_update(self.status, bit_7 >> 7);
        }
        self.status = (self.status & !CpuFlags::CARRY_FLAG) | (bit_7 >> 7)
    }

    fn ror(&mut self, mode: &AddressingMode)
        requires
            old(self)@.operand_addr(*mode) is Some,
        ensures
            final(self)@ == old(self)@.ror(old(self)@.operand_addr(*mode)->Some_0),
    {
        let addr = self.get_operand_address(mode);
        let operand = self.mem_read(addr);
        proof {
            lemma_byte_bits(operand);
            lemma_byte_bits(self.status);
            lemma_rotate_right(operand, self.status & 1);
            lemma_carry_update(self.status, operand & 1);
        }
        let bit_0 = operand & 0b0000_0001;
        let shifted = operand >> 1;
        let carry_inserted = shifted | ((self.status & CpuFlags::CARRY_FLAG) << 7);
        self.status = (self.status & !CpuFlags::CARRY_FLAG) | bit_0;
        self.mem_write(addr, carry_inserted);
        self.update_zero_and_negative_flags(carry_inserted);
    }

    fn ror_accumulator(&mut self)
        ensures
            final(self)@ == old(self)@.ror_accumulator(),
    {
        proof {
            lemma_byte_bits(self.register_a);
            lemma_byte_bits(self.status);
            lemma_rotate_right(self.register_a, self.status & 1);
            lemma_carry_update(self.status, self.register_a & 1);
        }
        let bit_0 = self.register_a & 0b0000_0001;
        let shifted = self.register_a >> 1;
        let carry_inserted = shifted | ((self.status & CpuFlags::CARRY_FLAG) << 7);
        self.status = (self.status & !CpuFlags::CARRY_FLAG) | bit_0;
        self.set_register_a(carry_inserted);
    }

    /// Return from interrupt: pulls the status, then a word into the program counter.
    fn rti(&mut self)
        ensures
            final(self)@ == old(self)@.rti(),
    {
        self.plp();
        self.program_counter = self.stack_pop_u16();
    }

    /// Return from subroutine: pulls the word JSR pushed and continues after it.
    fn rts(&mut self)
        ensures
            final(self)@ == old(self)@.rts(),
    {
        self.program_counter = self.stack_pop_u16().wrapping_add(1);
    }

    /// Subtracts the operand and the complement of the carry from the accumulator.
    #[verifier::rlimit(30)]
    fn sbc(&mut self, mode: &AddressingMode)
        requires
            old(self)@.operand_addr(*mode) is Some,
        ensures
            final(self)@ == old(self)@.sbc(old(self)@.operand_addr(*mode)->Some_0),
    {
        let addr = self.get_operand_address(mode);
        let operand = self.mem_read(addr);
        proof {
            lemma_byte_bits(self.status);
        }
        let not_of_carry = 1 - (self.status & CpuFlags::CARRY_FLAG);
        let sum = self.register_a as i16 - operand as i16 - not_of_carry as i16;
        let result = self.register_a.wrapping_sub(operand).wrapping_sub(not_of_carry);
        assert(result == ((sum as int) % 256) as u8);
        if sum >= 0 {
            self.status = self.status | CpuFlags::CARRY_FLAG;
        } else {
            self.status = self.status & !CpuFlags::CARRY_FLAG;
        }
        if (self.register_a ^ operand) & (self.register_a ^ result) & 0x80 != 0 {
            self.status = self.status | CpuFlags::OVERFLOW;
        } else {
            self.status = self.status & !CpuFlags::OVERFLOW;
        }
        self.set_register_a(result);
    }

    fn sec(&mut self)
        ensures
            final(self)@ == old(self)@.with_status(set_flag(old(self).status, CpuFlags::CARRY_FLAG, true)),
    {
        self.status |= CpuFlags::CARRY_FLAG;
    }

    fn sed(&mut self)
        ensures
            final(self)@ == old(self)@.with_status(set_flag(old(self).status, CpuFlags::DECIMAL_MODE_UNUSED, true)),
    {
        self.status |= CpuFlags::DECIMAL_MODE_UNUSED;
    }

    fn sei(&mut self)
        ensures
            final(self)@ == old(self)@.with_status(set_flag(old(self).status, CpuFlags::INTERRUPT_DISABLE, true)),
    {
        self.status |= CpuFlags::INTERRUPT_DISABLE;
    }

    fn sta(&mut self, mode: &AddressingMode)
        requires
            old(self)@.operand_addr(*mode) is Some,
        ensures
            final(self)@ == old(self)@.write(old(self)@.operand_addr(*mode)->Some_0, old(self).register_a),
    {
        let addr = self.get_operand_address(mode);
        self.mem_write(addr, self.register_a);
    }

    fn stx(&mut self, mode: &AddressingMode)
        requires
            old(self)@.operand_addr(*mode) is Some,
        ensures
            final(self)@ == old(self)@.write(old(self)@.operand_addr(*mode)->Some_0, old(self).register_x),
    {
        let addr = self.get_operand_address(mode);
        self.mem_write(addr, self.register_x);
    }

    fn sty(&mut self, mode: &AddressingMode)
        requires
            old(self)@.operand_addr(*mode) is Some,
        ensures
            final(self)@ == old(self)@.write(old(self)@.operand_addr(*mode)->Some_0, old(self).register_y),
    {
        let addr = self.get_operand_address(mode);
        self.mem_write(addr, self.register_y);
    }

    fn tax(&mut self)
        ensures
            final(self)@ == old(self)@.with_x(old(self).register_a),
    {
        self.set_register_x(self.register_a);
    }

    fn tay(&mut self)
        ensures
            final(self)@ == old(self)@.with_y(old(self).register_a),
    {
        self.set_register_y(self.register_a);
    }

    /// Transfers the stack pointer to X.
    fn tsx(&mut self)
        ensures
            final(self)@ == old(self)@.with_x(old(self).stack_pointer),
    {
        self.set_register_x(self.stack_pointer);
    }

    fn txa(&mut self)
        ensures
            final(self)@ == old(self)@.with_a(old(self).register_x),
    {
        self.set_register_a(self.register_x);
    }

    /// Transfers X to the stack pointer.
    fn txs(&mut self)
        ensures
            final(self)@ == (CpuState { sp: old(self).register_x, ..old(self)@ }),
    {
        self.stack_pointer = self.register_x;
    }

    fn tya(&mut self)
        ensures
            final(self)@ == old(self)@.with_a(old(self).register_y),
    {
        self.set_register_a(self.register_y);
    }
}


impl CPU {
    /// Whether the operand of an instruction in `mode`, with operand bytes at
    /// `pc`, can be located.
    fn operand_ok(&self, mode: &AddressingMode, pc: u16) -> (r: bool)
        ensures
            r == self@.with_pc(pc).operand_addr(*mode) is Some,
    {
        match mode {
            AddressingMode::NoneAddressing => false,
            AddressingMode::Absolute | AddressingMode::Absolute_X | AddressingMode::Absolute_Y => pc != 0xFFFF,
            AddressingMode::Indirect => pc != 0xFFFF && self.mem_read_u16(pc) != 0xFFFF,
            _ => true,
        }
    }

    /// The word a word pop would give back, `skip` slots above the stack pointer.
    fn peek_u16(&self, skip: u8) -> (r: u16)
        requires
            skip <= 1,
        ensures
            r == (CpuState { sp: add8(self.stack_pointer, skip as int), ..self@ }).pop_u16_value(),
    {
        let lo = self.mem_read(STACK_START + self.stack_pointer.wrapping_add(skip + 1) as u16) as u16;
        let hi = self.mem_read(STACK_START + self.stack_pointer.wrapping_add(skip + 2) as u16) as u16;
        proof {
            lemma_word_from_bytes(hi, lo);
        }
        (hi << 8) | lo
    }

    /// Where a taken branch whose offset byte is at `pc` leads.
    fn branch_target(&self, pc: u16) -> (r: u16)
        ensures
            r == add16(pc, 1 + signed8(self@.read(pc))),
    {
        let offset = self.mem_read(pc);
        proof {
            lemma_sign_extend(offset);
        }
        let relative = offset as i8;
        pc.wrapping_add(1).wrapping_add(relative as u16)
    }

    /// The program counter that the instruction `code` leaves behind when it
    /// runs with its operand bytes starting at `pc`; `None` when it cannot be
    /// carried out.
    fn next_pc(&self, code: u8, mode: &AddressingMode, pc: u16) -> (r: Option<u16>)
        ensures
            r == match self@.with_pc(pc).execute(code, *mode) {
                Some(t) => Some(t.pc),
                None => None,
            },
    {
        if code < 0x40 {
            self.next_pc_0(code, mode, pc)
        } else if code < 0x80 {
            self.next_pc_1(code, mode, pc)
        } else if code < 0xC0 {
            self.next_pc_2(code, mode, pc)
        } else {
            self.next_pc_3(code, mode, pc)
        }
    }

    /// `next_pc` for an opcode from 0x00 to 0x3F.
    #[verifier::rlimit(40)]
    fn next_pc_0(&self, code: u8, mode: &AddressingMode, pc: u16) -> (r: Option<u16>)
        requires
            code < 0x40,
        ensures
            r == match self@.with_pc(pc).execute(code, *mode) {
                Some(t) => Some(t.pc),
                None => None,
            },
    {
        let status = self.status;
        match code {
            0x29 | 0x25 | 0x35 | 0x2D | 0x3D | 0x39 | 0x21 | 0x31 | 0x06 | 0x16 | 0x0E | 0x1E | 0x24 | 0x2C | 0x09 | 0x05 | 0x15 | 0x0D | 0x1D | 0x19 | 0x01 | 0x11 | 0x26 | 0x36 | 0x2E | 0x3E => {
                if self.operand_ok(mode, pc) {
                    Some(pc)
                } else {
                    None
                }
            },
            0x20 => {
                if pc != 0xFFFF {
                    Some(self.mem_read_u16(pc))
                } else {
                    None
                }
            },
            0x30 => {
                if status & CpuFlags::NEGATIVE != 0 {
                    Some(self.branch_target(pc))
                } else {
                    Some(pc)
                }
            },
            0x10 => {
                if status & CpuFlags::NEGATIVE == 0 {
                    Some(self.branch_target(pc))
                } else {
                    Some(pc)
                }
            },
            0x0A | 0x18 | 0x08 | 0x28 | 0x2A | 0x38 => Some(pc),
            _ => None,
        }
    }

    /// `next_pc` for an opcode from 0x40 to 0x7F.
    #[verifier::rlimit(60)]
    fn next_pc_1(&self, code: u8, mode: &AddressingMode, pc: u16) -> (r: Option<u16>)
        requires
            0x40 <= code < 0x80,
        ensures
            r == match self@.with_pc(pc).execute(code, *mode) {
                Some(t) => Some(t.pc),
                None => None,
            },
    {
        let status = self.status;
        match code {
            0x69 | 0x65 | 0x75 | 0x6D | 0x7D | 0x79 | 0x61 | 0x71 | 0x49 | 0x45 | 0x55 | 0x4D | 0x5D | 0x59 | 0x41 | 0x51 | 0x46 | 0x56 | 0x4E | 0x5E | 0x66 | 0x76 | 0x6E | 0x7E => {
                if self.operand_ok(mode, pc) {
                    Some(pc)
                } else {
                    None
                }
            },
            0x4C | 0x6C => {
                if self.operand_ok(mode, pc) {
                    Some(self.operand_address_at(mode, pc))
                } else {
                    None
                }
            },
            0x50 => {
                if status & CpuFlags::OVERFLOW == 0 {
                    Some(self.branch_target(pc))
                } else {
                    Some(pc)
                }
            },
            0x70 => {
                if status & CpuFlags::OVERFLOW != 0 {
                    Some(self.branch_target(pc))
                } else {
                    Some(pc)
                }
            },
            0x40 => Some(self.peek_u16(1)),
            0x60 => Some(self.peek_u16(0).wrapping_add(1)),
            0x58 | 0x4A | 0x48 | 0x68 | 0x6A | 0x78 => Some(pc),
            _ => None,
        }
    }

    /// `next_pc` for an opcode from 0x80 to 0xBF.
    #[verifier::rlimit(40)]
    fn next_pc_2(&self, code: u8, mode: &AddressingMode, pc: u16) -> (r: Option<u16>)
        requires
            0x80 <= code < 0xC0,
        ensures
            r == match self@.with_pc(pc).execute(code, *mode) {
                Some(t) => Some(t.pc),
                None => None,
            },
    {
        let status = self.status;
        match code {
            0xA9 | 0xA5 | 0xB5 | 0xAD | 0xBD | 0xB9 | 0xA1 | 0xB1 | 0xA2 | 0xA6 | 0xB6 | 0xAE | 0xBE | 0xA0 | 0xA4 | 0xB4 | 0xAC | 0xBC | 0x85 | 0x95 | 0x8D | 0x9D | 0x99 | 0x81 | 0x91 | 0x86 | 0x96 | 0x8E | 0x84 | 0x94 | 0x8C => {
                if self.operand_ok(mode, pc) {
                    Some(pc)
                } else {
                    None
                }
            },
            0x90 => {
                if status & CpuFlags::CARRY_FLAG == 0 {
                    Some(self.branch_target(pc))
                } else {
                    Some(pc)
                }
            },
            0xB0 => {
                if status & CpuFlags::CARRY_FLAG != 0 {
                    Some(self.branch_target(pc))
                } else {
                    Some(pc)
                }
            },
            0xB8 | 0x88 | 0xAA | 0xA8 | 0xBA | 0x8A | 0x9A | 0x98 => Some(pc),
            _ => None,
        }
    }

    /// `next_pc` for an opcode from 0xC0 to 0xFF.
    #[verifier::rlimit(40)]
    fn next_pc_3(&self, code: u8, mode: &AddressingMode, pc: u16) -> (r: Option<u16>)
        requires
            0xC0 <= code,
        ensures
            r == match self@.with_pc(pc).execute(code, *mode) {
                Some(t) => Some(t.pc),
                None => None,
            },
    {
        let status = self.status;
        match code {
            0xC6 | 0xD6 | 0xCE | 0xDE | 0xE6 | 0xF6 | 0xEE | 0xFE | 0xE9 | 0xE5 | 0xF5 | 0xED | 0xFD | 0xF9 | 0xE1 | 0xF1 | 0xC9 | 0xC5 | 0xD5 | 0xCD | 0xDD | 0xD9 | 0xC1 | 0xD1 | 0xE0 | 0xE4 | 0xEC | 0xC0 | 0xC4 | 0xCC => {
                if self.operand_ok(mode, pc) {
                    Some(pc)
                } else {
                    None
                }
            },
            0xF0 => {
                if status & CpuFlags::ZERO_FLAG != 0 {
                    Some(self.branch_target(pc))
                } else {
                    Some(pc)
                }
            },
            0xD0 => {
                if status & CpuFlags::ZERO_FLAG == 0 {
                    Some(self.branch_target(pc))
                } else {
                    Some(pc)
                }
            },
            0xD8 | 0xCA | 0xE8 | 0xC8 | 0xF8 | 0xEA => Some(pc),
            _ => None,
        }
    }

    /// Whether the instruction at the program counter can be executed: its
    /// opcode is known and no address leaves its range while it runs.
    pub fn can_step(&self) -> (r: bool)
        ensures
            r == !(self@.step() is Fault),
    {
        let pc = self.program_counter;
        let code = self.mem_read(pc);
        match lookup(code) {
            None => false,
            Some(op_code) => {
                if pc == 0xFFFF {
                    false
                } else if code == 0x00 {
                    true
                } else {
                    match self.next_pc(code, &op_code.addressing_mode, pc + 1) {
                        None => false,
                        Some(next) => next != pc + 1 || pc as u32 + op_code.bytes as u32 <= 0xFFFF,
                    }
                }
            },
        }
    }

    /// Executes the instruction `code`, whose table entry gives `mode`, with
    /// the program counter just past its opcode.
    fn execute(&mut self, code: u8, mode: AddressingMode)
        requires
            old(self)@.execute(code, mode) is Some,
        ensures
            Some(final(self)@) == old(self)@.execute(code, mode),
    {
        if code < 0x80 {
            self.execute_low(code, mode)
        } else {
            self.execute_high(code, mode)
        }
    }

    /// Executes an instruction whose opcode is below 0x80.
    #[verifier::rlimit(60)]
    fn execute_low(&mut self, code: u8, mode: AddressingMode)
        requires
            code < 0x80,
            old(self)@.execute(code, mode) is Some,
        ensures
            Some(final(self)@) == old(self)@.execute(code, mode),
    {
        match code {
            0x69 | 0x65 | 0x75 | 0x6D | 0x7D | 0x79 | 0x61 | 0x71 => self.adc(&mode),
            0x29 | 0x25 | 0x35 | 0x2D | 0x3D | 0x39 | 0x21 | 0x31 => self.and(&mode),
            0x06 | 0x16 | 0x0e | 0x1e => self.asl(&mode),
            0x0A => self.asl_accumulator(),
            0x24 | 0x2C => self.bit(&mode),
            0x30 => self.bmi(),
            0x10 => self.bpl(),
            0x50 => self.bvc(),
            0x70 => self.bvs(),
            0x18 => self.clc(),
            0x58 => self.cli(),
            0x49 | 0x45 | 0x55 | 0x4D | 0x5D | 0x59 | 0x41 | 0x51 => self.eor(&mode),
            0x4C | 0x6C => self.jmp(&mode),
            0x20 => self.jsr(),
            0x46 | 0x56 | 0x4E | 0x5E => self.lsr(&mode),
            0x4A => self.lsr_accumulator(),
            0x09 | 0x05 | 0x15 | 0x0D | 0x1D | 0x19 | 0x01 | 0x11 => self.ora(&mode),
            0x48 => self.pha(),
            0x08 => self.php(),
            0x68 => self.pla(),
            0x28 => self.plp(),
            0x2A => self.rol_accumulator(),
            0x26 | 0x36 | 0x2E | 0x3E => self.rol(&mode),
            0x6A => self.ror_accumulator(),
            0x66 | 0x76 | 0x6E | 0x7E => self.ror(&mode),
            0x40 => self.rti(),
            0x60 => self.rts(),
            0x38 => self.sec(),
            0x78 => self.sei(),
            _ => {},
        }
    }

    /// Executes an instruction whose opcode is 0x80 or above.
    #[verifier::rlimit(60)]
    fn execute_high(&mut self, code: u8, mode: AddressingMode)
        requires
            code >= 0x80,
            old(self)@.execute(code, mode) is Some,
        ensures
            Some(final(self)@) == old(self)@.execute(code, mode),
    {
        match code {
            0x90 => self.bcc(),
            0xB0 => self.bcs(),
            0xF0 => self.beq(),
            0xD0 => self.bne(),
            0xD8 => self.cld(),
            0xB8 => self.clv(),
            0xC9 | 0xC5 | 0xD5 | 0xCD | 0xDD | 0xD9 | 0xC1 | 0xD1 => self.cmp(&mode),
            0xE0 | 0xE4 | 0xEC => self.cpx(&mode),
            0xC0 | 0xC4 | 0xCC => self.cpy(&mode),
            0xC6 | 0xD6 | 0xCE | 0xDE => self.dec(&mode),
            0xCA => self.dex(),
            0x88 => self.dey(),
            0xE6 | 0xF6 | 0xEE | 0xFE => self.inc(&mode),
            0xE8 => self.inx(),
            0xC8 => self.iny(),
            0xA9 | 0xA5 | 0xB5 | 0xAD | 0xBD | 0xB9 | 0xA1 | 0xB1 => self.lda(&mode),
            0xA2 | 0xA6 | 0xB6 | 0xAE | 0xBE => self.ldx(&mode),
            0xA0 | 0xA4 | 0xB4 | 0xAC | 0xBC => self.ldy(&mode),
            0xE9 | 0xE5 | 0xF5 | 0xED | 0xFD | 0xF9 | 0xE1 | 0xF1 => self.sbc(&mode),
            0xF8 => self.sed(),
            0x85 | 0x95 | 0x8D | 0x9D | 0x99 | 0x81 | 0x91 => self.sta(&mode),
            0x86 | 0x96 | 0x8E => self.stx(&mode),
            0x84 | 0x94 | 0x8C => self.sty(&mode),
            0xAA => self.tax(),
            0xA8 => self.tay(),
            0xBA => self.tsx(),
            0x8A => self.txa(),
            0x9A => self.txs(),
            0x98 => self.tya(),
            0xEA => self.nop(),
            _ => {},
        }
    }

    /// Moves the program counter, which points just past an opcode, past the
    /// rest of an instruction of `bytes` bytes.
    fn skip_operand_bytes(&mut self, bytes: u8)
        requires
            1 <= old(self).program_counter,
            old(self).program_counter + bytes - 1 <= 0xFFFF,
        ensures
            final(self)@ == old(self)@.with_pc((old(self).program_counter + bytes - 1) as u16),
    {
        self.program_counter = (self.program_counter - 1) + bytes as u16;
    }

    /// Executes the instruction at the program counter.
    pub fn step(&mut self) -> (r: StepResult)
        requires
            !(old(self)@.step() is Fault),
        ensures
            r == StepResult::Continue ==> old(self)@.step() == Step::Next(final(self)@),
            r == StepResult::Break ==> old(self)@.step() == Step::Halt(final(self)@),
    {
        let code = self.mem_read(self.program_counter);
        let op_code = lookup(code).unwrap();
        self.program_counter = self.program_counter + 1;
        let pc_state_before_inst_execution = self.program_counter;
        let mode = op_code.addressing_mode;
        if code == 0x00 {
            // BRK: stop.
            return StepResult::Break;
        }
        self.execute(code, mode);
        if pc_state_before_inst_execution == self.program_counter {
            self.skip_operand_bytes(op_code.bytes);
        }
        StepResult::Continue
    }

    /// Runs instructions until `BRK`.
    pub fn run(&mut self)
        requires
            old(self)@.halts(),
        ensures
            final(self)@ == old(self)@.halted_state(),
    {
        let ghost n: nat = choose|n: nat| #[trigger] old(self)@.run_for(n) is Halted;
        let ghost target = old(self)@.run_for(n);
        let ghost mut k: nat = n;
        loop
            invariant
                target is Halted,
                target == old(self)@.run_for(n),
                old(self)@.halted_state() == target->Halted_0,
                self@.run_for(k) == target,
            decreases k,
        {
            proof {
                assert(k > 0);
                assert(!(self@.step() is Fault));
            }
            match self.step() {
                StepResult::Break => return,
                StepResult::Continue => {
                    proof {
                        k = (k - 1) as nat;
                    }
                },
            }
        }
    }
}


} // verus!
