use vstd::prelude::*;

verus! {

/// How an instruction finds its operand.
///
/// The names follow the 6502 reference manuals: `ZeroPage_X` is "zero page,X",
/// `Indirect_Y` is "(indirect),Y", and so on.  `NoneAddressing` marks the
/// instructions that take no memory operand (implied, accumulator, relative).
#[allow(non_camel_case_types)]
#[derive(Clone, Copy, Debug, PartialEq, Eq, Structural)]
pub enum AddressingMode {
    Immediate,
    ZeroPage,
    ZeroPage_X,
    ZeroPage_Y,
    Absolute,
    Absolute_X,
    Absolute_Y,
    Indirect_X,
    Indirect_Y,
    /// The word at the address that follows the opcode (JMP only).
    Indirect,
    NoneAddressing,
}

} // verus!
