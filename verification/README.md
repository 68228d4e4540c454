# 6502 processor emulator, verified

An emulator of the 6502 processor (as used in the NES) whose every instruction
is proved against a mathematical model of the processor.  The model follows
the 6502 references (https://www.nesdev.org/obelisk-6502-guide/reference.html,
https://6502.org/tutorials/6502opcodes.html) for the instructions it covers,
with these simplifications: `BRK` stops execution instead of raising an
interrupt, decimal mode has no effect on arithmetic, `PHP`/`PLP` move the
status byte as it is, and the page-wrap quirk of indirect `JMP` is not
reproduced.

Layout:

- `src/semantics.rs` — the model: `CpuState` (registers, status, program
  counter, stack pointer, 64 KiB of memory), what each instruction does to it,
  one fetch-decode-execute `step`, and runs of several steps (`run_for`,
  `halts`, `halted_state`).
- `src/op_codes.rs` — the instruction table (`op_entry`) and its executable
  lookup.
- `src/addressing_modes.rs` — the addressing modes.
- `src/cpu.rs` — the executable processor `CPU`; each method's contract says
  which state of the model it produces.
- `src/laws.rs` — properties of the model proved once for all states: memory
  reads give back writes, the stack works top down, flags, loading and
  resetting, determinism of runs, agreement of the table with execution.
- `src/bit_facts.rs` — bit-level facts the proofs use.
- `tests/` — tests that run programs on the emulator.
- `app/main.rs` — a small program that loads a program, runs it step by step
  and logs every instruction.
