# nes_cpu

A 6502-style processor core as found in the NES, written in Verus and proved
against a mathematical model of the processor.

- `src/state.rs`: the model (`CpuState`), the memory map (RAM mirrored below
  0x2000, program ROM from 0x8000), and `stepped`, the meaning of every
  instruction the core carries out; `can_step` says when a step runs to its end.
- `src/cpu.rs`: the processor (`Cpu`), whose view is a `CpuState`; every
  operation, `step` among them, is proved to do what the model says.
- `src/laws.rs`: laws that span several operations (status byte round trip,
  push/pull, rotations, read after write, JSR/RTS, reset).
- `app/main.rs`: loads a ROM file and runs it until HLT, printing a trace line
  before each instruction.
