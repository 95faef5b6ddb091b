//! A 6502-style processor core, as found in the NES: registers, flags, a
//! mirrored internal RAM, a program ROM loaded from a ROM file, and a subset
//! of the instruction set, stepped one instruction at a time.
pub mod state;
pub mod cpu;
pub mod laws;
pub mod instruction_laws;
