//! A software model of an 8-bit Game Boy-style CPU core: a register file with
//! flag semantics, a flat 64 KiB memory bus, a two-level opcode dispatcher with
//! cycle accounting, and a frame scheduler that accumulates cycles against a
//! fixed per-frame budget.

pub mod cpu;
pub mod gameboy;
pub mod instruction;
