//! A cycle-counting emulator core for the 6502-family processor found in
//! early cartridge-based home consoles.
//!
//! The crate models a 64KiB address space, the register and flag state of
//! the processor, a descending stack confined to one page, and the decode /
//! execute engine for the instruction families this core supports (loads,
//! stores, branches, flag operations, stack operations, subroutine linkage,
//! jumps, bit test and no-op).  Every executed instruction advances a cycle
//! counter whose value matches the reference hardware's timing, and yields a
//! trace line suitable for golden-log conformance checking.

pub mod cpu;
pub mod error;
pub mod ines;
pub mod opcode;
pub mod text;
