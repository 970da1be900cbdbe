//! The instruction-execution core of a Game Boy (Sharp LR35902) emulator:
//! registers and flags, a flat 64 KiB memory, the opcode decoder, and the
//! execution units, each with a contract over a mathematical model of the
//! machine.

pub mod cpu;
pub mod memory_bus;
