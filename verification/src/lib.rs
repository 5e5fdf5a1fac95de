//! Instruction-set core of a Sharp SM83 (Game Boy CPU) emulator.
//!
//! The crate models the register file, the operand-addressing families,
//! the two-level opcode decoder (base space plus the 0xCB-prefixed
//! extended space) and the per-instruction execution semantics, including
//! flag arithmetic with nibble/byte-boundary carry behaviour.
//!
//! The memory collaborator is a flat 64 KiB byte store with little-endian
//! 16-bit accessors; everything beyond byte/word read and write (interrupts,
//! timers, pixels, cartridges) is out of scope.

pub mod alu;
pub mod cpu;
pub mod decode;
pub mod exec;
pub mod instructions;
pub mod laws;
pub mod memory;
