//! An interpreter core for a CHIP-8-style virtual machine: sixteen 8-bit
//! registers, 4096 bytes of memory and a program counter, driven by a
//! fetch-decode-execute loop.

pub mod cpu;
pub mod opcode;
