//! An emulator of the 6502 family of 8-bit microprocessors: the memory, the
//! register file and status flags, the addressing modes, the instruction table
//! and the fetch-decode-execute cycle, each with a contract that Verus proves.

pub mod util;
pub mod memory;
pub mod cpu;
pub mod emulator;
pub mod assembler;
