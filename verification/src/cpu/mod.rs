pub mod flag;
pub mod register;
pub mod cpu_6502;
pub mod addressing_mode;
pub mod semantics;
pub mod function;
pub mod instruction;
pub mod laws;
