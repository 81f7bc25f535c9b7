use vstd::prelude::*;
use crate::util::types::Address;

verus! {

/// Number of bytes in the address space.
pub const MEMORY_SIZE: usize = 0x10000;

/// Number of bytes in the stack page, which is also the address of its first byte.
pub const STACK_SIZE: usize = 0x100;

/// Address of the low byte of the reset vector.
pub const RESET_ADDRESS_LOW: Address = 0xFFFC;

/// Address of the high byte of the reset vector.
pub const RESET_ADDRESS_HIGH: Address = 0xFFFD;

/// Address of the low byte of the interrupt vector.
pub const INTERRUPT_ADDRESS_LOW: Address = 0xFFFE;

/// Address of the high byte of the interrupt vector.
pub const INTERRUPT_ADDRESS_HIGH: Address = 0xFFFF;

/// Mnemonic of the instruction that halts the processor.
pub const OPCODE_KIL: &'static str = "KIL";

} // verus!
