//! The register file.

use vstd::prelude::*;

verus! {

/// The registers of the processor.
#[derive(Clone, Copy, Debug, PartialEq, Eq, Structural)]
pub struct Registers {
    /// Accumulator.
    pub a: u8,
    /// Index register X.
    pub x: u8,
    /// Index register Y.
    pub y: u8,
    /// Stack pointer: the offset of the next free byte in the stack page.
    pub sp: u8,
    /// Program counter.
    pub pc: u16,
    /// Status word.
    pub status: u8,
}

impl Registers {
    /// Every register zero.
    pub fn new() -> (registers: Registers)
        ensures
            registers == (Registers { a: 0, x: 0, y: 0, sp: 0, pc: 0, status: 0 }),
    {
        Registers { a: 0, x: 0, y: 0, sp: 0, pc: 0, status: 0 }
    }
}

} // verus!
