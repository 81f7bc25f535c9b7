//! The machine as a driver holds it: a memory to prepare a program in, and a
//! processor that runs on its own copy of that memory.

use vstd::prelude::*;
use crate::cpu::cpu_6502::{register_text, Cpu6502, Machine};
use crate::cpu::register::Registers;
use crate::memory::hexdump::{dump_text, ROWS};
use crate::memory::ram::{blank, loaded, Ram};
use crate::util::constants::{MEMORY_SIZE, RESET_ADDRESS_LOW};
use crate::util::types::{Address, Byte};

verus! {

/// The lines to a keyboard and a display.
#[derive(Clone, Copy)]
pub struct InputOutput {
    keyboard: [bool; 16],
    display: [bool; 2048],
}

impl InputOutput {
    /// No key down, no pixel lit.
    pub fn new() -> (io: InputOutput)
        ensures
            forall|i: int| 0 <= i < 16 ==> !io.key(i),
            forall|i: int| 0 <= i < 2048 ==> !io.pixel(i),
    {
        InputOutput { keyboard: [false; 16], display: [false; 2048] }
    }

    /// Whether key `i` is down.
    pub closed spec fn key(self, i: int) -> bool {
        self.keyboard@[i]
    }

    /// Whether pixel `i` is lit.
    pub closed spec fn pixel(self, i: int) -> bool {
        self.display@[i]
    }
}

/// A memory to prepare programs in, a processor, and the lines to keyboard
/// and display.
#[derive(Clone, Copy)]
pub struct Emulator {
    memory: Ram,
    pub cpu: Cpu6502,
    io: InputOutput,
}

impl Emulator {
    /// The contents of the memory that programs are prepared in.
    pub closed spec fn staged(&self) -> Seq<Byte> {
        self.memory@
    }

    /// The state of the processor.
    pub closed spec fn processor(&self) -> Machine {
        self.cpu@
    }

    /// The lines to keyboard and display.
    pub closed spec fn lines(&self) -> InputOutput {
        self.io
    }

    /// A blank memory, a processor with every register zero over a blank
    /// memory of its own, and lines on which no key is down and no pixel lit.
    pub fn new() -> (emulator: Emulator)
        ensures
            emulator.staged() == blank(),
            emulator.processor() == (Machine {
                registers: Registers { a: 0, x: 0, y: 0, sp: 0, pc: 0, status: 0 },
                memory: blank(),
            }),
            forall|i: int| 0 <= i < 16 ==> !emulator.lines().key(i),
            forall|i: int| 0 <= i < 2048 ==> !emulator.lines().pixel(i),
    {
        let ram = Ram::new();
        Emulator { memory: ram, cpu: Cpu6502::new(ram), io: InputOutput::new() }
    }

    /// Blanks the prepared memory and resets the processor, whose own memory
    /// is left as it is.
    pub fn reset(&mut self)
        ensures
            final(self).staged() == blank(),
            final(self).processor() == (Machine {
                registers: Registers {
                    a: 0,
                    x: 0,
                    y: 0,
                    sp: 0xFF,
                    pc: old(self).processor().word_at(RESET_ADDRESS_LOW),
                    status: 0,
                },
                memory: old(self).processor().memory,
            }),
    {
        self.memory.reset();
        self.cpu.reset();
    }

    /// Gives the processor a copy of the prepared memory.
    pub fn flash_ram(&mut self)
        ensures
            final(self).staged() == old(self).staged(),
            final(self).processor() == (Machine {
                registers: old(self).processor().registers,
                memory: old(self).staged(),
            }),
    {
        self.cpu.memory = self.memory;
    }

    /// Copies `data` into the prepared memory from `offset` on. The processor
    /// does not see it before the next `flash_ram`.
    pub fn load(&mut self, data: &[u8], offset: Address)
        ensures
            final(self).staged() == loaded(old(self).staged(), data@, offset),
            final(self).processor() == old(self).processor(),
    {
        self.memory.load(data, offset);
    }

    /// The `len` bytes of the prepared memory from `offset` on.
    pub fn dump(&self, offset: Address, len: usize) -> (bytes: Vec<u8>)
        requires
            offset + len <= MEMORY_SIZE,
        ensures
            bytes@ == self.staged().subrange(offset as int, offset + len),
    {
        self.memory.dump(offset, len)
    }

    /// The prepared memory as text: a line for each row of sixteen bytes that
    /// are not all zero.
    pub fn hexdump(&self) -> (text: Vec<u8>)
        ensures
            text@ == dump_text(self.staged(), ROWS as int),
    {
        self.memory.hexdump()
    }

    /// The registers of the processor as a line of text.
    pub fn dump_cpu(&self) -> (text: Vec<u8>)
        ensures
            text@ == register_text(self.processor().registers),
    {
        self.cpu.dump()
    }
}

} // verus!
