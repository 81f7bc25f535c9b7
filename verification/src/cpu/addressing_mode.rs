//! The addressing modes: the rules by which an instruction finds its operand
//! from the bytes that follow the opcode and from the registers.

use vstd::prelude::*;
use crate::cpu::cpu_6502::{address_after, make_word, next_address, word_of, Cpu6502, Machine};
use crate::util::types::{Address, Byte};

verus! {

#[derive(Clone, Copy, Debug, PartialEq, Eq, Structural)]
pub enum AddressingMode {
    /// No operand.
    Implied,
    /// The operand is the byte after the opcode.
    Immediate,
    /// The byte after the opcode is the address of the operand, in page 0.
    ZeroPage,
    /// As `ZeroPage`, with X added within page 0.
    ZeroPageX,
    /// As `ZeroPage`, with Y added within page 0.
    ZeroPageY,
    /// The two bytes after the opcode are the address of the operand.
    Absolute,
    /// As `Absolute`, with X added.
    AbsoluteX,
    /// As `Absolute`, with Y added.
    AbsoluteY,
    /// The two bytes after the opcode point at the address of the operand.
    Indirect,
    /// The byte after the opcode, with X added within page 0, points at the
    /// address of the operand.
    IndirectX,
    /// The byte after the opcode points, in page 0, at an address; the
    /// operand is Y bytes after it.
    IndirectY,
    /// The byte after the opcode is a signed displacement from the next
    /// instruction to the target of a branch.
    Relative,
    /// The operand is the accumulator.
    Accumulator,
}

/// The number that `byte` stands for as a signed displacement.
pub open spec fn signed(byte: Byte) -> int {
    if byte >= 128 {
        byte - 256
    } else {
        byte as int
    }
}

/// The address in page 0 that lies `index` bytes after `base`, going round
/// from the end of the page to its start.
pub open spec fn zero_page_indexed(base: Byte, index: Byte) -> Address {
    ((base + index) % 256) as Address
}

/// The address of the high byte of a 16-bit value whose low byte is at
/// `pointer`, as an indirect jump finds it: in the page of `pointer`, so
/// that it follows a low byte at the end of a page at the start of the same
/// page.
pub open spec fn same_page_successor(pointer: Address) -> Address {
    if pointer % 256 == 255 {
        (pointer - 255) as Address
    } else {
        (pointer + 1) as Address
    }
}

impl Machine {
    /// The first byte after the opcode that the program counter points at.
    pub open spec fn operand_byte(self) -> Byte {
        self.memory[address_after(self.registers.pc, 1) as int]
    }

    /// The 16-bit value in the two bytes after the opcode that the program
    /// counter points at.
    pub open spec fn operand_word(self) -> Address {
        self.word_at(address_after(self.registers.pc, 1))
    }
}

impl AddressingMode {
    /// The number of operand bytes that follow the opcode.
    pub open spec fn operand_length(self) -> int {
        match self {
            AddressingMode::Implied | AddressingMode::Accumulator => 0,
            AddressingMode::Immediate
            | AddressingMode::ZeroPage
            | AddressingMode::ZeroPageX
            | AddressingMode::ZeroPageY
            | AddressingMode::IndirectX
            | AddressingMode::IndirectY
            | AddressingMode::Relative => 1,
            AddressingMode::Absolute
            | AddressingMode::AbsoluteX
            | AddressingMode::AbsoluteY
            | AddressingMode::Indirect => 2,
        }
    }

    /// The name of the mode, as assembly source writes it.
    pub open spec fn text(self) -> Seq<char> {
        match self {
            AddressingMode::Implied => "implied"@,
            AddressingMode::Immediate => "immediate"@,
            AddressingMode::ZeroPage => "zero_page"@,
            AddressingMode::ZeroPageX => "zero_page_x"@,
            AddressingMode::ZeroPageY => "zero_page_y"@,
            AddressingMode::Absolute => "absolute"@,
            AddressingMode::AbsoluteX => "absolute_x"@,
            AddressingMode::AbsoluteY => "absolute_y"@,
            AddressingMode::Indirect => "indirect"@,
            AddressingMode::IndirectX => "indirect_x"@,
            AddressingMode::IndirectY => "indirect_y"@,
            AddressingMode::Relative => "relative"@,
            AddressingMode::Accumulator => "accumulator"@,
        }
    }

    /// The name of the mode, as assembly source writes it.
    pub fn name(&self) -> (name: &'static str)
        ensures
            name@ == self.text(),
    {
        match self {
            AddressingMode::Implied => "implied",
            AddressingMode::Immediate => "immediate",
            AddressingMode::ZeroPage => "zero_page",
            AddressingMode::ZeroPageX => "zero_page_x",
            AddressingMode::ZeroPageY => "zero_page_y",
            AddressingMode::Absolute => "absolute",
            AddressingMode::AbsoluteX => "absolute_x",
            AddressingMode::AbsoluteY => "absolute_y",
            AddressingMode::Indirect => "indirect",
            AddressingMode::IndirectX => "indirect_x",
            AddressingMode::IndirectY => "indirect_y",
            AddressingMode::Relative => "relative",
            AddressingMode::Accumulator => "accumulator",
        }
    }

    /// The name of the mode, as assembly source writes it.
    pub fn to_string(&self) -> (name: String)
        ensures
            name@ == self.text(),
    {
        self.name().to_owned()
    }

    /// The number of operand bytes that follow the opcode.
    pub fn operand_bytes(&self) -> (count: u8)
        ensures
            count == self.operand_length(),
    {
        match self {
            AddressingMode::Implied | AddressingMode::Accumulator => 0,
            AddressingMode::Immediate
            | AddressingMode::ZeroPage
            | AddressingMode::ZeroPageX
            | AddressingMode::ZeroPageY
            | AddressingMode::IndirectX
            | AddressingMode::IndirectY
            | AddressingMode::Relative => 1,
            AddressingMode::Absolute
            | AddressingMode::AbsoluteX
            | AddressingMode::AbsoluteY
            | AddressingMode::Indirect => 2,
        }
    }

    /// The address of the operand of the instruction whose opcode the program
    /// counter of `machine` points at. For a branch it is the address that the
    /// branch goes to when it is taken. `Implied` and `Accumulator` have no
    /// operand in memory: their 0 says nothing, and an instruction tells them
    /// by the mode.
    pub open spec fn effective_address(self, machine: Machine) -> Address {
        let registers = machine.registers;
        match self {
            AddressingMode::Implied | AddressingMode::Accumulator => 0,
            AddressingMode::Immediate => address_after(registers.pc, 1),
            AddressingMode::ZeroPage => machine.operand_byte() as Address,
            AddressingMode::ZeroPageX => zero_page_indexed(machine.operand_byte(), registers.x),
            AddressingMode::ZeroPageY => zero_page_indexed(machine.operand_byte(), registers.y),
            AddressingMode::Absolute => machine.operand_word(),
            AddressingMode::AbsoluteX => address_after(machine.operand_word(), registers.x as int),
            AddressingMode::AbsoluteY => address_after(machine.operand_word(), registers.y as int),
            AddressingMode::Indirect => {
                let pointer = machine.operand_word();
                word_of(
                    machine.memory[pointer as int],
                    machine.memory[same_page_successor(pointer) as int],
                ) as Address
            },
            AddressingMode::IndirectX => machine.word_at(
                zero_page_indexed(machine.operand_byte(), registers.x),
            ),
            AddressingMode::IndirectY => address_after(
                machine.word_at(machine.operand_byte() as Address),
                registers.y as int,
            ),
            AddressingMode::Relative => address_after(
                registers.pc,
                2 + signed(machine.operand_byte()),
            ),
        }
    }

    /// Resolves the operand of the instruction whose opcode the program
    /// counter points at, and moves the program counter over the operand
    /// bytes, to the last byte of the instruction.
    pub fn get_address(&self, cpu: &mut Cpu6502) -> (address: Address)
        ensures
            address == self.effective_address(old(cpu)@),
            final(cpu)@ == old(cpu)@.advanced(self.operand_length()),
    {
        match self {
            AddressingMode::Implied | AddressingMode::Accumulator => 0,
            AddressingMode::Immediate => {
                let operand = next_address(cpu.registers.pc);
                cpu.registers.pc = operand;
                operand
            },
            AddressingMode::ZeroPage => zero_page(cpu, 0),
            AddressingMode::ZeroPageX => zero_page(cpu, cpu.registers.x),
            AddressingMode::ZeroPageY => zero_page(cpu, cpu.registers.y),
            AddressingMode::Absolute => absolute(cpu, 0),
            AddressingMode::AbsoluteX => absolute(cpu, cpu.registers.x),
            AddressingMode::AbsoluteY => absolute(cpu, cpu.registers.y),
            AddressingMode::Indirect => indirect(cpu),
            AddressingMode::IndirectX => indexed_indirect(cpu),
            AddressingMode::IndirectY => indirect_indexed(cpu),
            AddressingMode::Relative => relative(cpu),
        }
    }
}

/// Fetches a one-byte address in page 0 and adds `index` to it within the
/// page.
fn zero_page(cpu: &mut Cpu6502, index: Byte) -> (address: Address)
    ensures
        address == zero_page_indexed(old(cpu)@.operand_byte(), index),
        final(cpu)@ == old(cpu)@.advanced(1),
{
    let base = cpu.read_byte(next_address(cpu.registers.pc));
    base.wrapping_add(index) as Address
}

/// Fetches a two-byte address and adds `index` to it, across pages and round
/// the end of the memory.
fn absolute(cpu: &mut Cpu6502, index: Byte) -> (address: Address)
    ensures
        address == address_after(old(cpu)@.operand_word(), index as int),
        final(cpu)@ == old(cpu)@.advanced(2),
{
    let base = cpu.read_word(next_address(cpu.registers.pc));
    base.wrapping_add(index as Address)
}

/// Fetches a two-byte pointer and reads the address it points at, the high
/// byte from the pointer's own page.
fn indirect(cpu: &mut Cpu6502) -> (address: Address)
    ensures
        address == AddressingMode::Indirect.effective_address(old(cpu)@),
        final(cpu)@ == old(cpu)@.advanced(2),
{
    let pointer = cpu.read_word(next_address(cpu.registers.pc));
    let low = cpu.memory.read(pointer);
    let high = if pointer % 256 == 255 {
        cpu.memory.read(pointer - 255)
    } else {
        cpu.memory.read(pointer + 1)
    };
    make_word(low, high)
}

/// Fetches a one-byte pointer into page 0, adds X to it within the page, and
/// reads the address it then points at.
fn indexed_indirect(cpu: &mut Cpu6502) -> (address: Address)
    ensures
        address == AddressingMode::IndirectX.effective_address(old(cpu)@),
        final(cpu)@ == old(cpu)@.advanced(1),
{
    let pointer = zero_page(cpu, cpu.registers.x);
    let low = cpu.memory.read(pointer);
    let high = cpu.memory.read(pointer + 1);
    make_word(low, high)
}

/// Fetches a one-byte pointer into page 0, reads the address it points at, and
/// adds Y to that address, across pages and round the end of the memory.
fn indirect_indexed(cpu: &mut Cpu6502) -> (address: Address)
    ensures
        address == AddressingMode::IndirectY.effective_address(old(cpu)@),
        final(cpu)@ == old(cpu)@.advanced(1),
{
    let pointer = zero_page(cpu, 0);
    let low = cpu.memory.read(pointer);
    let high = cpu.memory.read(pointer + 1);
    make_word(low, high).wrapping_add(cpu.registers.y as Address)
}

/// Fetches a signed displacement and applies it to the address of the next
/// instruction.
fn relative(cpu: &mut Cpu6502) -> (address: Address)
    ensures
        address == AddressingMode::Relative.effective_address(old(cpu)@),
        final(cpu)@ == old(cpu)@.advanced(1),
{
    let displacement = cpu.read_byte(next_address(cpu.registers.pc));
    let next = next_address(cpu.registers.pc);
    if displacement < 128 {
        next.wrapping_add(displacement as Address)
    } else {
        next.wrapping_sub(256 - displacement as Address)
    }
}

} // verus!
