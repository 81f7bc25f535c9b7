//! The processor: a register file and the memory it owns.

use vstd::prelude::*;
use vstd::string::StringSliceAdditionalSpecFns;
use crate::cpu::flag::{flag_of, lemma_flag_independence, lemma_flag_written, with_flag, Flag};
use crate::cpu::instruction::{decode, execute, instruction, Mnemonic};
use crate::cpu::register::Registers;
use crate::memory::hexdump::{hex_byte, hex_word, push_all, push_hex_byte, push_hex_word};
use crate::memory::ram::{blank, Ram};
use crate::util::constants::{MEMORY_SIZE, RESET_ADDRESS_HIGH, RESET_ADDRESS_LOW, STACK_SIZE};
use crate::util::types::{Address, Byte, Word};

verus! {

/// What one step of the processor reports.
#[derive(Clone, Copy, Debug, PartialEq, Eq, Structural)]
pub enum ExecutionState {
    /// The instruction ran, and the next one can.
    Running,
    /// The instruction ran, and it halts the processor.
    Stopped,
    /// The program counter was outside the memory, and nothing ran.
    Error,
}

/// A processor: its registers, and the memory that it alone reads and
/// writes.
#[derive(Clone, Copy)]
pub struct Cpu6502 {
    pub registers: Registers,
    pub memory: Ram,
}

/// The mathematical state of a processor: its registers and the contents of
/// its memory, indexed by address.
pub struct Machine {
    pub registers: Registers,
    pub memory: Seq<Byte>,
}

impl View for Cpu6502 {
    type V = Machine;

    open spec fn view(&self) -> Machine {
        Machine { registers: self.registers, memory: self.memory@ }
    }
}

/// The 16-bit value whose low byte is `low` and whose high byte is `high`.
pub open spec fn word_of(low: Byte, high: Byte) -> int {
    low + 256 * high
}

/// The low byte of `word`.
pub open spec fn low_byte(word: Word) -> Byte {
    (word % 256) as Byte
}

/// The high byte of `word`.
pub open spec fn high_byte(word: Word) -> Byte {
    (word / 256) as Byte
}

/// The address `n` bytes after `address`, going round from the last address to
/// the first.
pub open spec fn address_after(address: Address, n: int) -> Address {
    ((address + n) % (MEMORY_SIZE as int)) as Address
}

/// The address in the stack page that the stack pointer `sp` selects.
pub open spec fn stack_address(sp: Byte) -> int {
    STACK_SIZE + sp
}

impl Machine {
    /// Every address has a byte.
    pub open spec fn wf(self) -> bool {
        self.memory.len() == MEMORY_SIZE
    }

    /// The 16-bit value stored at `address`, low byte first. The high byte of
    /// a value at the last address is at the first one.
    pub open spec fn word_at(self, address: Address) -> Word {
        word_of(
            self.memory[address as int],
            self.memory[address_after(address, 1) as int],
        ) as Word
    }

    /// This state with the program counter moved `n` bytes on.
    pub open spec fn advanced(self, n: int) -> Machine {
        Machine {
            registers: Registers { pc: address_after(self.registers.pc, n), ..self.registers },
            memory: self.memory,
        }
    }

    /// This state with `data` stored at `address`.
    pub open spec fn stored(self, address: Address, data: Byte) -> Machine {
        Machine { registers: self.registers, memory: self.memory.update(address as int, data) }
    }

    /// This state with the status word replaced.
    pub open spec fn with_status(self, status: Byte) -> Machine {
        Machine { registers: Registers { status, ..self.registers }, memory: self.memory }
    }

    /// This state after `data` was pushed: written where the stack pointer
    /// selects, and the stack pointer one lower, going round from 0 to 0xFF.
    pub open spec fn pushed(self, data: Byte) -> Machine {
        Machine {
            registers: Registers {
                sp: ((self.registers.sp + 255) % 256) as Byte,
                ..self.registers
            },
            memory: self.memory.update(stack_address(self.registers.sp), data),
        }
    }

    /// This state after one byte was popped: the stack pointer one higher,
    /// going round from 0xFF to 0.
    pub open spec fn popped(self) -> Machine {
        Machine {
            registers: Registers {
                sp: ((self.registers.sp + 1) % 256) as Byte,
                ..self.registers
            },
            memory: self.memory,
        }
    }

    /// The byte that the next pop returns.
    pub open spec fn top(self) -> Byte {
        self.memory[stack_address(self.popped().registers.sp)]
    }

    /// This state after the 16-bit `data` was pushed, high byte first.
    pub open spec fn pushed_word(self, data: Word) -> Machine {
        self.pushed(high_byte(data)).pushed(low_byte(data))
    }

    /// This state after a 16-bit value was popped.
    pub open spec fn popped_word(self) -> Machine {
        self.popped().popped()
    }

    /// The 16-bit value that popping two bytes returns, the low byte coming
    /// off first.
    pub open spec fn top_word(self) -> Word {
        word_of(self.top(), self.popped().top()) as Word
    }

    /// The opcode that the program counter points at.
    pub open spec fn opcode(self) -> Byte {
        self.memory[self.registers.pc as int]
    }

    /// Whether the instruction that the program counter points at halts the
    /// processor: the halt instruction and the software interrupt do.
    pub open spec fn halts(self) -> bool {
        let mnemonic = instruction(self.opcode()).mnemonic;
        mnemonic == Mnemonic::Kil || mnemonic == Mnemonic::Brk
    }

    /// This state after the instruction that the program counter points at
    /// ran.
    pub open spec fn step(self) -> Machine {
        let next = instruction(self.opcode());
        self.executed(next.mnemonic, next.addressing_mode)
    }
}

/// The registers as a line of text: the name of each and its value in
/// hexadecimal.
pub open spec fn register_text(registers: Registers) -> Seq<u8> {
    "A: ".spec_bytes() + hex_byte(registers.a) + " X: ".spec_bytes() + hex_byte(registers.x)
        + " Y: ".spec_bytes() + hex_byte(registers.y) + " SP: ".spec_bytes() + hex_byte(
        registers.sp,
    ) + " PC: ".spec_bytes() + hex_word(registers.pc) + " Status: ".spec_bytes() + hex_byte(
        registers.status,
    ) + "\n".spec_bytes()
}

impl Cpu6502 {
    /// A processor over `ram`, with every register zero.
    pub fn new(ram: Ram) -> (cpu: Cpu6502)
        ensures
            cpu@ == (Machine {
                registers: Registers { a: 0, x: 0, y: 0, sp: 0, pc: 0, status: 0 },
                memory: ram@,
            }),
    {
        Cpu6502 { registers: Registers::new(), memory: ram }
    }

    /// Every processor has a byte at every address.
    pub proof fn lemma_wf(&self)
        ensures
            self@.wf(),
    {
        self.memory.lemma_size();
    }

    /// Zeroes the accumulator, the index registers and the status word, points
    /// the stack pointer at the top of the stack page, and loads the program
    /// counter from the reset vector. The memory is left as it is.
    pub fn reset(&mut self)
        ensures
            final(self)@ == (Machine {
                registers: Registers {
                    a: 0,
                    x: 0,
                    y: 0,
                    sp: 0xFF,
                    pc: old(self)@.word_at(RESET_ADDRESS_LOW),
                    status: 0,
                },
                memory: old(self)@.memory,
            }),
    {
        let low = self.memory.read(RESET_ADDRESS_LOW);
        let high = self.memory.read(RESET_ADDRESS_HIGH);
        self.registers.a = 0;
        self.registers.x = 0;
        self.registers.y = 0;
        self.registers.sp = 0xFF;
        self.registers.status = 0;
        self.registers.pc = make_word(low, high);
    }

    /// The registers as a line of text, in ASCII.
    pub fn dump(&self) -> (text: Vec<u8>)
        ensures
            text@ == register_text(self.registers),
    {
        let mut text: Vec<u8> = Vec::new();
        push_all(&mut text, "A: ".as_bytes());
        push_hex_byte(&mut text, self.registers.a);
        push_all(&mut text, " X: ".as_bytes());
        push_hex_byte(&mut text, self.registers.x);
        push_all(&mut text, " Y: ".as_bytes());
        push_hex_byte(&mut text, self.registers.y);
        push_all(&mut text, " SP: ".as_bytes());
        push_hex_byte(&mut text, self.registers.sp);
        push_all(&mut text, " PC: ".as_bytes());
        push_hex_word(&mut text, self.registers.pc);
        push_all(&mut text, " Status: ".as_bytes());
        push_hex_byte(&mut text, self.registers.status);
        push_all(&mut text, "\n".as_bytes());
        text
    }

    /// Runs the instruction that the program counter points at. Reports
    /// `Stopped` after an instruction that halts the processor, else
    /// `Running`; `Error` is for a program counter outside the memory, which
    /// no program counter is.
    pub fn execute_instruction(&mut self) -> (state: ExecutionState)
        ensures
            final(self)@ == old(self)@.step(),
            state == if old(self)@.halts() {
                ExecutionState::Stopped
            } else {
                ExecutionState::Running
            },
    {
        if self.registers.pc as usize >= MEMORY_SIZE {
            return ExecutionState::Error;
        }
        let opcode = self.memory.read(self.registers.pc);
        let next = decode(opcode);
        execute(self, next.mnemonic, next.addressing_mode);
        match next.mnemonic {
            Mnemonic::Kil | Mnemonic::Brk => ExecutionState::Stopped,
            _ => ExecutionState::Running,
        }
    }

    /// Runs one instruction: `execute_instruction` by its short name.
    pub fn step(&mut self) -> (state: ExecutionState)
        ensures
            final(self)@ == old(self)@.step(),
            state == if old(self)@.halts() {
                ExecutionState::Stopped
            } else {
                ExecutionState::Running
            },
    {
        self.execute_instruction()
    }

    /// Fetches the byte at `address`, which moves the program counter one
    /// byte on.
    pub fn read_byte(&mut self, address: Address) -> (byte: Byte)
        ensures
            byte == old(self)@.memory[address as int],
            final(self)@ == old(self)@.advanced(1),
    {
        self.registers.pc = next_address(self.registers.pc);
        self.memory.read(address)
    }

    /// Fetches the 16-bit value at `address`, low byte first, which moves the
    /// program counter two bytes on.
    pub fn read_word(&mut self, address: Address) -> (word: Word)
        ensures
            word == old(self)@.word_at(address),
            final(self)@ == old(self)@.advanced(2),
    {
        let low = self.read_byte(address);
        let high = self.read_byte(next_address(address));
        make_word(low, high)
    }

    /// Stores `data` at `address`, which moves the program counter one byte on.
    pub fn write_byte(&mut self, address: Address, data: Byte)
        ensures
            final(self)@ == old(self)@.stored(address, data).advanced(1),
    {
        self.registers.pc = next_address(self.registers.pc);
        self.memory.write(address, data);
    }

    /// Stores the 16-bit `data` at `address`, low byte first, which moves the
    /// program counter two bytes on.
    pub fn write_word(&mut self, address: Address, data: Word)
        ensures
            final(self)@ == old(self)@.stored(address, low_byte(data)).stored(
                address_after(address, 1),
                high_byte(data),
            ).advanced(2),
    {
        self.write_byte(address, low_of(data));
        self.write_byte(next_address(address), high_of(data));
    }

    /// Sets `flag` where `value` is true and clears it where it is false.
    /// Every other flag, every register and the memory are left as they are.
    pub fn set_flag(&mut self, flag: Flag, value: bool)
        ensures
            final(self)@ == old(self)@.with_status(
                with_flag(old(self).registers.status, flag, value),
            ),
            final(self).get_flag_spec(flag) == value,
            forall|other: Flag|
                other != flag ==> final(self).get_flag_spec(other) == old(self).get_flag_spec(
                    other,
                ),
    {
        if value {
            self.registers.status = self.registers.status | flag.mask();
        } else {
            self.registers.status = self.registers.status & !flag.mask();
        }
        proof {
            lemma_flag_written(old(self).registers.status, flag, value);
            assert forall|other: Flag| other != flag implies self.get_flag_spec(other) == old(
                self,
            ).get_flag_spec(other) by {
                lemma_flag_independence(old(self).registers.status, flag, value, other);
            }
        }
    }

    /// Whether `flag` is set in the status word.
    pub open spec fn get_flag_spec(&self, flag: Flag) -> bool {
        flag_of(self.registers.status, flag)
    }

    /// Whether `flag` is set in the status word.
    #[verifier::when_used_as_spec(get_flag_spec)]
    pub fn get_flag(&self, flag: Flag) -> (set: bool)
        ensures
            set == self.get_flag_spec(flag),
    {
        (self.registers.status & flag.mask()) != 0
    }

    /// Pushes `data`: writes it where the stack pointer selects in the stack
    /// page, then moves the stack pointer one down, from 0 round to 0xFF.
    pub fn push_stack(&mut self, data: Byte)
        ensures
            final(self)@ == old(self)@.pushed(data),
    {
        self.memory.write(stack_slot(self.registers.sp), data);
        self.registers.sp = self.registers.sp.wrapping_sub(1);
    }

    /// Pops a byte: moves the stack pointer one up, from 0xFF round to 0, then
    /// reads where it selects in the stack page.
    pub fn pop_stack(&mut self) -> (data: Byte)
        ensures
            data == old(self)@.top(),
            final(self)@ == old(self)@.popped(),
    {
        self.registers.sp = self.registers.sp.wrapping_add(1);
        self.memory.read(stack_slot(self.registers.sp))
    }

    /// Pushes the 16-bit `data`, the high byte first.
    pub fn push_word_stack(&mut self, data: Word)
        ensures
            final(self)@ == old(self)@.pushed_word(data),
    {
        self.push_stack(high_of(data));
        self.push_stack(low_of(data));
    }

    /// Pops a 16-bit value, the low byte first.
    pub fn pop_word_stack(&mut self) -> (data: Word)
        ensures
            data == old(self)@.top_word(),
            final(self)@ == old(self)@.popped_word(),
    {
        let low = self.pop_stack();
        let high = self.pop_stack();
        make_word(low, high)
    }
}

/// A processor as it is after power-on and a reset over a blank memory: every
/// register and every byte of memory zero, but for the stack pointer at the
/// top of the stack page.
pub fn get_cpu() -> (cpu: Cpu6502)
    ensures
        cpu@ == (Machine {
            registers: Registers { a: 0, x: 0, y: 0, sp: 0xFF, pc: 0, status: 0 },
            memory: blank(),
        }),
{
    let ram = Ram::new();
    let mut cpu = Cpu6502::new(ram);
    cpu.reset();
    cpu.memory.reset();
    cpu
}

/// The 16-bit value made of two bytes.
pub fn make_word(low: Byte, high: Byte) -> (word: Word)
    ensures
        word == word_of(low, high),
{
    low as Word + (high as Word) * 256
}

/// The low byte of a 16-bit value.
pub fn low_of(word: Word) -> (byte: Byte)
    ensures
        byte == low_byte(word),
{
    (word % 256) as Byte
}

/// The high byte of a 16-bit value.
pub fn high_of(word: Word) -> (byte: Byte)
    ensures
        byte == high_byte(word),
{
    (word / 256) as Byte
}

/// The address after `address`; the first one after the last.
pub fn next_address(address: Address) -> (next: Address)
    ensures
        next == address_after(address, 1),
{
    address.wrapping_add(1)
}

/// The address in the stack page that the stack pointer `sp` selects.
pub fn stack_slot(sp: Byte) -> (address: Address)
    ensures
        address == stack_address(sp),
{
    STACK_SIZE as Address + sp as Address
}

} // verus!
