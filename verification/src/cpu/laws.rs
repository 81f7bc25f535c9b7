//! Laws of the machine: what holds of every state, proved from the
//! definitions of the instructions.

use vstd::prelude::*;
use crate::cpu::addressing_mode::{signed, AddressingMode};
use crate::cpu::cpu_6502::{address_after, high_byte, low_byte, stack_address, word_of, Machine};
use crate::cpu::flag::{flag_of, lemma_flag_independence, lemma_flag_written, with_flag, Flag};
use crate::cpu::instruction::{instruction, Mnemonic};
use crate::cpu::register::Registers;
use crate::cpu::semantics::{decremented, incremented, negative, shifted_left, shifted_right};
use crate::util::constants::INTERRUPT_ADDRESS_LOW;
use crate::util::types::{Byte, Word};

verus! {

/// Flag independence: after one flag was written, to either value, it reads
/// as written and every other flag reads as before.
pub proof fn law_flag_independence(machine: Machine, written: Flag, value: bool, read: Flag)
    ensures
        machine.with_flag(written, value).flag(written) == value,
        read != written ==> machine.with_flag(written, value).flag(read) == machine.flag(read),
        machine.with_flag(written, value).registers == (Registers {
            status: machine.with_flag(written, value).registers.status,
            ..machine.registers
        }),
        machine.with_flag(written, value).memory == machine.memory,
{
    lemma_flag_written(machine.registers.status, written, value);
    if read != written {
        lemma_flag_independence(machine.registers.status, written, value, read);
    }
}

/// Stack round trip, one byte: a byte that was pushed is the byte that the
/// next pop returns, and the pop leaves the stack pointer where it was before
/// the push.
pub proof fn law_push_pop(machine: Machine, data: Byte)
    requires
        machine.wf(),
    ensures
        machine.pushed(data).top() == data,
        machine.pushed(data).popped().registers == machine.registers,
{
}

/// Stack round trip, two bytes: a 16-bit value that was pushed is the value
/// that popping two bytes returns, and the stack pointer is then where it
/// was before the push.
pub proof fn law_push_pop_word(machine: Machine, data: Word)
    requires
        machine.wf(),
    ensures
        machine.pushed_word(data).top_word() == data,
        machine.pushed_word(data).popped_word().registers == machine.registers,
{
}

/// A push writes one byte of the stack page and no other byte of the memory.
pub proof fn law_push_writes_stack_page(machine: Machine, data: Byte, address: int)
    requires
        machine.wf(),
        0 <= address < machine.memory.len(),
        !(0x100 <= address <= 0x1FF),
    ensures
        machine.pushed(data).memory[address] == machine.memory[address],
        machine.pushed(data).wf(),
{
}

/// No operation: a step over an opcode that stands for `Nop` moves the
/// program counter by the length of that instruction, and leaves every other
/// register, every flag and the memory as they were.
pub proof fn law_nop(machine: Machine)
    requires
        instruction(machine.opcode()).mnemonic == Mnemonic::Nop,
    ensures
        machine.step() == machine.advanced(instruction(machine.opcode()).length as int),
        !machine.halts(),
{
}

/// The one-byte no operation, opcode 0xEA: a step moves the program counter
/// one byte on and changes nothing else.
pub proof fn law_nop_single_byte(machine: Machine)
    requires
        machine.opcode() == 0xEA,
    ensures
        machine.step() == machine.advanced(1),
{
}

/// The table is total and well formed: every opcode has an instruction, which
/// names that opcode and is as long as its opcode and its operand bytes, from
/// one byte to three.
pub proof fn law_instruction_table(opcode: Byte)
    ensures
        instruction(opcode).opcode == opcode,
        instruction(opcode).length == 1 + instruction(opcode).addressing_mode.operand_length(),
        1 <= instruction(opcode).length <= 3,
{
}

/// Rotating left and then right gives back the operand and Carry.
pub proof fn law_rotate_round_trip(machine: Machine)
    ensures
        ({
            let rotated = machine.rol(AddressingMode::Accumulator);
            let restored = rotated.ror(AddressingMode::Accumulator);
            &&& restored.registers.a == machine.registers.a
            &&& restored.flag(Flag::Carry) == machine.flag(Flag::Carry)
        }),
{
    let a = machine.registers.a;
    let left = shifted_left(a, machine.flag(Flag::Carry));
    let shifted = machine.with_a(left).with_flag(Flag::Carry, negative(a));
    lemma_flag_written(machine.registers.status, Flag::Carry, negative(a));
    lemma_carry_outlasts_zero_negative(shifted.registers.status, left);
    let rotated = machine.rol(AddressingMode::Accumulator);
    let right = shifted_right(left, negative(a));
    let back = rotated.with_a(right).with_flag(Flag::Carry, left % 2 == 1);
    lemma_flag_written(rotated.registers.status, Flag::Carry, left % 2 == 1);
    lemma_carry_outlasts_zero_negative(back.registers.status, right);
}

/// Writing Zero and Negative leaves Carry as it was.
proof fn lemma_carry_outlasts_zero_negative(status: Byte, value: Byte)
    ensures
        flag_of(
            with_flag(with_flag(status, Flag::Zero, value == 0), Flag::Negative, negative(value)),
            Flag::Carry,
        ) == flag_of(status, Flag::Carry),
{
    lemma_flag_independence(status, Flag::Zero, value == 0, Flag::Carry);
    lemma_flag_independence(
        with_flag(status, Flag::Zero, value == 0),
        Flag::Negative,
        negative(value),
        Flag::Carry,
    );
}

/// Whether an operation decides itself where the program goes on.
pub open spec fn transfers_control(mnemonic: Mnemonic) -> bool {
    match mnemonic {
        Mnemonic::Bcc
        | Mnemonic::Bcs
        | Mnemonic::Beq
        | Mnemonic::Bmi
        | Mnemonic::Bne
        | Mnemonic::Bpl
        | Mnemonic::Bvc
        | Mnemonic::Bvs
        | Mnemonic::Brk
        | Mnemonic::Jmp
        | Mnemonic::Jsr
        | Mnemonic::Rti
        | Mnemonic::Rts => true,
        _ => false,
    }
}

/// Every instruction that is no branch, jump, call, return or interrupt
/// leaves the program counter at the instruction that follows it.
pub proof fn law_next_instruction(machine: Machine)
    requires
        !transfers_control(instruction(machine.opcode()).mnemonic),
    ensures
        machine.step().registers.pc == address_after(
            machine.registers.pc,
            instruction(machine.opcode()).length as int,
        ),
{
}

/// A branch that is not taken goes on at the instruction that follows it; one
/// that is taken goes where the displacement says, counted from there.
pub proof fn law_branch(machine: Machine, taken: bool)
    ensures
        machine.branched(AddressingMode::Relative, taken).registers.pc == address_after(
            machine.registers.pc,
            if taken {
                2 + signed(machine.operand_byte())
            } else {
                2
            },
        ),
{
}

/// No step changes the size of the memory.
pub proof fn law_memory_size(machine: Machine)
    requires
        machine.wf(),
    ensures
        machine.step().wf(),
{
}

/// Zero-page wraparound: an address in page 0 with an index added stays in
/// page 0.
pub proof fn law_zero_page(machine: Machine, mode: AddressingMode)
    requires
        mode == AddressingMode::ZeroPage || mode == AddressingMode::ZeroPageX || mode
            == AddressingMode::ZeroPageY,
    ensures
        mode.effective_address(machine) < 0x100,
{
}

/// The page bug of the indirect jump: when the pointer is the last byte of a
/// page, the high byte of the address comes from the first byte of that page,
/// not from the page that follows.
pub proof fn law_indirect_page_bug(machine: Machine)
    requires
        machine.operand_word() % 256 == 255,
    ensures
        AddressingMode::Indirect.effective_address(machine) == word_of(
            machine.memory[machine.operand_word() as int],
            machine.memory[machine.operand_word() - 255],
        ),
{
}

/// Subtracting with carry is adding the complement with carry.
pub proof fn law_subtract_is_add_complement(machine: Machine, value: Byte)
    ensures
        machine.with_difference(value) == machine.with_sum((255 - value) as Byte),
{
}

/// A compare writes the flags that a subtraction with Carry set writes, to
/// Carry, Zero and Negative, and keeps nothing else of it.
pub proof fn law_compare_is_subtract(machine: Machine, value: Byte)
    ensures
        ({
            let compared = machine.compared(machine.registers.a, value);
            let subtracted = machine.with_flag(Flag::Carry, true).with_difference(value);
            &&& compared.flag(Flag::Carry) == subtracted.flag(Flag::Carry)
            &&& compared.flag(Flag::Zero) == subtracted.flag(Flag::Zero)
            &&& compared.flag(Flag::Negative) == subtracted.flag(Flag::Negative)
            &&& compared.registers.a == machine.registers.a
            &&& compared.memory == machine.memory
        }),
{
    let a = machine.registers.a;
    let difference = a - value;
    let result = (difference % 256) as Byte;
    lemma_carry_zero_negative(
        machine.registers.status,
        a >= value,
        a == value,
        difference % 256 >= 128,
    );
    let set = machine.with_flag(Flag::Carry, true);
    lemma_flag_written(machine.registers.status, Flag::Carry, true);
    lemma_carry_zero_negative(set.registers.status, difference >= 0, result == 0, negative(result));
    let subtracted = set.with_flag(Flag::Carry, difference >= 0).with_flag(
        Flag::Zero,
        result == 0,
    ).with_flag(Flag::Negative, negative(result));
    let overflow = negative(a) != negative(value) && negative(a) != negative(result);
    lemma_flag_independence(subtracted.registers.status, Flag::Overflow, overflow, Flag::Carry);
    lemma_flag_independence(subtracted.registers.status, Flag::Overflow, overflow, Flag::Zero);
    lemma_flag_independence(subtracted.registers.status, Flag::Overflow, overflow, Flag::Negative);
}

/// Carry, Zero and Negative, written in that order, read as written.
proof fn lemma_carry_zero_negative(status: Byte, carry: bool, zero: bool, negative: bool)
    ensures
        ({
            let written = with_flag(
                with_flag(with_flag(status, Flag::Carry, carry), Flag::Zero, zero),
                Flag::Negative,
                negative,
            );
            &&& flag_of(written, Flag::Carry) == carry
            &&& flag_of(written, Flag::Zero) == zero
            &&& flag_of(written, Flag::Negative) == negative
        }),
{
    let first = with_flag(status, Flag::Carry, carry);
    let second = with_flag(first, Flag::Zero, zero);
    lemma_flag_written(status, Flag::Carry, carry);
    lemma_flag_written(first, Flag::Zero, zero);
    lemma_flag_written(second, Flag::Negative, negative);
    lemma_flag_independence(first, Flag::Zero, zero, Flag::Carry);
    lemma_flag_independence(second, Flag::Negative, negative, Flag::Carry);
    lemma_flag_independence(second, Flag::Negative, negative, Flag::Zero);
}

/// Increment and decrement leave Carry as it was.
pub proof fn law_increment_keeps_carry(machine: Machine, mode: AddressingMode)
    ensures
        machine.inc(mode).flag(Flag::Carry) == machine.flag(Flag::Carry),
        machine.dec(mode).flag(Flag::Carry) == machine.flag(Flag::Carry),
        machine.inx(mode).flag(Flag::Carry) == machine.flag(Flag::Carry),
        machine.iny(mode).flag(Flag::Carry) == machine.flag(Flag::Carry),
        machine.dex(mode).flag(Flag::Carry) == machine.flag(Flag::Carry),
        machine.dey(mode).flag(Flag::Carry) == machine.flag(Flag::Carry),
{
    let status = machine.registers.status;
    lemma_carry_outlasts_zero_negative(status, incremented(machine.operand(mode)));
    lemma_carry_outlasts_zero_negative(status, decremented(machine.operand(mode)));
    lemma_carry_outlasts_zero_negative(status, incremented(machine.registers.x));
    lemma_carry_outlasts_zero_negative(status, incremented(machine.registers.y));
    lemma_carry_outlasts_zero_negative(status, decremented(machine.registers.x));
    lemma_carry_outlasts_zero_negative(status, decremented(machine.registers.y));
}

/// Software interrupt: the program counter goes to the address in the
/// interrupt vector, as it was before the interrupt; Interrupt is set and
/// every other flag is as it was; the stack holds, from the old stack pointer
/// downwards, the high byte of the old program counter, its low byte, and the
/// old status word with Break set; the stack pointer is three lower.
pub proof fn law_software_interrupt(machine: Machine, mode: AddressingMode)
    requires
        machine.wf(),
    ensures
        ({
            let after = machine.brk(mode);
            let sp = machine.registers.sp;
            &&& after.registers.pc == machine.word_at(INTERRUPT_ADDRESS_LOW)
            &&& after.flag(Flag::Interrupt)
            &&& forall|flag: Flag|
                flag != Flag::Interrupt ==> after.flag(flag) == machine.flag(flag)
            &&& after.memory[stack_address(sp)] == high_byte(machine.registers.pc)
            &&& after.memory[stack_address(((sp + 255) % 256) as Byte)] == low_byte(
                machine.registers.pc,
            )
            &&& after.memory[stack_address(((sp + 254) % 256) as Byte)] == with_flag(
                machine.registers.status,
                Flag::Break,
                true,
            )
            &&& flag_of(after.memory[stack_address(((sp + 254) % 256) as Byte)], Flag::Break)
            &&& after.registers.sp == ((sp + 253) % 256) as Byte
            &&& after.registers.a == machine.registers.a
            &&& after.registers.x == machine.registers.x
            &&& after.registers.y == machine.registers.y
        }),
{
    let stacked = machine.pushed_word(machine.registers.pc).pushed(
        with_flag(machine.registers.status, Flag::Break, true),
    );
    lemma_flag_written(machine.registers.status, Flag::Break, true);
    lemma_flag_written(stacked.registers.status, Flag::Interrupt, true);
    assert forall|flag: Flag| flag != Flag::Interrupt implies machine.brk(mode).flag(flag)
        == machine.flag(flag) by {
        lemma_flag_independence(stacked.registers.status, Flag::Interrupt, true, flag);
    }
}

/// Call and return: a return that follows a call goes on at the instruction
/// after the call, with the stack pointer where it was before the call.
pub proof fn law_call_return(machine: Machine, mode: AddressingMode)
    requires
        machine.wf(),
    ensures
        machine.jsr(mode).rts(AddressingMode::Implied).registers == machine.past(mode).registers,
{
}

} // verus!
