//! The instructions. Each takes the processor with the program counter at its
//! opcode, and the addressing mode that the opcode stands for.

use vstd::prelude::*;
use crate::cpu::addressing_mode::AddressingMode;
use crate::cpu::cpu_6502::{high_of, next_address, Cpu6502};
use crate::cpu::flag::Flag;
use crate::cpu::semantics::{high_plus_one, negative, shifted_left, shifted_right};
use crate::util::constants::INTERRUPT_ADDRESS_LOW;
use crate::util::types::{Address, Byte};

verus! {

/// Fetches the operand and moves the program counter to the next
/// instruction.
fn fetch(cpu: &mut Cpu6502, mode: AddressingMode) -> (value: Byte)
    ensures
        value == old(cpu)@.operand(mode),
        final(cpu)@ == old(cpu)@.past(mode),
{
    let address = mode.get_address(cpu);
    match mode {
        AddressingMode::Accumulator => {
            cpu.registers.pc = next_address(cpu.registers.pc);
            cpu.registers.a
        },
        AddressingMode::Implied => {
            cpu.registers.pc = next_address(cpu.registers.pc);
            0
        },
        _ => cpu.read_byte(address),
    }
}

/// Finds the operand of an instruction that will write it back: its address
/// and its value. The program counter moves over the operand bytes.
fn locate(cpu: &mut Cpu6502, mode: AddressingMode) -> (found: (Address, Byte))
    ensures
        found.0 == mode.effective_address(old(cpu)@),
        found.1 == old(cpu)@.operand(mode),
        final(cpu)@ == old(cpu)@.advanced(mode.operand_length()),
{
    let address = mode.get_address(cpu);
    let value = match mode {
        AddressingMode::Accumulator => cpu.registers.a,
        AddressingMode::Implied => 0,
        _ => cpu.memory.read(address),
    };
    (address, value)
}

/// Writes `value` where the operand is, and moves the program counter from
/// the last byte of the instruction to the next instruction.
fn write_back(cpu: &mut Cpu6502, mode: AddressingMode, address: Address, value: Byte)
    ensures
        final(cpu)@ == (match mode {
            AddressingMode::Accumulator => old(cpu)@.with_a(value),
            AddressingMode::Implied => old(cpu)@,
            _ => old(cpu)@.stored(address, value),
        }).advanced(1),
{
    match mode {
        AddressingMode::Accumulator => {
            cpu.registers.a = value;
            cpu.registers.pc = next_address(cpu.registers.pc);
        },
        AddressingMode::Implied => {
            cpu.registers.pc = next_address(cpu.registers.pc);
        },
        _ => cpu.write_byte(address, value),
    }
}

/// Moves the program counter to the next instruction.
fn skip(cpu: &mut Cpu6502, mode: AddressingMode)
    ensures
        final(cpu)@ == old(cpu)@.past(mode),
{
    let _ = mode.get_address(cpu);
    cpu.registers.pc = next_address(cpu.registers.pc);
}

/// Writes Zero and Negative from `value`.
fn set_zero_negative(cpu: &mut Cpu6502, value: Byte)
    ensures
        final(cpu)@ == old(cpu)@.with_zero_negative(value),
{
    cpu.set_flag(Flag::Zero, value == 0);
    cpu.set_flag(Flag::Negative, value >= 128);
}

/// The sign test on three bytes at once, as the overflow of an addition is
/// found: bit 7 of `(a ^ result) & (value ^ result)` is set when `a` and
/// `value` agree in sign and `result` differs from them.
proof fn lemma_sign_bits(a: Byte, value: Byte, result: Byte)
    by (bit_vector)
    ensures
        ((a ^ result) & (value ^ result) & 0x80 != 0) == ((a >= 128) == (value >= 128) && (a
            >= 128) != (result >= 128)),
{
}

/// Adds `value` and Carry to the accumulator.
fn add_with_carry(cpu: &mut Cpu6502, value: Byte)
    ensures
        final(cpu)@ == old(cpu)@.with_sum(value),
{
    let a = cpu.registers.a;
    let carry: u16 = if cpu.get_flag(Flag::Carry) {
        1
    } else {
        0
    };
    let sum: u16 = a as u16 + value as u16 + carry;
    let result: Byte = (sum % 256) as Byte;
    proof {
        lemma_sign_bits(a, value, result);
    }
    cpu.set_flag(Flag::Carry, sum > 255);
    cpu.set_flag(Flag::Zero, result == 0);
    cpu.set_flag(Flag::Negative, result >= 128);
    cpu.set_flag(Flag::Overflow, (a ^ result) & (value ^ result) & 0x80 != 0);
    cpu.registers.a = result;
}

/// Subtracts `value` and the borrow, which is the inverse of Carry, from the
/// accumulator: by adding the complement of `value`.
fn subtract_with_carry(cpu: &mut Cpu6502, value: Byte)
    ensures
        final(cpu)@ == old(cpu)@.with_difference(value),
{
    add_with_carry(cpu, 255 - value);
}

/// Writes the flags of `register` - `value`.
fn compare(cpu: &mut Cpu6502, register: Byte, value: Byte)
    ensures
        final(cpu)@ == old(cpu)@.compared(register, value),
{
    let result = register.wrapping_sub(value);
    cpu.set_flag(Flag::Carry, register >= value);
    cpu.set_flag(Flag::Zero, result == 0);
    cpu.set_flag(Flag::Negative, result >= 128);
}

/// Shifts the operand one bit to the left, `bit` coming in, and writes Carry
/// from the bit that leaves. Returns the shifted operand.
fn shift_left(cpu: &mut Cpu6502, mode: AddressingMode, bit: bool) -> (result: Byte)
    ensures
        result == shifted_left(old(cpu)@.operand(mode), bit),
        final(cpu)@ == old(cpu)@.with_operand(mode, result).with_flag(
            Flag::Carry,
            negative(old(cpu)@.operand(mode)),
        ).past(mode),
{
    let (address, value) = locate(cpu, mode);
    let result: Byte = ((value as u16 * 2 + if bit { 1u16 } else { 0u16 }) % 256) as Byte;
    write_back(cpu, mode, address, result);
    cpu.set_flag(Flag::Carry, value >= 128);
    result
}

/// Shifts the operand one bit to the right, `bit` coming in, and writes Carry
/// from the bit that leaves. Returns the shifted operand.
fn shift_right(cpu: &mut Cpu6502, mode: AddressingMode, bit: bool) -> (result: Byte)
    ensures
        result == shifted_right(old(cpu)@.operand(mode), bit),
        final(cpu)@ == old(cpu)@.with_operand(mode, result).with_flag(
            Flag::Carry,
            old(cpu)@.operand(mode) % 2 == 1,
        ).past(mode),
{
    let (address, value) = locate(cpu, mode);
    let result: Byte = value / 2 + if bit { 128u8 } else { 0u8 };
    write_back(cpu, mode, address, result);
    cpu.set_flag(Flag::Carry, value % 2 == 1);
    result
}

/// Goes to the operand's address when `taken`, else to the next instruction.
fn branch(cpu: &mut Cpu6502, mode: AddressingMode, taken: bool)
    ensures
        final(cpu)@ == old(cpu)@.branched(mode, taken),
{
    let address = mode.get_address(cpu);
    if taken {
        cpu.registers.pc = address;
    } else {
        cpu.registers.pc = next_address(cpu.registers.pc);
    }
}

/// The high byte of `address`, plus one.
fn high_byte_plus_one(address: Address) -> (byte: Byte)
    ensures
        byte == high_plus_one(address),
{
    high_of(address).wrapping_add(1)
}

/// Add with carry.
pub fn adc(cpu: &mut Cpu6502, mode: AddressingMode)
    ensures
        final(cpu)@ == old(cpu)@.adc(mode),
{
    let value = fetch(cpu, mode);
    add_with_carry(cpu, value);
}

/// Software interrupt. The step that runs it reports that the processor has
/// stopped.
pub fn brk(cpu: &mut Cpu6502, mode: AddressingMode)
    ensures
        final(cpu)@ == old(cpu)@.brk(mode),
{
    let pc = cpu.registers.pc;
    cpu.push_word_stack(pc);
    cpu.push_stack(cpu.registers.status | Flag::Break.mask());
    cpu.set_flag(Flag::Interrupt, true);
    let target = cpu.read_word(INTERRUPT_ADDRESS_LOW);
    cpu.registers.pc = target;
}

/// Compare the accumulator with the operand.
pub fn cmp(cpu: &mut Cpu6502, mode: AddressingMode)
    ensures
        final(cpu)@ == old(cpu)@.cmp(mode),
{
    let value = fetch(cpu, mode);
    compare(cpu, cpu.registers.a, value);
}

/// Decrement the operand.
pub fn dec(cpu: &mut Cpu6502, mode: AddressingMode)
    ensures
        final(cpu)@ == old(cpu)@.dec(mode),
{
    let (address, value) = locate(cpu, mode);
    let result = value.wrapping_sub(1);
    write_back(cpu, mode, address, result);
    set_zero_negative(cpu, result);
}

/// Exclusive-OR the operand into the accumulator.
pub fn eor(cpu: &mut Cpu6502, mode: AddressingMode)
    ensures
        final(cpu)@ == old(cpu)@.eor(mode),
{
    let value = fetch(cpu, mode);
    let result = cpu.registers.a ^ value;
    cpu.registers.a = result;
    set_zero_negative(cpu, result);
}

/// Increment the operand.
pub fn inc(cpu: &mut Cpu6502, mode: AddressingMode)
    ensures
        final(cpu)@ == old(cpu)@.inc(mode),
{
    let (address, value) = locate(cpu, mode);
    let result = value.wrapping_add(1);
    write_back(cpu, mode, address, result);
    set_zero_negative(cpu, result);
}

/// Jump.
pub fn jmp(cpu: &mut Cpu6502, mode: AddressingMode)
    ensures
        final(cpu)@ == old(cpu)@.jmp(mode),
{
    let address = mode.get_address(cpu);
    cpu.registers.pc = address;
}

/// Load the accumulator.
pub fn lda(cpu: &mut Cpu6502, mode: AddressingMode)
    ensures
        final(cpu)@ == old(cpu)@.lda(mode),
{
    let value = fetch(cpu, mode);
    cpu.registers.a = value;
    set_zero_negative(cpu, value);
}

/// Load X.
pub fn ldx(cpu: &mut Cpu6502, mode: AddressingMode)
    ensures
        final(cpu)@ == old(cpu)@.ldx(mode),
{
    let value = fetch(cpu, mode);
    cpu.registers.x = value;
    set_zero_negative(cpu, value);
}

/// Load Y.
pub fn ldy(cpu: &mut Cpu6502, mode: AddressingMode)
    ensures
        final(cpu)@ == old(cpu)@.ldy(mode),
{
    let value = fetch(cpu, mode);
    cpu.registers.y = value;
    set_zero_negative(cpu, value);
}

/// Shift the operand right.
pub fn lsr(cpu: &mut Cpu6502, mode: AddressingMode)
    ensures
        final(cpu)@ == old(cpu)@.lsr(mode),
{
    let result = shift_right(cpu, mode, false);
    set_zero_negative(cpu, result);
}

/// OR the operand into the accumulator.
pub fn ora(cpu: &mut Cpu6502, mode: AddressingMode)
    ensures
        final(cpu)@ == old(cpu)@.ora(mode),
{
    let value = fetch(cpu, mode);
    let result = cpu.registers.a | value;
    cpu.registers.a = result;
    set_zero_negative(cpu, result);
}

/// Push the accumulator.
pub fn pha(cpu: &mut Cpu6502, mode: AddressingMode)
    ensures
        final(cpu)@ == old(cpu)@.pha(mode),
{
    cpu.push_stack(cpu.registers.a);
    skip(cpu, mode);
}

/// Push the status word, with Break set in the copy.
pub fn php(cpu: &mut Cpu6502, mode: AddressingMode)
    ensures
        final(cpu)@ == old(cpu)@.php(mode),
{
    cpu.push_stack(cpu.registers.status | Flag::Break.mask());
    skip(cpu, mode);
}

/// Pull the accumulator.
pub fn pla(cpu: &mut Cpu6502, mode: AddressingMode)
    ensures
        final(cpu)@ == old(cpu)@.pla(mode),
{
    let value = cpu.pop_stack();
    cpu.registers.a = value;
    set_zero_negative(cpu, value);
    skip(cpu, mode);
}

/// Pull the status word.
pub fn plp(cpu: &mut Cpu6502, mode: AddressingMode)
    ensures
        final(cpu)@ == old(cpu)@.plp(mode),
{
    let status = cpu.pop_stack();
    cpu.registers.status = status;
    skip(cpu, mode);
}

/// Rotate the operand left through Carry.
pub fn rol(cpu: &mut Cpu6502, mode: AddressingMode)
    ensures
        final(cpu)@ == old(cpu)@.rol(mode),
{
    let carry = cpu.get_flag(Flag::Carry);
    let result = shift_left(cpu, mode, carry);
    set_zero_negative(cpu, result);
}

/// Rotate the operand right through Carry.
pub fn ror(cpu: &mut Cpu6502, mode: AddressingMode)
    ensures
        final(cpu)@ == old(cpu)@.ror(mode),
{
    let carry = cpu.get_flag(Flag::Carry);
    let result = shift_right(cpu, mode, carry);
    set_zero_negative(cpu, result);
}

/// Return from interrupt.
pub fn rti(cpu: &mut Cpu6502, mode: AddressingMode)
    ensures
        final(cpu)@ == old(cpu)@.rti(mode),
{
    let status = cpu.pop_stack();
    cpu.registers.status = status;
    let address = cpu.pop_word_stack();
    cpu.registers.pc = address;
}

/// Return from subroutine.
pub fn rts(cpu: &mut Cpu6502, mode: AddressingMode)
    ensures
        final(cpu)@ == old(cpu)@.rts(mode),
{
    let address = cpu.pop_word_stack();
    cpu.registers.pc = next_address(address);
}

/// Subtract with carry.
pub fn sbc(cpu: &mut Cpu6502, mode: AddressingMode)
    ensures
        final(cpu)@ == old(cpu)@.sbc(mode),
{
    let value = fetch(cpu, mode);
    subtract_with_carry(cpu, value);
}

/// Store the accumulator.
pub fn sta(cpu: &mut Cpu6502, mode: AddressingMode)
    ensures
        final(cpu)@ == old(cpu)@.sta(mode),
{
    let address = mode.get_address(cpu);
    write_back(cpu, mode, address, cpu.registers.a);
}

/// Store X.
pub fn stx(cpu: &mut Cpu6502, mode: AddressingMode)
    ensures
        final(cpu)@ == old(cpu)@.stx(mode),
{
    let address = mode.get_address(cpu);
    write_back(cpu, mode, address, cpu.registers.x);
}

/// Store Y.
pub fn sty(cpu: &mut Cpu6502, mode: AddressingMode)
    ensures
        final(cpu)@ == old(cpu)@.sty(mode),
{
    let address = mode.get_address(cpu);
    write_back(cpu, mode, address, cpu.registers.y);
}

/// Transfer the accumulator to X.
pub fn tax(cpu: &mut Cpu6502, mode: AddressingMode)
    ensures
        final(cpu)@ == old(cpu)@.tax(mode),
{
    let value = cpu.registers.a;
    cpu.registers.x = value;
    set_zero_negative(cpu, value);
    skip(cpu, mode);
}

/// Transfer the accumulator to Y.
pub fn tay(cpu: &mut Cpu6502, mode: AddressingMode)
    ensures
        final(cpu)@ == old(cpu)@.tay(mode),
{
    let value = cpu.registers.a;
    cpu.registers.y = value;
    set_zero_negative(cpu, value);
    skip(cpu, mode);
}

/// Transfer the stack pointer to X.
pub fn tsx(cpu: &mut Cpu6502, mode: AddressingMode)
    ensures
        final(cpu)@ == old(cpu)@.tsx(mode),
{
    let value = cpu.registers.sp;
    cpu.registers.x = value;
    set_zero_negative(cpu, value);
    skip(cpu, mode);
}

/// Transfer X to the accumulator.
pub fn txa(cpu: &mut Cpu6502, mode: AddressingMode)
    ensures
        final(cpu)@ == old(cpu)@.txa(mode),
{
    let value = cpu.registers.x;
    cpu.registers.a = value;
    set_zero_negative(cpu, value);
    skip(cpu, mode);
}

/// Transfer X to the stack pointer. No flag is written.
pub fn txs(cpu: &mut Cpu6502, mode: AddressingMode)
    ensures
        final(cpu)@ == old(cpu)@.txs(mode),
{
    let value = cpu.registers.x;
    cpu.registers.sp = value;
    skip(cpu, mode);
}

/// Transfer Y to the accumulator.
pub fn tya(cpu: &mut Cpu6502, mode: AddressingMode)
    ensures
        final(cpu)@ == old(cpu)@.tya(mode),
{
    let value = cpu.registers.y;
    cpu.registers.a = value;
    set_zero_negative(cpu, value);
    skip(cpu, mode);
}

/// Branch if Carry is clear.
pub fn bcc(cpu: &mut Cpu6502, mode: AddressingMode)
    ensures
        final(cpu)@ == old(cpu)@.bcc(mode),
{
    let taken = !cpu.get_flag(Flag::Carry);
    branch(cpu, mode, taken);
}

/// Branch if Carry is set.
pub fn bcs(cpu: &mut Cpu6502, mode: AddressingMode)
    ensures
        final(cpu)@ == old(cpu)@.bcs(mode),
{
    let taken = cpu.get_flag(Flag::Carry);
    branch(cpu, mode, taken);
}

/// Branch if Zero is set.
pub fn beq(cpu: &mut Cpu6502, mode: AddressingMode)
    ensures
        final(cpu)@ == old(cpu)@.beq(mode),
{
    let taken = cpu.get_flag(Flag::Zero);
    branch(cpu, mode, taken);
}

/// Branch if Negative is set.
pub fn bmi(cpu: &mut Cpu6502, mode: AddressingMode)
    ensures
        final(cpu)@ == old(cpu)@.bmi(mode),
{
    let taken = cpu.get_flag(Flag::Negative);
    branch(cpu, mode, taken);
}

/// Branch if Zero is clear.
pub fn bne(cpu: &mut Cpu6502, mode: AddressingMode)
    ensures
        final(cpu)@ == old(cpu)@.bne(mode),
{
    let taken = !cpu.get_flag(Flag::Zero);
    branch(cpu, mode, taken);
}

/// Branch if Negative is clear.
pub fn bpl(cpu: &mut Cpu6502, mode: AddressingMode)
    ensures
        final(cpu)@ == old(cpu)@.bpl(mode),
{
    let taken = !cpu.get_flag(Flag::Negative);
    branch(cpu, mode, taken);
}

/// Branch if Overflow is clear.
pub fn bvc(cpu: &mut Cpu6502, mode: AddressingMode)
    ensures
        final(cpu)@ == old(cpu)@.bvc(mode),
{
    let taken = !cpu.get_flag(Flag::Overflow);
    branch(cpu, mode, taken);
}

/// Branch if Overflow is set.
pub fn bvs(cpu: &mut Cpu6502, mode: AddressingMode)
    ensures
        final(cpu)@ == old(cpu)@.bvs(mode),
{
    let taken = cpu.get_flag(Flag::Overflow);
    branch(cpu, mode, taken);
}

/// Clear Carry.
pub fn clc(cpu: &mut Cpu6502, mode: AddressingMode)
    ensures
        final(cpu)@ == old(cpu)@.clc(mode),
{
    cpu.set_flag(Flag::Carry, false);
    skip(cpu, mode);
}

/// Clear Decimal.
pub fn cld(cpu: &mut Cpu6502, mode: AddressingMode)
    ensures
        final(cpu)@ == old(cpu)@.cld(mode),
{
    cpu.set_flag(Flag::Decimal, false);
    skip(cpu, mode);
}

/// Clear Interrupt.
pub fn cli(cpu: &mut Cpu6502, mode: AddressingMode)
    ensures
        final(cpu)@ == old(cpu)@.cli(mode),
{
    cpu.set_flag(Flag::Interrupt, false);
    skip(cpu, mode);
}

/// Clear Overflow.
pub fn clv(cpu: &mut Cpu6502, mode: AddressingMode)
    ensures
        final(cpu)@ == old(cpu)@.clv(mode),
{
    cpu.set_flag(Flag::Overflow, false);
    skip(cpu, mode);
}

/// Set Carry.
pub fn sec(cpu: &mut Cpu6502, mode: AddressingMode)
    ensures
        final(cpu)@ == old(cpu)@.sec(mode),
{
    cpu.set_flag(Flag::Carry, true);
    skip(cpu, mode);
}

/// Set Decimal.
pub fn sed(cpu: &mut Cpu6502, mode: AddressingMode)
    ensures
        final(cpu)@ == old(cpu)@.sed(mode),
{
    cpu.set_flag(Flag::Decimal, true);
    skip(cpu, mode);
}

/// Set Interrupt.
pub fn sei(cpu: &mut Cpu6502, mode: AddressingMode)
    ensures
        final(cpu)@ == old(cpu)@.sei(mode),
{
    cpu.set_flag(Flag::Interrupt, true);
    skip(cpu, mode);
}

/// No operation.
pub fn nop(cpu: &mut Cpu6502, mode: AddressingMode)
    ensures
        final(cpu)@ == old(cpu)@.nop(mode),
{
    skip(cpu, mode);
}

/// Bit test.
pub fn bit(cpu: &mut Cpu6502, mode: AddressingMode)
    ensures
        final(cpu)@ == old(cpu)@.bit(mode),
{
    let value = fetch(cpu, mode);
    cpu.set_flag(Flag::Zero, cpu.registers.a & value == 0);
    cpu.set_flag(Flag::Negative, value & Flag::Negative.mask() != 0);
    cpu.set_flag(Flag::Overflow, value & Flag::Overflow.mask() != 0);
}

/// Halt.
pub fn kil(cpu: &mut Cpu6502, mode: AddressingMode)
    ensures
        final(cpu)@ == old(cpu)@.kil(mode),
{
    skip(cpu, mode);
}

/// Load the accumulator and X.
pub fn lax(cpu: &mut Cpu6502, mode: AddressingMode)
    ensures
        final(cpu)@ == old(cpu)@.lax(mode),
{
    let value = fetch(cpu, mode);
    cpu.registers.a = value;
    cpu.registers.x = value;
    set_zero_negative(cpu, value);
}

/// Store the bits that the accumulator and X share.
pub fn sax(cpu: &mut Cpu6502, mode: AddressingMode)
    ensures
        final(cpu)@ == old(cpu)@.sax(mode),
{
    let address = mode.get_address(cpu);
    write_back(cpu, mode, address, cpu.registers.a & cpu.registers.x);
}

/// Decrement the operand, then compare the accumulator with it.
pub fn dcp(cpu: &mut Cpu6502, mode: AddressingMode)
    ensures
        final(cpu)@ == old(cpu)@.dcp(mode),
{
    let (address, value) = locate(cpu, mode);
    let result = value.wrapping_sub(1);
    write_back(cpu, mode, address, result);
    compare(cpu, cpu.registers.a, result);
}

/// Increment the operand, then subtract it from the accumulator with carry.
pub fn isc(cpu: &mut Cpu6502, mode: AddressingMode)
    ensures
        final(cpu)@ == old(cpu)@.isc(mode),
{
    let (address, value) = locate(cpu, mode);
    let result = value.wrapping_add(1);
    write_back(cpu, mode, address, result);
    subtract_with_carry(cpu, result);
}

/// Rotate the operand left, then AND it into the accumulator.
pub fn rla(cpu: &mut Cpu6502, mode: AddressingMode)
    ensures
        final(cpu)@ == old(cpu)@.rla(mode),
{
    let carry = cpu.get_flag(Flag::Carry);
    let rotated = shift_left(cpu, mode, carry);
    let result = cpu.registers.a & rotated;
    cpu.registers.a = result;
    set_zero_negative(cpu, result);
}

/// Rotate the operand right, then add it to the accumulator with carry.
pub fn rra(cpu: &mut Cpu6502, mode: AddressingMode)
    ensures
        final(cpu)@ == old(cpu)@.rra(mode),
{
    let carry = cpu.get_flag(Flag::Carry);
    let rotated = shift_right(cpu, mode, carry);
    add_with_carry(cpu, rotated);
}

/// Shift the operand left, then OR it into the accumulator.
pub fn slo(cpu: &mut Cpu6502, mode: AddressingMode)
    ensures
        final(cpu)@ == old(cpu)@.slo(mode),
{
    let shifted = shift_left(cpu, mode, false);
    let result = cpu.registers.a | shifted;
    cpu.registers.a = result;
    set_zero_negative(cpu, result);
}

/// Shift the operand right, then exclusive-OR it into the accumulator.
pub fn sre(cpu: &mut Cpu6502, mode: AddressingMode)
    ensures
        final(cpu)@ == old(cpu)@.sre(mode),
{
    let shifted = shift_right(cpu, mode, false);
    let result = cpu.registers.a ^ shifted;
    cpu.registers.a = result;
    set_zero_negative(cpu, result);
}

/// AND the operand into the accumulator; Carry takes the sign of the result.
pub fn anc(cpu: &mut Cpu6502, mode: AddressingMode)
    ensures
        final(cpu)@ == old(cpu)@.anc(mode),
{
    let value = fetch(cpu, mode);
    let result = cpu.registers.a & value;
    cpu.registers.a = result;
    set_zero_negative(cpu, result);
    cpu.set_flag(Flag::Carry, result >= 128);
}

/// AND the operand into the accumulator, then shift the accumulator right.
pub fn alr(cpu: &mut Cpu6502, mode: AddressingMode)
    ensures
        final(cpu)@ == old(cpu)@.alr(mode),
{
    let value = fetch(cpu, mode);
    let masked = cpu.registers.a & value;
    let result = masked / 2;
    cpu.registers.a = result;
    cpu.set_flag(Flag::Carry, masked % 2 == 1);
    set_zero_negative(cpu, result);
}

/// AND the operand into the accumulator, then rotate the accumulator right.
pub fn arr(cpu: &mut Cpu6502, mode: AddressingMode)
    ensures
        final(cpu)@ == old(cpu)@.arr(mode),
{
    let value = fetch(cpu, mode);
    let masked = cpu.registers.a & value;
    let result: Byte = masked / 2 + if cpu.get_flag(Flag::Carry) { 128u8 } else { 0u8 };
    let bit_6 = (result / 64) % 2 == 1;
    let bit_5 = (result / 32) % 2 == 1;
    cpu.registers.a = result;
    set_zero_negative(cpu, result);
    cpu.set_flag(Flag::Carry, bit_6);
    cpu.set_flag(Flag::Overflow, bit_6 != bit_5);
}

/// Transfer X to the accumulator, then AND the operand into it.
pub fn xaa(cpu: &mut Cpu6502, mode: AddressingMode)
    ensures
        final(cpu)@ == old(cpu)@.xaa(mode),
{
    let value = fetch(cpu, mode);
    let result = cpu.registers.x & value;
    cpu.registers.a = result;
    set_zero_negative(cpu, result);
}

/// Subtract the operand from the bits that the accumulator and X share, into X.
pub fn axs(cpu: &mut Cpu6502, mode: AddressingMode)
    ensures
        final(cpu)@ == old(cpu)@.axs(mode),
{
    let value = fetch(cpu, mode);
    let shared = cpu.registers.a & cpu.registers.x;
    compare(cpu, shared, value);
    cpu.registers.x = shared.wrapping_sub(value);
}

/// Store the bits that the accumulator, X and the high byte of the address
/// plus one share.
pub fn ahx(cpu: &mut Cpu6502, mode: AddressingMode)
    ensures
        final(cpu)@ == old(cpu)@.ahx(mode),
{
    let address = mode.get_address(cpu);
    let value = cpu.registers.a & cpu.registers.x & high_byte_plus_one(address);
    write_back(cpu, mode, address, value);
}

/// Shift the operand left.
pub fn asl(cpu: &mut Cpu6502, mode: AddressingMode)
    ensures
        final(cpu)@ == old(cpu)@.asl(mode),
{
    let result = shift_left(cpu, mode, false);
    set_zero_negative(cpu, result);
}

/// Jump to a subroutine.
pub fn jsr(cpu: &mut Cpu6502, mode: AddressingMode)
    ensures
        final(cpu)@ == old(cpu)@.jsr(mode),
{
    let address = mode.get_address(cpu);
    cpu.push_word_stack(cpu.registers.pc);
    cpu.registers.pc = address;
}

/// AND the operand into the accumulator.
pub fn and(cpu: &mut Cpu6502, mode: AddressingMode)
    ensures
        final(cpu)@ == old(cpu)@.and(mode),
{
    let value = fetch(cpu, mode);
    let result = cpu.registers.a & value;
    cpu.registers.a = result;
    set_zero_negative(cpu, result);
}

/// Transfer the bits that the accumulator and X share to the stack pointer,
/// and store what they share with the high byte of the address plus one.
pub fn tas(cpu: &mut Cpu6502, mode: AddressingMode)
    ensures
        final(cpu)@ == old(cpu)@.tas(mode),
{
    let address = mode.get_address(cpu);
    let shared = cpu.registers.a & cpu.registers.x;
    write_back(cpu, mode, address, shared & high_byte_plus_one(address));
    cpu.registers.sp = shared;
}

/// Store the bits that X and the high byte of the address plus one share.
pub fn shx(cpu: &mut Cpu6502, mode: AddressingMode)
    ensures
        final(cpu)@ == old(cpu)@.shx(mode),
{
    let address = mode.get_address(cpu);
    let value = cpu.registers.x & high_byte_plus_one(address);
    write_back(cpu, mode, address, value);
}

/// Store the bits that Y and the high byte of the address plus one share.
pub fn shy(cpu: &mut Cpu6502, mode: AddressingMode)
    ensures
        final(cpu)@ == old(cpu)@.shy(mode),
{
    let address = mode.get_address(cpu);
    let value = cpu.registers.y & high_byte_plus_one(address);
    write_back(cpu, mode, address, value);
}

/// Load the accumulator, X and the stack pointer with the bits that the
/// operand and the stack pointer share.
pub fn las(cpu: &mut Cpu6502, mode: AddressingMode)
    ensures
        final(cpu)@ == old(cpu)@.las(mode),
{
    let value = fetch(cpu, mode);
    let result = value & cpu.registers.sp;
    cpu.registers.a = result;
    cpu.registers.x = result;
    cpu.registers.sp = result;
    set_zero_negative(cpu, result);
}

/// Compare Y with the operand.
pub fn cpy(cpu: &mut Cpu6502, mode: AddressingMode)
    ensures
        final(cpu)@ == old(cpu)@.cpy(mode),
{
    let value = fetch(cpu, mode);
    compare(cpu, cpu.registers.y, value);
}

/// Compare X with the operand.
pub fn cpx(cpu: &mut Cpu6502, mode: AddressingMode)
    ensures
        final(cpu)@ == old(cpu)@.cpx(mode),
{
    let value = fetch(cpu, mode);
    compare(cpu, cpu.registers.x, value);
}

/// Increment Y.
pub fn iny(cpu: &mut Cpu6502, mode: AddressingMode)
    ensures
        final(cpu)@ == old(cpu)@.iny(mode),
{
    let result = cpu.registers.y.wrapping_add(1);
    cpu.registers.y = result;
    set_zero_negative(cpu, result);
    skip(cpu, mode);
}

/// Increment X.
pub fn inx(cpu: &mut Cpu6502, mode: AddressingMode)
    ensures
        final(cpu)@ == old(cpu)@.inx(mode),
{
    let result = cpu.registers.x.wrapping_add(1);
    cpu.registers.x = result;
    set_zero_negative(cpu, result);
    skip(cpu, mode);
}

/// Decrement Y.
pub fn dey(cpu: &mut Cpu6502, mode: AddressingMode)
    ensures
        final(cpu)@ == old(cpu)@.dey(mode),
{
    let result = cpu.registers.y.wrapping_sub(1);
    cpu.registers.y = result;
    set_zero_negative(cpu, result);
    skip(cpu, mode);
}

/// Decrement X.
pub fn dex(cpu: &mut Cpu6502, mode: AddressingMode)
    ensures
        final(cpu)@ == old(cpu)@.dex(mode),
{
    let result = cpu.registers.x.wrapping_sub(1);
    cpu.registers.x = result;
    set_zero_negative(cpu, result);
    skip(cpu, mode);
}

/// AND the operand into the accumulator, then shift the accumulator right:
/// another name of `alr`.
pub fn asr(cpu: &mut Cpu6502, mode: AddressingMode)
    ensures
        final(cpu)@ == old(cpu)@.asr(mode),
{
    alr(cpu, mode);
}

} // verus!
