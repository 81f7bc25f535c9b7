//! What each instruction does, as functions from the state of the machine
//! before it to the state after it. An instruction starts with the program
//! counter at its opcode and, unless it jumps, ends with the program counter
//! at the opcode of the instruction that follows it.

use vstd::prelude::*;
use crate::cpu::addressing_mode::AddressingMode;
use crate::cpu::cpu_6502::{address_after, high_byte, Machine};
use crate::cpu::flag::{flag_of, with_flag, Flag};
use crate::cpu::register::Registers;
use crate::util::constants::INTERRUPT_ADDRESS_LOW;
use crate::util::types::{Address, Byte};

verus! {

/// Whether bit 7 of `value` is set: the sign of the number it stands for.
pub open spec fn negative(value: Byte) -> bool {
    value >= 128
}

/// `value` shifted one bit to the left, `bit` coming in at the right.
pub open spec fn shifted_left(value: Byte, bit: bool) -> Byte {
    ((2 * value + if bit { 1int } else { 0int }) % 256) as Byte
}

/// `value` shifted one bit to the right, `bit` coming in at the left.
pub open spec fn shifted_right(value: Byte, bit: bool) -> Byte {
    (value / 2 + if bit { 128int } else { 0int }) as Byte
}

/// The byte one above `value`; 0 above 0xFF.
pub open spec fn incremented(value: Byte) -> Byte {
    ((value + 1) % 256) as Byte
}

/// The byte one below `value`; 0xFF below 0.
pub open spec fn decremented(value: Byte) -> Byte {
    ((value + 255) % 256) as Byte
}

/// What the unstable store instructions mask their value with: the high byte
/// of the operand's address, plus one.
pub open spec fn high_plus_one(address: Address) -> Byte {
    incremented(high_byte(address))
}

impl Machine {
    pub open spec fn with_a(self, a: Byte) -> Machine {
        Machine { registers: Registers { a, ..self.registers }, memory: self.memory }
    }

    pub open spec fn with_x(self, x: Byte) -> Machine {
        Machine { registers: Registers { x, ..self.registers }, memory: self.memory }
    }

    pub open spec fn with_y(self, y: Byte) -> Machine {
        Machine { registers: Registers { y, ..self.registers }, memory: self.memory }
    }

    pub open spec fn with_sp(self, sp: Byte) -> Machine {
        Machine { registers: Registers { sp, ..self.registers }, memory: self.memory }
    }

    pub open spec fn with_pc(self, pc: Address) -> Machine {
        Machine { registers: Registers { pc, ..self.registers }, memory: self.memory }
    }

    /// This state with one flag written and the others as they were.
    pub open spec fn with_flag(self, flag: Flag, value: bool) -> Machine {
        self.with_status(with_flag(self.registers.status, flag, value))
    }

    /// This state with Zero and Negative written from `value`.
    pub open spec fn with_zero_negative(self, value: Byte) -> Machine {
        self.with_flag(Flag::Zero, value == 0).with_flag(Flag::Negative, negative(value))
    }

    /// Whether `flag` is set.
    pub open spec fn flag(self, flag: Flag) -> bool {
        flag_of(self.registers.status, flag)
    }

    /// The value that the instruction at the program counter operates on: the
    /// accumulator in `Accumulator` mode, nothing (read as 0) in `Implied`
    /// mode, else the byte at the effective address.
    pub open spec fn operand(self, mode: AddressingMode) -> Byte {
        match mode {
            AddressingMode::Accumulator => self.registers.a,
            AddressingMode::Implied => 0,
            _ => self.memory[mode.effective_address(self) as int],
        }
    }

    /// This state with `value` written where the instruction at the program
    /// counter has its operand: to the accumulator in `Accumulator` mode,
    /// nowhere in `Implied` mode, else to the effective address.
    pub open spec fn with_operand(self, mode: AddressingMode, value: Byte) -> Machine {
        match mode {
            AddressingMode::Accumulator => self.with_a(value),
            AddressingMode::Implied => self,
            _ => self.stored(mode.effective_address(self), value),
        }
    }

    /// This state with the program counter moved from the opcode of an
    /// instruction in `mode` to the opcode of the next one.
    pub open spec fn past(self, mode: AddressingMode) -> Machine {
        self.advanced(1 + mode.operand_length())
    }

    /// Add with carry: the accumulator becomes the low eight bits of
    /// accumulator + `value` + Carry. Carry is set when that sum exceeds 255,
    /// Overflow when the accumulator and `value` agree in sign and the result
    /// differs from them, Zero and Negative from the result.
    pub open spec fn with_sum(self, value: Byte) -> Machine {
        let a = self.registers.a;
        let sum = a + value + if self.flag(Flag::Carry) { 1int } else { 0int };
        let result = (sum % 256) as Byte;
        self.with_flag(Flag::Carry, sum > 255).with_flag(Flag::Zero, result == 0).with_flag(
            Flag::Negative,
            negative(result),
        ).with_flag(
            Flag::Overflow,
            negative(a) == negative(value) && negative(a) != negative(result),
        ).with_a(result)
    }

    /// Subtract with carry: the accumulator becomes the low eight bits of
    /// accumulator - `value` - (1 - Carry). Carry is set when that difference
    /// is not below zero (no borrow), Overflow when the accumulator and
    /// `value` differ in sign and the result differs in sign from the
    /// accumulator, Zero and Negative from the result.
    pub open spec fn with_difference(self, value: Byte) -> Machine {
        let a = self.registers.a;
        let difference = a - value - if self.flag(Flag::Carry) { 0int } else { 1int };
        let result = (difference % 256) as Byte;
        self.with_flag(Flag::Carry, difference >= 0).with_flag(Flag::Zero, result == 0).with_flag(
            Flag::Negative,
            negative(result),
        ).with_flag(
            Flag::Overflow,
            negative(a) != negative(value) && negative(a) != negative(result),
        ).with_a(result)
    }

    /// Compare: the flags of `register` - `value`, which is not kept. Carry is
    /// set when `register` is not below `value`, Zero when they are equal,
    /// Negative from the low eight bits of the difference.
    pub open spec fn compared(self, register: Byte, value: Byte) -> Machine {
        self.with_flag(Flag::Carry, register >= value).with_flag(
            Flag::Zero,
            register == value,
        ).with_flag(Flag::Negative, (register - value) % 256 >= 128)
    }

    /// A branch: to the effective address when `taken`, else to the next
    /// instruction.
    pub open spec fn branched(self, mode: AddressingMode, taken: bool) -> Machine {
        if taken {
            self.with_pc(mode.effective_address(self))
        } else {
            self.past(mode)
        }
    }

    pub open spec fn adc(self, mode: AddressingMode) -> Machine {
        self.with_sum(self.operand(mode)).past(mode)
    }

    pub open spec fn sbc(self, mode: AddressingMode) -> Machine {
        self.with_difference(self.operand(mode)).past(mode)
    }

    pub open spec fn and(self, mode: AddressingMode) -> Machine {
        let result = self.registers.a & self.operand(mode);
        self.with_a(result).with_zero_negative(result).past(mode)
    }

    pub open spec fn ora(self, mode: AddressingMode) -> Machine {
        let result = self.registers.a | self.operand(mode);
        self.with_a(result).with_zero_negative(result).past(mode)
    }

    pub open spec fn eor(self, mode: AddressingMode) -> Machine {
        let result = self.registers.a ^ self.operand(mode);
        self.with_a(result).with_zero_negative(result).past(mode)
    }

    /// Bit test: Zero says whether the accumulator and the operand share no
    /// bit; Negative and Overflow are bits 7 and 6 of the operand.
    pub open spec fn bit(self, mode: AddressingMode) -> Machine {
        let value = self.operand(mode);
        self.with_flag(Flag::Zero, self.registers.a & value == 0).with_flag(
            Flag::Negative,
            flag_of(value, Flag::Negative),
        ).with_flag(Flag::Overflow, flag_of(value, Flag::Overflow)).past(mode)
    }

    pub open spec fn cmp(self, mode: AddressingMode) -> Machine {
        self.compared(self.registers.a, self.operand(mode)).past(mode)
    }

    pub open spec fn cpx(self, mode: AddressingMode) -> Machine {
        self.compared(self.registers.x, self.operand(mode)).past(mode)
    }

    pub open spec fn cpy(self, mode: AddressingMode) -> Machine {
        self.compared(self.registers.y, self.operand(mode)).past(mode)
    }

    pub open spec fn lda(self, mode: AddressingMode) -> Machine {
        let value = self.operand(mode);
        self.with_a(value).with_zero_negative(value).past(mode)
    }

    pub open spec fn ldx(self, mode: AddressingMode) -> Machine {
        let value = self.operand(mode);
        self.with_x(value).with_zero_negative(value).past(mode)
    }

    pub open spec fn ldy(self, mode: AddressingMode) -> Machine {
        let value = self.operand(mode);
        self.with_y(value).with_zero_negative(value).past(mode)
    }

    pub open spec fn sta(self, mode: AddressingMode) -> Machine {
        self.with_operand(mode, self.registers.a).past(mode)
    }

    pub open spec fn stx(self, mode: AddressingMode) -> Machine {
        self.with_operand(mode, self.registers.x).past(mode)
    }

    pub open spec fn sty(self, mode: AddressingMode) -> Machine {
        self.with_operand(mode, self.registers.y).past(mode)
    }

    pub open spec fn tax(self, mode: AddressingMode) -> Machine {
        let value = self.registers.a;
        self.with_x(value).with_zero_negative(value).past(mode)
    }

    pub open spec fn tay(self, mode: AddressingMode) -> Machine {
        let value = self.registers.a;
        self.with_y(value).with_zero_negative(value).past(mode)
    }

    pub open spec fn tsx(self, mode: AddressingMode) -> Machine {
        let value = self.registers.sp;
        self.with_x(value).with_zero_negative(value).past(mode)
    }

    pub open spec fn txa(self, mode: AddressingMode) -> Machine {
        let value = self.registers.x;
        self.with_a(value).with_zero_negative(value).past(mode)
    }

    /// The one transfer that writes no flag.
    pub open spec fn txs(self, mode: AddressingMode) -> Machine {
        self.with_sp(self.registers.x).past(mode)
    }

    pub open spec fn tya(self, mode: AddressingMode) -> Machine {
        let value = self.registers.y;
        self.with_a(value).with_zero_negative(value).past(mode)
    }

    pub open spec fn inc(self, mode: AddressingMode) -> Machine {
        let result = incremented(self.operand(mode));
        self.with_operand(mode, result).with_zero_negative(result).past(mode)
    }

    pub open spec fn dec(self, mode: AddressingMode) -> Machine {
        let result = decremented(self.operand(mode));
        self.with_operand(mode, result).with_zero_negative(result).past(mode)
    }

    pub open spec fn inx(self, mode: AddressingMode) -> Machine {
        let result = incremented(self.registers.x);
        self.with_x(result).with_zero_negative(result).past(mode)
    }

    pub open spec fn iny(self, mode: AddressingMode) -> Machine {
        let result = incremented(self.registers.y);
        self.with_y(result).with_zero_negative(result).past(mode)
    }

    pub open spec fn dex(self, mode: AddressingMode) -> Machine {
        let result = decremented(self.registers.x);
        self.with_x(result).with_zero_negative(result).past(mode)
    }

    pub open spec fn dey(self, mode: AddressingMode) -> Machine {
        let result = decremented(self.registers.y);
        self.with_y(result).with_zero_negative(result).past(mode)
    }

    /// The operand shifted left, a 0 coming in; Carry takes the bit that
    /// leaves at the left. No program counter is moved.
    pub open spec fn with_operand_shifted_left(self, mode: AddressingMode) -> Machine {
        let value = self.operand(mode);
        self.with_operand(mode, shifted_left(value, false)).with_flag(
            Flag::Carry,
            negative(value),
        )
    }

    /// The operand shifted right, a 0 coming in; Carry takes the bit that
    /// leaves at the right.
    pub open spec fn with_operand_shifted_right(self, mode: AddressingMode) -> Machine {
        let value = self.operand(mode);
        self.with_operand(mode, shifted_right(value, false)).with_flag(
            Flag::Carry,
            value % 2 == 1,
        )
    }

    /// The operand rotated left: the old Carry comes in at the right, and
    /// Carry takes the bit that leaves at the left.
    pub open spec fn with_operand_rotated_left(self, mode: AddressingMode) -> Machine {
        let value = self.operand(mode);
        self.with_operand(mode, shifted_left(value, self.flag(Flag::Carry))).with_flag(
            Flag::Carry,
            negative(value),
        )
    }

    /// The operand rotated right: the old Carry comes in at the left, and
    /// Carry takes the bit that leaves at the right.
    pub open spec fn with_operand_rotated_right(self, mode: AddressingMode) -> Machine {
        let value = self.operand(mode);
        self.with_operand(mode, shifted_right(value, self.flag(Flag::Carry))).with_flag(
            Flag::Carry,
            value % 2 == 1,
        )
    }

    pub open spec fn asl(self, mode: AddressingMode) -> Machine {
        let result = shifted_left(self.operand(mode), false);
        self.with_operand_shifted_left(mode).with_zero_negative(result).past(mode)
    }

    pub open spec fn lsr(self, mode: AddressingMode) -> Machine {
        let result = shifted_right(self.operand(mode), false);
        self.with_operand_shifted_right(mode).with_zero_negative(result).past(mode)
    }

    pub open spec fn rol(self, mode: AddressingMode) -> Machine {
        let result = shifted_left(self.operand(mode), self.flag(Flag::Carry));
        self.with_operand_rotated_left(mode).with_zero_negative(result).past(mode)
    }

    pub open spec fn ror(self, mode: AddressingMode) -> Machine {
        let result = shifted_right(self.operand(mode), self.flag(Flag::Carry));
        self.with_operand_rotated_right(mode).with_zero_negative(result).past(mode)
    }

    pub open spec fn bcc(self, mode: AddressingMode) -> Machine {
        self.branched(mode, !self.flag(Flag::Carry))
    }

    pub open spec fn bcs(self, mode: AddressingMode) -> Machine {
        self.branched(mode, self.flag(Flag::Carry))
    }

    pub open spec fn beq(self, mode: AddressingMode) -> Machine {
        self.branched(mode, self.flag(Flag::Zero))
    }

    pub open spec fn bne(self, mode: AddressingMode) -> Machine {
        self.branched(mode, !self.flag(Flag::Zero))
    }

    pub open spec fn bmi(self, mode: AddressingMode) -> Machine {
        self.branched(mode, self.flag(Flag::Negative))
    }

    pub open spec fn bpl(self, mode: AddressingMode) -> Machine {
        self.branched(mode, !self.flag(Flag::Negative))
    }

    pub open spec fn bvc(self, mode: AddressingMode) -> Machine {
        self.branched(mode, !self.flag(Flag::Overflow))
    }

    pub open spec fn bvs(self, mode: AddressingMode) -> Machine {
        self.branched(mode, self.flag(Flag::Overflow))
    }

    pub open spec fn clc(self, mode: AddressingMode) -> Machine {
        self.with_flag(Flag::Carry, false).past(mode)
    }

    pub open spec fn cld(self, mode: AddressingMode) -> Machine {
        self.with_flag(Flag::Decimal, false).past(mode)
    }

    pub open spec fn cli(self, mode: AddressingMode) -> Machine {
        self.with_flag(Flag::Interrupt, false).past(mode)
    }

    pub open spec fn clv(self, mode: AddressingMode) -> Machine {
        self.with_flag(Flag::Overflow, false).past(mode)
    }

    pub open spec fn sec(self, mode: AddressingMode) -> Machine {
        self.with_flag(Flag::Carry, true).past(mode)
    }

    pub open spec fn sed(self, mode: AddressingMode) -> Machine {
        self.with_flag(Flag::Decimal, true).past(mode)
    }

    pub open spec fn sei(self, mode: AddressingMode) -> Machine {
        self.with_flag(Flag::Interrupt, true).past(mode)
    }

    /// No operation: only the program counter moves.
    pub open spec fn nop(self, mode: AddressingMode) -> Machine {
        self.past(mode)
    }

    /// Halt: only the program counter moves; the step that runs it reports
    /// that the processor has stopped.
    pub open spec fn kil(self, mode: AddressingMode) -> Machine {
        self.past(mode)
    }

    pub open spec fn jmp(self, mode: AddressingMode) -> Machine {
        self.with_pc(mode.effective_address(self))
    }

    /// Call: pushes the address of the last byte of the call instruction, then
    /// jumps.
    pub open spec fn jsr(self, mode: AddressingMode) -> Machine {
        self.pushed_word(address_after(self.registers.pc, mode.operand_length())).with_pc(
            mode.effective_address(self),
        )
    }

    /// Return: pops an address and resumes at the byte after it.
    pub open spec fn rts(self, mode: AddressingMode) -> Machine {
        self.popped_word().with_pc(address_after(self.top_word(), 1))
    }

    /// Return from interrupt: pops the status word, then the program counter.
    pub open spec fn rti(self, mode: AddressingMode) -> Machine {
        self.popped().popped_word().with_status(self.top()).with_pc(self.popped().top_word())
    }

    /// Software interrupt: pushes the program counter, then the status word
    /// with Break set in the copy; sets Interrupt; loads the program counter
    /// from the interrupt vector.
    pub open spec fn brk(self, mode: AddressingMode) -> Machine {
        let stacked = self.pushed_word(self.registers.pc).pushed(
            with_flag(self.registers.status, Flag::Break, true),
        );
        stacked.with_flag(Flag::Interrupt, true).with_pc(stacked.word_at(INTERRUPT_ADDRESS_LOW))
    }

    pub open spec fn pha(self, mode: AddressingMode) -> Machine {
        self.pushed(self.registers.a).past(mode)
    }

    /// Pushes the status word with Break set in the copy.
    pub open spec fn php(self, mode: AddressingMode) -> Machine {
        self.pushed(with_flag(self.registers.status, Flag::Break, true)).past(mode)
    }

    pub open spec fn pla(self, mode: AddressingMode) -> Machine {
        let value = self.top();
        self.popped().with_a(value).with_zero_negative(value).past(mode)
    }

    pub open spec fn plp(self, mode: AddressingMode) -> Machine {
        self.popped().with_status(self.top()).past(mode)
    }

    /// Load the accumulator and X together.
    pub open spec fn lax(self, mode: AddressingMode) -> Machine {
        let value = self.operand(mode);
        self.with_a(value).with_x(value).with_zero_negative(value).past(mode)
    }

    /// Store the bits that the accumulator and X share.
    pub open spec fn sax(self, mode: AddressingMode) -> Machine {
        self.with_operand(mode, self.registers.a & self.registers.x).past(mode)
    }

    /// Decrement the operand, then compare the accumulator with it.
    pub open spec fn dcp(self, mode: AddressingMode) -> Machine {
        let result = decremented(self.operand(mode));
        let written = self.with_operand(mode, result);
        written.compared(written.registers.a, result).past(mode)
    }

    /// Increment the operand, then subtract it from the accumulator with
    /// carry.
    pub open spec fn isc(self, mode: AddressingMode) -> Machine {
        let result = incremented(self.operand(mode));
        self.with_operand(mode, result).with_difference(result).past(mode)
    }

    /// Shift the operand left, then OR it into the accumulator.
    pub open spec fn slo(self, mode: AddressingMode) -> Machine {
        let shifted = self.with_operand_shifted_left(mode);
        let result = shifted.registers.a | shifted_left(self.operand(mode), false);
        shifted.with_a(result).with_zero_negative(result).past(mode)
    }

    /// Rotate the operand left, then AND it into the accumulator.
    pub open spec fn rla(self, mode: AddressingMode) -> Machine {
        let rotated = self.with_operand_rotated_left(mode);
        let result = rotated.registers.a & shifted_left(
            self.operand(mode),
            self.flag(Flag::Carry),
        );
        rotated.with_a(result).with_zero_negative(result).past(mode)
    }

    /// Shift the operand right, then exclusive-OR it into the accumulator.
    pub open spec fn sre(self, mode: AddressingMode) -> Machine {
        let shifted = self.with_operand_shifted_right(mode);
        let result = shifted.registers.a ^ shifted_right(self.operand(mode), false);
        shifted.with_a(result).with_zero_negative(result).past(mode)
    }

    /// Rotate the operand right, then add it to the accumulator with the
    /// carry that the rotation left.
    pub open spec fn rra(self, mode: AddressingMode) -> Machine {
        self.with_operand_rotated_right(mode).with_sum(
            shifted_right(self.operand(mode), self.flag(Flag::Carry)),
        ).past(mode)
    }

    /// AND the operand into the accumulator; Carry takes the sign of the
    /// result.
    pub open spec fn anc(self, mode: AddressingMode) -> Machine {
        let result = self.registers.a & self.operand(mode);
        self.with_a(result).with_zero_negative(result).with_flag(
            Flag::Carry,
            negative(result),
        ).past(mode)
    }

    /// AND the operand into the accumulator, then shift the accumulator
    /// right.
    pub open spec fn alr(self, mode: AddressingMode) -> Machine {
        let masked = self.registers.a & self.operand(mode);
        let result = shifted_right(masked, false);
        self.with_a(result).with_flag(Flag::Carry, masked % 2 == 1).with_zero_negative(
            result,
        ).past(mode)
    }

    /// Another name of `alr`.
    pub open spec fn asr(self, mode: AddressingMode) -> Machine {
        self.alr(mode)
    }

    /// AND the operand into the accumulator, then rotate the accumulator
    /// right. Carry takes bit 6 of the result, Overflow whether its bits 6
    /// and 5 differ.
    pub open spec fn arr(self, mode: AddressingMode) -> Machine {
        let masked = self.registers.a & self.operand(mode);
        let result = shifted_right(masked, self.flag(Flag::Carry));
        let bit_6 = (result / 64) % 2 == 1;
        let bit_5 = (result / 32) % 2 == 1;
        self.with_a(result).with_zero_negative(result).with_flag(Flag::Carry, bit_6).with_flag(
            Flag::Overflow,
            bit_6 != bit_5,
        ).past(mode)
    }

    /// Transfer X to the accumulator, then AND the operand into it.
    pub open spec fn xaa(self, mode: AddressingMode) -> Machine {
        let result = self.registers.x & self.operand(mode);
        self.with_a(result).with_zero_negative(result).past(mode)
    }

    /// X becomes the bits that the accumulator and X share, less the operand,
    /// with the flags of that comparison and no borrow taken in.
    pub open spec fn axs(self, mode: AddressingMode) -> Machine {
        let shared = self.registers.a & self.registers.x;
        let value = self.operand(mode);
        self.compared(shared, value).with_x(((shared - value) % 256) as Byte).past(mode)
    }

    /// Store the bits that the accumulator, X and the high byte of the
    /// operand's address plus one share.
    pub open spec fn ahx(self, mode: AddressingMode) -> Machine {
        self.with_operand(
            mode,
            self.registers.a & self.registers.x & high_plus_one(mode.effective_address(self)),
        ).past(mode)
    }

    /// The stack pointer becomes the bits that the accumulator and X share;
    /// what it shares with the high byte of the operand's address plus one
    /// is stored.
    pub open spec fn tas(self, mode: AddressingMode) -> Machine {
        let shared = self.registers.a & self.registers.x;
        self.with_operand(mode, shared & high_plus_one(mode.effective_address(self))).with_sp(
            shared,
        ).past(mode)
    }

    /// Store the bits that X and the high byte of the operand's address plus
    /// one share.
    pub open spec fn shx(self, mode: AddressingMode) -> Machine {
        self.with_operand(
            mode,
            self.registers.x & high_plus_one(mode.effective_address(self)),
        ).past(mode)
    }

    /// Store the bits that Y and the high byte of the operand's address plus
    /// one share.
    pub open spec fn shy(self, mode: AddressingMode) -> Machine {
        self.with_operand(
            mode,
            self.registers.y & high_plus_one(mode.effective_address(self)),
        ).past(mode)
    }

    /// The accumulator, X and the stack pointer all become the bits that the
    /// operand and the stack pointer share.
    pub open spec fn las(self, mode: AddressingMode) -> Machine {
        let result = self.operand(mode) & self.registers.sp;
        self.with_a(result).with_x(result).with_sp(result).with_zero_negative(result).past(mode)
    }
}

} // verus!
