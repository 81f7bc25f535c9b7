//! The instruction table: what each of the 256 opcodes stands for, the
//! undocumented ones included.

use vstd::prelude::*;
use crate::assembler::text::{chars_of, same};
use crate::cpu::addressing_mode::AddressingMode;
use crate::cpu::cpu_6502::{Cpu6502, Machine};
use crate::cpu::function;
use crate::util::types::Byte;

verus! {

/// The operations of the processor.
#[derive(Clone, Copy, Debug, PartialEq, Eq, Structural)]
pub enum Mnemonic {
    Adc,
    Ahx,
    Alr,
    Anc,
    And,
    Arr,
    Asl,
    Axs,
    Bcc,
    Bcs,
    Beq,
    Bit,
    Bmi,
    Bne,
    Bpl,
    Brk,
    Bvc,
    Bvs,
    Clc,
    Cld,
    Cli,
    Clv,
    Cmp,
    Cpx,
    Cpy,
    Dcp,
    Dec,
    Dex,
    Dey,
    Eor,
    Inc,
    Inx,
    Iny,
    Isc,
    Jmp,
    Jsr,
    Kil,
    Las,
    Lax,
    Lda,
    Ldx,
    Ldy,
    Lsr,
    Nop,
    Ora,
    Pha,
    Php,
    Pla,
    Plp,
    Rla,
    Rol,
    Ror,
    Rra,
    Rti,
    Rts,
    Sax,
    Sbc,
    Sec,
    Sed,
    Sei,
    Shx,
    Shy,
    Slo,
    Sre,
    Sta,
    Stx,
    Sty,
    Tas,
    Tax,
    Tay,
    Tsx,
    Txa,
    Txs,
    Tya,
    Xaa,
}

impl Mnemonic {
    /// The name of the operation, as assembly source writes it.
    pub open spec fn text(self) -> Seq<char> {
        match self {
            Mnemonic::Adc => "ADC"@,
            Mnemonic::Ahx => "AHX"@,
            Mnemonic::Alr => "ALR"@,
            Mnemonic::Anc => "ANC"@,
            Mnemonic::And => "AND"@,
            Mnemonic::Arr => "ARR"@,
            Mnemonic::Asl => "ASL"@,
            Mnemonic::Axs => "AXS"@,
            Mnemonic::Bcc => "BCC"@,
            Mnemonic::Bcs => "BCS"@,
            Mnemonic::Beq => "BEQ"@,
            Mnemonic::Bit => "BIT"@,
            Mnemonic::Bmi => "BMI"@,
            Mnemonic::Bne => "BNE"@,
            Mnemonic::Bpl => "BPL"@,
            Mnemonic::Brk => "BRK"@,
            Mnemonic::Bvc => "BVC"@,
            Mnemonic::Bvs => "BVS"@,
            Mnemonic::Clc => "CLC"@,
            Mnemonic::Cld => "CLD"@,
            Mnemonic::Cli => "CLI"@,
            Mnemonic::Clv => "CLV"@,
            Mnemonic::Cmp => "CMP"@,
            Mnemonic::Cpx => "CPX"@,
            Mnemonic::Cpy => "CPY"@,
            Mnemonic::Dcp => "DCP"@,
            Mnemonic::Dec => "DEC"@,
            Mnemonic::Dex => "DEX"@,
            Mnemonic::Dey => "DEY"@,
            Mnemonic::Eor => "EOR"@,
            Mnemonic::Inc => "INC"@,
            Mnemonic::Inx => "INX"@,
            Mnemonic::Iny => "INY"@,
            Mnemonic::Isc => "ISC"@,
            Mnemonic::Jmp => "JMP"@,
            Mnemonic::Jsr => "JSR"@,
            Mnemonic::Kil => "KIL"@,
            Mnemonic::Las => "LAS"@,
            Mnemonic::Lax => "LAX"@,
            Mnemonic::Lda => "LDA"@,
            Mnemonic::Ldx => "LDX"@,
            Mnemonic::Ldy => "LDY"@,
            Mnemonic::Lsr => "LSR"@,
            Mnemonic::Nop => "NOP"@,
            Mnemonic::Ora => "ORA"@,
            Mnemonic::Pha => "PHA"@,
            Mnemonic::Php => "PHP"@,
            Mnemonic::Pla => "PLA"@,
            Mnemonic::Plp => "PLP"@,
            Mnemonic::Rla => "RLA"@,
            Mnemonic::Rol => "ROL"@,
            Mnemonic::Ror => "ROR"@,
            Mnemonic::Rra => "RRA"@,
            Mnemonic::Rti => "RTI"@,
            Mnemonic::Rts => "RTS"@,
            Mnemonic::Sax => "SAX"@,
            Mnemonic::Sbc => "SBC"@,
            Mnemonic::Sec => "SEC"@,
            Mnemonic::Sed => "SED"@,
            Mnemonic::Sei => "SEI"@,
            Mnemonic::Shx => "SHX"@,
            Mnemonic::Shy => "SHY"@,
            Mnemonic::Slo => "SLO"@,
            Mnemonic::Sre => "SRE"@,
            Mnemonic::Sta => "STA"@,
            Mnemonic::Stx => "STX"@,
            Mnemonic::Sty => "STY"@,
            Mnemonic::Tas => "TAS"@,
            Mnemonic::Tax => "TAX"@,
            Mnemonic::Tay => "TAY"@,
            Mnemonic::Tsx => "TSX"@,
            Mnemonic::Txa => "TXA"@,
            Mnemonic::Txs => "TXS"@,
            Mnemonic::Tya => "TYA"@,
            Mnemonic::Xaa => "XAA"@,
        }
    }

    /// The name of the operation, as assembly source writes it.
    pub fn name(&self) -> (name: &'static str)
        ensures
            name@ == self.text(),
    {
        match self {
            Mnemonic::Adc => "ADC",
            Mnemonic::Ahx => "AHX",
            Mnemonic::Alr => "ALR",
            Mnemonic::Anc => "ANC",
            Mnemonic::And => "AND",
            Mnemonic::Arr => "ARR",
            Mnemonic::Asl => "ASL",
            Mnemonic::Axs => "AXS",
            Mnemonic::Bcc => "BCC",
            Mnemonic::Bcs => "BCS",
            Mnemonic::Beq => "BEQ",
            Mnemonic::Bit => "BIT",
            Mnemonic::Bmi => "BMI",
            Mnemonic::Bne => "BNE",
            Mnemonic::Bpl => "BPL",
            Mnemonic::Brk => "BRK",
            Mnemonic::Bvc => "BVC",
            Mnemonic::Bvs => "BVS",
            Mnemonic::Clc => "CLC",
            Mnemonic::Cld => "CLD",
            Mnemonic::Cli => "CLI",
            Mnemonic::Clv => "CLV",
            Mnemonic::Cmp => "CMP",
            Mnemonic::Cpx => "CPX",
            Mnemonic::Cpy => "CPY",
            Mnemonic::Dcp => "DCP",
            Mnemonic::Dec => "DEC",
            Mnemonic::Dex => "DEX",
            Mnemonic::Dey => "DEY",
            Mnemonic::Eor => "EOR",
            Mnemonic::Inc => "INC",
            Mnemonic::Inx => "INX",
            Mnemonic::Iny => "INY",
            Mnemonic::Isc => "ISC",
            Mnemonic::Jmp => "JMP",
            Mnemonic::Jsr => "JSR",
            Mnemonic::Kil => "KIL",
            Mnemonic::Las => "LAS",
            Mnemonic::Lax => "LAX",
            Mnemonic::Lda => "LDA",
            Mnemonic::Ldx => "LDX",
            Mnemonic::Ldy => "LDY",
            Mnemonic::Lsr => "LSR",
            Mnemonic::Nop => "NOP",
            Mnemonic::Ora => "ORA",
            Mnemonic::Pha => "PHA",
            Mnemonic::Php => "PHP",
            Mnemonic::Pla => "PLA",
            Mnemonic::Plp => "PLP",
            Mnemonic::Rla => "RLA",
            Mnemonic::Rol => "ROL",
            Mnemonic::Ror => "ROR",
            Mnemonic::Rra => "RRA",
            Mnemonic::Rti => "RTI",
            Mnemonic::Rts => "RTS",
            Mnemonic::Sax => "SAX",
            Mnemonic::Sbc => "SBC",
            Mnemonic::Sec => "SEC",
            Mnemonic::Sed => "SED",
            Mnemonic::Sei => "SEI",
            Mnemonic::Shx => "SHX",
            Mnemonic::Shy => "SHY",
            Mnemonic::Slo => "SLO",
            Mnemonic::Sre => "SRE",
            Mnemonic::Sta => "STA",
            Mnemonic::Stx => "STX",
            Mnemonic::Sty => "STY",
            Mnemonic::Tas => "TAS",
            Mnemonic::Tax => "TAX",
            Mnemonic::Tay => "TAY",
            Mnemonic::Tsx => "TSX",
            Mnemonic::Txa => "TXA",
            Mnemonic::Txs => "TXS",
            Mnemonic::Tya => "TYA",
            Mnemonic::Xaa => "XAA",
        }
    }
}

/// What an opcode stands for.
#[derive(Clone, Copy, Debug, PartialEq, Eq, Structural)]
pub struct Instruction {
    pub opcode: Byte,
    pub mnemonic: Mnemonic,
    pub addressing_mode: AddressingMode,
    /// The number of bytes of the instruction, the opcode included.
    pub length: u8,
}

/// The operation of each opcode, operation by operation.
pub open spec fn mnemonic_of(opcode: Byte) -> Mnemonic {
    match opcode {
        0x61 | 0x65 | 0x69 | 0x6D | 0x71 | 0x75 | 0x79 | 0x7D => Mnemonic::Adc,
        0x93 | 0x9F => Mnemonic::Ahx,
        0x4B => Mnemonic::Alr,
        0x0B | 0x2B => Mnemonic::Anc,
        0x21 | 0x25 | 0x29 | 0x2D | 0x31 | 0x35 | 0x39 | 0x3D => Mnemonic::And,
        0x6B => Mnemonic::Arr,
        0x06 | 0x0A | 0x0E | 0x16 | 0x1E => Mnemonic::Asl,
        0xCB => Mnemonic::Axs,
        0x90 => Mnemonic::Bcc,
        0xB0 => Mnemonic::Bcs,
        0xF0 => Mnemonic::Beq,
        0x24 | 0x2C => Mnemonic::Bit,
        0x30 => Mnemonic::Bmi,
        0xD0 => Mnemonic::Bne,
        0x10 => Mnemonic::Bpl,
        0x00 => Mnemonic::Brk,
        0x50 => Mnemonic::Bvc,
        0x70 => Mnemonic::Bvs,
        0x18 => Mnemonic::Clc,
        0xD8 => Mnemonic::Cld,
        0x58 => Mnemonic::Cli,
        0xB8 => Mnemonic::Clv,
        0xC1 | 0xC5 | 0xC9 | 0xCD | 0xD1 | 0xD5 | 0xD9 | 0xDD => Mnemonic::Cmp,
        0xE0 | 0xE4 | 0xEC => Mnemonic::Cpx,
        0xC0 | 0xC4 | 0xCC => Mnemonic::Cpy,
        0xC3 | 0xC7 | 0xCF | 0xD3 | 0xD7 | 0xDB | 0xDF => Mnemonic::Dcp,
        0xC6 | 0xCE | 0xD6 | 0xDE => Mnemonic::Dec,
        0xCA => Mnemonic::Dex,
        0x88 => Mnemonic::Dey,
        0x41 | 0x45 | 0x49 | 0x4D | 0x51 | 0x55 | 0x59 | 0x5D => Mnemonic::Eor,
        0xE6 | 0xEE | 0xF6 | 0xFE => Mnemonic::Inc,
        0xE8 => Mnemonic::Inx,
        0xC8 => Mnemonic::Iny,
        0xE3 | 0xE7 | 0xEF | 0xF3 | 0xF7 | 0xFB | 0xFF => Mnemonic::Isc,
        0x4C | 0x6C => Mnemonic::Jmp,
        0x20 => Mnemonic::Jsr,
        0x02 | 0x12 | 0x22 | 0x32 | 0x42 | 0x52 | 0x62 | 0x72 | 0x92 | 0xB2 | 0xD2
        | 0xF2 => Mnemonic::Kil,
        0xBB => Mnemonic::Las,
        0xA3 | 0xA7 | 0xAB | 0xAF | 0xB3 | 0xB7 | 0xBF => Mnemonic::Lax,
        0xA1 | 0xA5 | 0xA9 | 0xAD | 0xB1 | 0xB5 | 0xB9 | 0xBD => Mnemonic::Lda,
        0xA2 | 0xA6 | 0xAE | 0xB6 | 0xBE => Mnemonic::Ldx,
        0xA0 | 0xA4 | 0xAC | 0xB4 | 0xBC => Mnemonic::Ldy,
        0x46 | 0x4A | 0x4E | 0x56 | 0x5E => Mnemonic::Lsr,
        0x04 | 0x0C | 0x14 | 0x1A | 0x1C | 0x34 | 0x3A | 0x3C | 0x44 | 0x54 | 0x5A | 0x5C
        | 0x64 | 0x74 | 0x7A | 0x7C | 0x80 | 0x82 | 0x89 | 0xC2 | 0xD4 | 0xDA | 0xDC | 0xE2
        | 0xEA | 0xF4 | 0xFA | 0xFC => Mnemonic::Nop,
        0x01 | 0x05 | 0x09 | 0x0D | 0x11 | 0x15 | 0x19 | 0x1D => Mnemonic::Ora,
        0x48 => Mnemonic::Pha,
        0x08 => Mnemonic::Php,
        0x68 => Mnemonic::Pla,
        0x28 => Mnemonic::Plp,
        0x23 | 0x27 | 0x2F | 0x33 | 0x37 | 0x3B | 0x3F => Mnemonic::Rla,
        0x26 | 0x2A | 0x2E | 0x36 | 0x3E => Mnemonic::Rol,
        0x66 | 0x6A | 0x6E | 0x76 | 0x7E => Mnemonic::Ror,
        0x63 | 0x67 | 0x6F | 0x73 | 0x77 | 0x7B | 0x7F => Mnemonic::Rra,
        0x40 => Mnemonic::Rti,
        0x60 => Mnemonic::Rts,
        0x83 | 0x87 | 0x8F | 0x97 => Mnemonic::Sax,
        0xE1 | 0xE5 | 0xE9 | 0xEB | 0xED | 0xF1 | 0xF5 | 0xF9 | 0xFD => Mnemonic::Sbc,
        0x38 => Mnemonic::Sec,
        0xF8 => Mnemonic::Sed,
        0x78 => Mnemonic::Sei,
        0x9E => Mnemonic::Shx,
        0x9C => Mnemonic::Shy,
        0x03 | 0x07 | 0x0F | 0x13 | 0x17 | 0x1B | 0x1F => Mnemonic::Slo,
        0x43 | 0x47 | 0x4F | 0x53 | 0x57 | 0x5B | 0x5F => Mnemonic::Sre,
        0x81 | 0x85 | 0x8D | 0x91 | 0x95 | 0x99 | 0x9D => Mnemonic::Sta,
        0x86 | 0x8E | 0x96 => Mnemonic::Stx,
        0x84 | 0x8C | 0x94 => Mnemonic::Sty,
        0x9B => Mnemonic::Tas,
        0xAA => Mnemonic::Tax,
        0xA8 => Mnemonic::Tay,
        0xBA => Mnemonic::Tsx,
        0x8A => Mnemonic::Txa,
        0x9A => Mnemonic::Txs,
        0x98 => Mnemonic::Tya,
        _ => Mnemonic::Xaa,
    }
}

/// The addressing mode of each opcode, mode by mode.
pub open spec fn mode_of(opcode: Byte) -> AddressingMode {
    match opcode {
        0x0A | 0x2A | 0x4A | 0x6A => AddressingMode::Accumulator,
        0x09 | 0x0B | 0x29 | 0x2B | 0x49 | 0x4B | 0x69 | 0x6B | 0x80 | 0x82 | 0x89 | 0x8B
        | 0xA0 | 0xA2 | 0xA9 | 0xAB | 0xC0 | 0xC2 | 0xC9 | 0xCB | 0xE0 | 0xE2 | 0xE9
        | 0xEB => AddressingMode::Immediate,
        0x04 | 0x05 | 0x06 | 0x07 | 0x24 | 0x25 | 0x26 | 0x27 | 0x44 | 0x45 | 0x46 | 0x47
        | 0x64 | 0x65 | 0x66 | 0x67 | 0x84 | 0x85 | 0x86 | 0x87 | 0xA4 | 0xA5 | 0xA6 | 0xA7
        | 0xC4 | 0xC5 | 0xC6 | 0xC7 | 0xE4 | 0xE5 | 0xE6 | 0xE7 => AddressingMode::ZeroPage,
        0x14 | 0x15 | 0x16 | 0x17 | 0x34 | 0x35 | 0x36 | 0x37 | 0x54 | 0x55 | 0x56 | 0x57
        | 0x74 | 0x75 | 0x76 | 0x77 | 0x94 | 0x95 | 0xB4 | 0xB5 | 0xD4 | 0xD5 | 0xD6 | 0xD7
        | 0xF4 | 0xF5 | 0xF6 | 0xF7 => AddressingMode::ZeroPageX,
        0x96 | 0x97 | 0xB6 | 0xB7 => AddressingMode::ZeroPageY,
        0x0C | 0x0D | 0x0E | 0x0F | 0x20 | 0x2C | 0x2D | 0x2E | 0x2F | 0x4C | 0x4D | 0x4E
        | 0x4F | 0x6D | 0x6E | 0x6F | 0x8C | 0x8D | 0x8E | 0x8F | 0xAC | 0xAD | 0xAE | 0xAF
        | 0xCC | 0xCD | 0xCE | 0xCF | 0xEC | 0xED | 0xEE | 0xEF => AddressingMode::Absolute,
        0x1C | 0x1D | 0x1E | 0x1F | 0x3C | 0x3D | 0x3E | 0x3F | 0x5C | 0x5D | 0x5E | 0x5F
        | 0x7C | 0x7D | 0x7E | 0x7F | 0x9C | 0x9D | 0xBC | 0xBD | 0xDC | 0xDD | 0xDE | 0xDF
        | 0xFC | 0xFD | 0xFE | 0xFF => AddressingMode::AbsoluteX,
        0x19 | 0x1B | 0x39 | 0x3B | 0x59 | 0x5B | 0x79 | 0x7B | 0x99 | 0x9B | 0x9E | 0x9F
        | 0xB9 | 0xBB | 0xBE | 0xBF | 0xD9 | 0xDB | 0xF9 | 0xFB => AddressingMode::AbsoluteY,
        0x6C => AddressingMode::Indirect,
        0x01 | 0x03 | 0x21 | 0x23 | 0x41 | 0x43 | 0x61 | 0x63 | 0x81 | 0x83 | 0xA1 | 0xA3
        | 0xC1 | 0xC3 | 0xE1 | 0xE3 => AddressingMode::IndirectX,
        0x11 | 0x13 | 0x31 | 0x33 | 0x51 | 0x53 | 0x71 | 0x73 | 0x91 | 0x93 | 0xB1 | 0xB3
        | 0xD1 | 0xD3 | 0xF1 | 0xF3 => AddressingMode::IndirectY,
        0x10 | 0x30 | 0x50 | 0x70 | 0x90 | 0xB0 | 0xD0 | 0xF0 => AddressingMode::Relative,
        _ => AddressingMode::Implied,
    }
}

/// The instruction that `opcode` stands for.
pub open spec fn instruction(opcode: Byte) -> Instruction {
    Instruction {
        opcode,
        mnemonic: mnemonic_of(opcode),
        addressing_mode: mode_of(opcode),
        length: (1 + mode_of(opcode).operand_length()) as u8,
    }
}

/// An entry of the table.
fn entry(opcode: Byte, mnemonic: Mnemonic, addressing_mode: AddressingMode) -> (found: Instruction)
    ensures
        found == (Instruction {
            opcode,
            mnemonic,
            addressing_mode,
            length: (1 + addressing_mode.operand_length()) as u8,
        }),
{
    Instruction { opcode, mnemonic, addressing_mode, length: 1 + addressing_mode.operand_bytes() }
}

/// The opcodes 0x00 to 0x0F.
fn decode_row_0(opcode: Byte) -> (found: Instruction)
    requires
        opcode / 16 == 0,
    ensures
        found == instruction(opcode),
{
    match opcode % 16 {
        0x0 => entry(opcode, Mnemonic::Brk, AddressingMode::Implied),
        0x1 => entry(opcode, Mnemonic::Ora, AddressingMode::IndirectX),
        0x2 => entry(opcode, Mnemonic::Kil, AddressingMode::Implied),
        0x3 => entry(opcode, Mnemonic::Slo, AddressingMode::IndirectX),
        0x4 => entry(opcode, Mnemonic::Nop, AddressingMode::ZeroPage),
        0x5 => entry(opcode, Mnemonic::Ora, AddressingMode::ZeroPage),
        0x6 => entry(opcode, Mnemonic::Asl, AddressingMode::ZeroPage),
        0x7 => entry(opcode, Mnemonic::Slo, AddressingMode::ZeroPage),
        0x8 => entry(opcode, Mnemonic::Php, AddressingMode::Implied),
        0x9 => entry(opcode, Mnemonic::Ora, AddressingMode::Immediate),
        0xA => entry(opcode, Mnemonic::Asl, AddressingMode::Accumulator),
        0xB => entry(opcode, Mnemonic::Anc, AddressingMode::Immediate),
        0xC => entry(opcode, Mnemonic::Nop, AddressingMode::Absolute),
        0xD => entry(opcode, Mnemonic::Ora, AddressingMode::Absolute),
        0xE => entry(opcode, Mnemonic::Asl, AddressingMode::Absolute),
        _ => entry(opcode, Mnemonic::Slo, AddressingMode::Absolute),
    }
}

/// The opcodes 0x10 to 0x1F.
fn decode_row_1(opcode: Byte) -> (found: Instruction)
    requires
        opcode / 16 == 1,
    ensures
        found == instruction(opcode),
{
    match opcode % 16 {
        0x0 => entry(opcode, Mnemonic::Bpl, AddressingMode::Relative),
        0x1 => entry(opcode, Mnemonic::Ora, AddressingMode::IndirectY),
        0x2 => entry(opcode, Mnemonic::Kil, AddressingMode::Implied),
        0x3 => entry(opcode, Mnemonic::Slo, AddressingMode::IndirectY),
        0x4 => entry(opcode, Mnemonic::Nop, AddressingMode::ZeroPageX),
        0x5 => entry(opcode, Mnemonic::Ora, AddressingMode::ZeroPageX),
        0x6 => entry(opcode, Mnemonic::Asl, AddressingMode::ZeroPageX),
        0x7 => entry(opcode, Mnemonic::Slo, AddressingMode::ZeroPageX),
        0x8 => entry(opcode, Mnemonic::Clc, AddressingMode::Implied),
        0x9 => entry(opcode, Mnemonic::Ora, AddressingMode::AbsoluteY),
        0xA => entry(opcode, Mnemonic::Nop, AddressingMode::Implied),
        0xB => entry(opcode, Mnemonic::Slo, AddressingMode::AbsoluteY),
        0xC => entry(opcode, Mnemonic::Nop, AddressingMode::AbsoluteX),
        0xD => entry(opcode, Mnemonic::Ora, AddressingMode::AbsoluteX),
        0xE => entry(opcode, Mnemonic::Asl, AddressingMode::AbsoluteX),
        _ => entry(opcode, Mnemonic::Slo, AddressingMode::AbsoluteX),
    }
}

/// The opcodes 0x20 to 0x2F.
fn decode_row_2(opcode: Byte) -> (found: Instruction)
    requires
        opcode / 16 == 2,
    ensures
        found == instruction(opcode),
{
    match opcode % 16 {
        0x0 => entry(opcode, Mnemonic::Jsr, AddressingMode::Absolute),
        0x1 => entry(opcode, Mnemonic::And, AddressingMode::IndirectX),
        0x2 => entry(opcode, Mnemonic::Kil, AddressingMode::Implied),
        0x3 => entry(opcode, Mnemonic::Rla, AddressingMode::IndirectX),
        0x4 => entry(opcode, Mnemonic::Bit, AddressingMode::ZeroPage),
        0x5 => entry(opcode, Mnemonic::And, AddressingMode::ZeroPage),
        0x6 => entry(opcode, Mnemonic::Rol, AddressingMode::ZeroPage),
        0x7 => entry(opcode, Mnemonic::Rla, AddressingMode::ZeroPage),
        0x8 => entry(opcode, Mnemonic::Plp, AddressingMode::Implied),
        0x9 => entry(opcode, Mnemonic::And, AddressingMode::Immediate),
        0xA => entry(opcode, Mnemonic::Rol, AddressingMode::Accumulator),
        0xB => entry(opcode, Mnemonic::Anc, AddressingMode::Immediate),
        0xC => entry(opcode, Mnemonic::Bit, AddressingMode::Absolute),
        0xD => entry(opcode, Mnemonic::And, AddressingMode::Absolute),
        0xE => entry(opcode, Mnemonic::Rol, AddressingMode::Absolute),
        _ => entry(opcode, Mnemonic::Rla, AddressingMode::Absolute),
    }
}

/// The opcodes 0x30 to 0x3F.
fn decode_row_3(opcode: Byte) -> (found: Instruction)
    requires
        opcode / 16 == 3,
    ensures
        found == instruction(opcode),
{
    match opcode % 16 {
        0x0 => entry(opcode, Mnemonic::Bmi, AddressingMode::Relative),
        0x1 => entry(opcode, Mnemonic::And, AddressingMode::IndirectY),
        0x2 => entry(opcode, Mnemonic::Kil, AddressingMode::Implied),
        0x3 => entry(opcode, Mnemonic::Rla, AddressingMode::IndirectY),
        0x4 => entry(opcode, Mnemonic::Nop, AddressingMode::ZeroPageX),
        0x5 => entry(opcode, Mnemonic::And, AddressingMode::ZeroPageX),
        0x6 => entry(opcode, Mnemonic::Rol, AddressingMode::ZeroPageX),
        0x7 => entry(opcode, Mnemonic::Rla, AddressingMode::ZeroPageX),
        0x8 => entry(opcode, Mnemonic::Sec, AddressingMode::Implied),
        0x9 => entry(opcode, Mnemonic::And, AddressingMode::AbsoluteY),
        0xA => entry(opcode, Mnemonic::Nop, AddressingMode::Implied),
        0xB => entry(opcode, Mnemonic::Rla, AddressingMode::AbsoluteY),
        0xC => entry(opcode, Mnemonic::Nop, AddressingMode::AbsoluteX),
        0xD => entry(opcode, Mnemonic::And, AddressingMode::AbsoluteX),
        0xE => entry(opcode, Mnemonic::Rol, AddressingMode::AbsoluteX),
        _ => entry(opcode, Mnemonic::Rla, AddressingMode::AbsoluteX),
    }
}

/// The opcodes 0x40 to 0x4F.
fn decode_row_4(opcode: Byte) -> (found: Instruction)
    requires
        opcode / 16 == 4,
    ensures
        found == instruction(opcode),
{
    match opcode % 16 {
        0x0 => entry(opcode, Mnemonic::Rti, AddressingMode::Implied),
        0x1 => entry(opcode, Mnemonic::Eor, AddressingMode::IndirectX),
        0x2 => entry(opcode, Mnemonic::Kil, AddressingMode::Implied),
        0x3 => entry(opcode, Mnemonic::Sre, AddressingMode::IndirectX),
        0x4 => entry(opcode, Mnemonic::Nop, AddressingMode::ZeroPage),
        0x5 => entry(opcode, Mnemonic::Eor, AddressingMode::ZeroPage),
        0x6 => entry(opcode, Mnemonic::Lsr, AddressingMode::ZeroPage),
        0x7 => entry(opcode, Mnemonic::Sre, AddressingMode::ZeroPage),
        0x8 => entry(opcode, Mnemonic::Pha, AddressingMode::Implied),
        0x9 => entry(opcode, Mnemonic::Eor, AddressingMode::Immediate),
        0xA => entry(opcode, Mnemonic::Lsr, AddressingMode::Accumulator),
        0xB => entry(opcode, Mnemonic::Alr, AddressingMode::Immediate),
        0xC => entry(opcode, Mnemonic::Jmp, AddressingMode::Absolute),
        0xD => entry(opcode, Mnemonic::Eor, AddressingMode::Absolute),
        0xE => entry(opcode, Mnemonic::Lsr, AddressingMode::Absolute),
        _ => entry(opcode, Mnemonic::Sre, AddressingMode::Absolute),
    }
}

/// The opcodes 0x50 to 0x5F.
fn decode_row_5(opcode: Byte) -> (found: Instruction)
    requires
        opcode / 16 == 5,
    ensures
        found == instruction(opcode),
{
    match opcode % 16 {
        0x0 => entry(opcode, Mnemonic::Bvc, AddressingMode::Relative),
        0x1 => entry(opcode, Mnemonic::Eor, AddressingMode::IndirectY),
        0x2 => entry(opcode, Mnemonic::Kil, AddressingMode::Implied),
        0x3 => entry(opcode, Mnemonic::Sre, AddressingMode::IndirectY),
        0x4 => entry(opcode, Mnemonic::Nop, AddressingMode::ZeroPageX),
        0x5 => entry(opcode, Mnemonic::Eor, AddressingMode::ZeroPageX),
        0x6 => entry(opcode, Mnemonic::Lsr, AddressingMode::ZeroPageX),
        0x7 => entry(opcode, Mnemonic::Sre, AddressingMode::ZeroPageX),
        0x8 => entry(opcode, Mnemonic::Cli, AddressingMode::Implied),
        0x9 => entry(opcode, Mnemonic::Eor, AddressingMode::AbsoluteY),
        0xA => entry(opcode, Mnemonic::Nop, AddressingMode::Implied),
        0xB => entry(opcode, Mnemonic::Sre, AddressingMode::AbsoluteY),
        0xC => entry(opcode, Mnemonic::Nop, AddressingMode::AbsoluteX),
        0xD => entry(opcode, Mnemonic::Eor, AddressingMode::AbsoluteX),
        0xE => entry(opcode, Mnemonic::Lsr, AddressingMode::AbsoluteX),
        _ => entry(opcode, Mnemonic::Sre, AddressingMode::AbsoluteX),
    }
}

/// The opcodes 0x60 to 0x6F.
fn decode_row_6(opcode: Byte) -> (found: Instruction)
    requires
        opcode / 16 == 6,
    ensures
        found == instruction(opcode),
{
    match opcode % 16 {
        0x0 => entry(opcode, Mnemonic::Rts, AddressingMode::Implied),
        0x1 => entry(opcode, Mnemonic::Adc, AddressingMode::IndirectX),
        0x2 => entry(opcode, Mnemonic::Kil, AddressingMode::Implied),
        0x3 => entry(opcode, Mnemonic::Rra, AddressingMode::IndirectX),
        0x4 => entry(opcode, Mnemonic::Nop, AddressingMode::ZeroPage),
        0x5 => entry(opcode, Mnemonic::Adc, AddressingMode::ZeroPage),
        0x6 => entry(opcode, Mnemonic::Ror, AddressingMode::ZeroPage),
        0x7 => entry(opcode, Mnemonic::Rra, AddressingMode::ZeroPage),
        0x8 => entry(opcode, Mnemonic::Pla, AddressingMode::Implied),
        0x9 => entry(opcode, Mnemonic::Adc, AddressingMode::Immediate),
        0xA => entry(opcode, Mnemonic::Ror, AddressingMode::Accumulator),
        0xB => entry(opcode, Mnemonic::Arr, AddressingMode::Immediate),
        0xC => entry(opcode, Mnemonic::Jmp, AddressingMode::Indirect),
        0xD => entry(opcode, Mnemonic::Adc, AddressingMode::Absolute),
        0xE => entry(opcode, Mnemonic::Ror, AddressingMode::Absolute),
        _ => entry(opcode, Mnemonic::Rra, AddressingMode::Absolute),
    }
}

/// The opcodes 0x70 to 0x7F.
fn decode_row_7(opcode: Byte) -> (found: Instruction)
    requires
        opcode / 16 == 7,
    ensures
        found == instruction(opcode),
{
    match opcode % 16 {
        0x0 => entry(opcode, Mnemonic::Bvs, AddressingMode::Relative),
        0x1 => entry(opcode, Mnemonic::Adc, AddressingMode::IndirectY),
        0x2 => entry(opcode, Mnemonic::Kil, AddressingMode::Implied),
        0x3 => entry(opcode, Mnemonic::Rra, AddressingMode::IndirectY),
        0x4 => entry(opcode, Mnemonic::Nop, AddressingMode::ZeroPageX),
        0x5 => entry(opcode, Mnemonic::Adc, AddressingMode::ZeroPageX),
        0x6 => entry(opcode, Mnemonic::Ror, AddressingMode::ZeroPageX),
        0x7 => entry(opcode, Mnemonic::Rra, AddressingMode::ZeroPageX),
        0x8 => entry(opcode, Mnemonic::Sei, AddressingMode::Implied),
        0x9 => entry(opcode, Mnemonic::Adc, AddressingMode::AbsoluteY),
        0xA => entry(opcode, Mnemonic::Nop, AddressingMode::Implied),
        0xB => entry(opcode, Mnemonic::Rra, AddressingMode::AbsoluteY),
        0xC => entry(opcode, Mnemonic::Nop, AddressingMode::AbsoluteX),
        0xD => entry(opcode, Mnemonic::Adc, AddressingMode::AbsoluteX),
        0xE => entry(opcode, Mnemonic::Ror, AddressingMode::AbsoluteX),
        _ => entry(opcode, Mnemonic::Rra, AddressingMode::AbsoluteX),
    }
}

/// The opcodes 0x80 to 0x8F.
fn decode_row_8(opcode: Byte) -> (found: Instruction)
    requires
        opcode / 16 == 8,
    ensures
        found == instruction(opcode),
{
    match opcode % 16 {
        0x0 => entry(opcode, Mnemonic::Nop, AddressingMode::Immediate),
        0x1 => entry(opcode, Mnemonic::Sta, AddressingMode::IndirectX),
        0x2 => entry(opcode, Mnemonic::Nop, AddressingMode::Immediate),
        0x3 => entry(opcode, Mnemonic::Sax, AddressingMode::IndirectX),
        0x4 => entry(opcode, Mnemonic::Sty, AddressingMode::ZeroPage),
        0x5 => entry(opcode, Mnemonic::Sta, AddressingMode::ZeroPage),
        0x6 => entry(opcode, Mnemonic::Stx, AddressingMode::ZeroPage),
        0x7 => entry(opcode, Mnemonic::Sax, AddressingMode::ZeroPage),
        0x8 => entry(opcode, Mnemonic::Dey, AddressingMode::Implied),
        0x9 => entry(opcode, Mnemonic::Nop, AddressingMode::Immediate),
        0xA => entry(opcode, Mnemonic::Txa, AddressingMode::Implied),
        0xB => entry(opcode, Mnemonic::Xaa, AddressingMode::Immediate),
        0xC => entry(opcode, Mnemonic::Sty, AddressingMode::Absolute),
        0xD => entry(opcode, Mnemonic::Sta, AddressingMode::Absolute),
        0xE => entry(opcode, Mnemonic::Stx, AddressingMode::Absolute),
        _ => entry(opcode, Mnemonic::Sax, AddressingMode::Absolute),
    }
}

/// The opcodes 0x90 to 0x9F.
fn decode_row_9(opcode: Byte) -> (found: Instruction)
    requires
        opcode / 16 == 9,
    ensures
        found == instruction(opcode),
{
    match opcode % 16 {
        0x0 => entry(opcode, Mnemonic::Bcc, AddressingMode::Relative),
        0x1 => entry(opcode, Mnemonic::Sta, AddressingMode::IndirectY),
        0x2 => entry(opcode, Mnemonic::Kil, AddressingMode::Implied),
        0x3 => entry(opcode, Mnemonic::Ahx, AddressingMode::IndirectY),
        0x4 => entry(opcode, Mnemonic::Sty, AddressingMode::ZeroPageX),
        0x5 => entry(opcode, Mnemonic::Sta, AddressingMode::ZeroPageX),
        0x6 => entry(opcode, Mnemonic::Stx, AddressingMode::ZeroPageY),
        0x7 => entry(opcode, Mnemonic::Sax, AddressingMode::ZeroPageY),
        0x8 => entry(opcode, Mnemonic::Tya, AddressingMode::Implied),
        0x9 => entry(opcode, Mnemonic::Sta, AddressingMode::AbsoluteY),
        0xA => entry(opcode, Mnemonic::Txs, AddressingMode::Implied),
        0xB => entry(opcode, Mnemonic::Tas, AddressingMode::AbsoluteY),
        0xC => entry(opcode, Mnemonic::Shy, AddressingMode::AbsoluteX),
        0xD => entry(opcode, Mnemonic::Sta, AddressingMode::AbsoluteX),
        0xE => entry(opcode, Mnemonic::Shx, AddressingMode::AbsoluteY),
        _ => entry(opcode, Mnemonic::Ahx, AddressingMode::AbsoluteY),
    }
}

/// The opcodes 0xA0 to 0xAF.
fn decode_row_a(opcode: Byte) -> (found: Instruction)
    requires
        opcode / 16 == 10,
    ensures
        found == instruction(opcode),
{
    match opcode % 16 {
        0x0 => entry(opcode, Mnemonic::Ldy, AddressingMode::Immediate),
        0x1 => entry(opcode, Mnemonic::Lda, AddressingMode::IndirectX),
        0x2 => entry(opcode, Mnemonic::Ldx, AddressingMode::Immediate),
        0x3 => entry(opcode, Mnemonic::Lax, AddressingMode::IndirectX),
        0x4 => entry(opcode, Mnemonic::Ldy, AddressingMode::ZeroPage),
        0x5 => entry(opcode, Mnemonic::Lda, AddressingMode::ZeroPage),
        0x6 => entry(opcode, Mnemonic::Ldx, AddressingMode::ZeroPage),
        0x7 => entry(opcode, Mnemonic::Lax, AddressingMode::ZeroPage),
        0x8 => entry(opcode, Mnemonic::Tay, AddressingMode::Implied),
        0x9 => entry(opcode, Mnemonic::Lda, AddressingMode::Immediate),
        0xA => entry(opcode, Mnemonic::Tax, AddressingMode::Implied),
        0xB => entry(opcode, Mnemonic::Lax, AddressingMode::Immediate),
        0xC => entry(opcode, Mnemonic::Ldy, AddressingMode::Absolute),
        0xD => entry(opcode, Mnemonic::Lda, AddressingMode::Absolute),
        0xE => entry(opcode, Mnemonic::Ldx, AddressingMode::Absolute),
        _ => entry(opcode, Mnemonic::Lax, AddressingMode::Absolute),
    }
}

/// The opcodes 0xB0 to 0xBF.
fn decode_row_b(opcode: Byte) -> (found: Instruction)
    requires
        opcode / 16 == 11,
    ensures
        found == instruction(opcode),
{
    match opcode % 16 {
        0x0 => entry(opcode, Mnemonic::Bcs, AddressingMode::Relative),
        0x1 => entry(opcode, Mnemonic::Lda, AddressingMode::IndirectY),
        0x2 => entry(opcode, Mnemonic::Kil, AddressingMode::Implied),
        0x3 => entry(opcode, Mnemonic::Lax, AddressingMode::IndirectY),
        0x4 => entry(opcode, Mnemonic::Ldy, AddressingMode::ZeroPageX),
        0x5 => entry(opcode, Mnemonic::Lda, AddressingMode::ZeroPageX),
        0x6 => entry(opcode, Mnemonic::Ldx, AddressingMode::ZeroPageY),
        0x7 => entry(opcode, Mnemonic::Lax, AddressingMode::ZeroPageY),
        0x8 => entry(opcode, Mnemonic::Clv, AddressingMode::Implied),
        0x9 => entry(opcode, Mnemonic::Lda, AddressingMode::AbsoluteY),
        0xA => entry(opcode, Mnemonic::Tsx, AddressingMode::Implied),
        0xB => entry(opcode, Mnemonic::Las, AddressingMode::AbsoluteY),
        0xC => entry(opcode, Mnemonic::Ldy, AddressingMode::AbsoluteX),
        0xD => entry(opcode, Mnemonic::Lda, AddressingMode::AbsoluteX),
        0xE => entry(opcode, Mnemonic::Ldx, AddressingMode::AbsoluteY),
        _ => entry(opcode, Mnemonic::Lax, AddressingMode::AbsoluteY),
    }
}

/// The opcodes 0xC0 to 0xCF.
fn decode_row_c(opcode: Byte) -> (found: Instruction)
    requires
        opcode / 16 == 12,
    ensures
        found == instruction(opcode),
{
    match opcode % 16 {
        0x0 => entry(opcode, Mnemonic::Cpy, AddressingMode::Immediate),
        0x1 => entry(opcode, Mnemonic::Cmp, AddressingMode::IndirectX),
        0x2 => entry(opcode, Mnemonic::Nop, AddressingMode::Immediate),
        0x3 => entry(opcode, Mnemonic::Dcp, AddressingMode::IndirectX),
        0x4 => entry(opcode, Mnemonic::Cpy, AddressingMode::ZeroPage),
        0x5 => entry(opcode, Mnemonic::Cmp, AddressingMode::ZeroPage),
        0x6 => entry(opcode, Mnemonic::Dec, AddressingMode::ZeroPage),
        0x7 => entry(opcode, Mnemonic::Dcp, AddressingMode::ZeroPage),
        0x8 => entry(opcode, Mnemonic::Iny, AddressingMode::Implied),
        0x9 => entry(opcode, Mnemonic::Cmp, AddressingMode::Immediate),
        0xA => entry(opcode, Mnemonic::Dex, AddressingMode::Implied),
        0xB => entry(opcode, Mnemonic::Axs, AddressingMode::Immediate),
        0xC => entry(opcode, Mnemonic::Cpy, AddressingMode::Absolute),
        0xD => entry(opcode, Mnemonic::Cmp, AddressingMode::Absolute),
        0xE => entry(opcode, Mnemonic::Dec, AddressingMode::Absolute),
        _ => entry(opcode, Mnemonic::Dcp, AddressingMode::Absolute),
    }
}

/// The opcodes 0xD0 to 0xDF.
fn decode_row_d(opcode: Byte) -> (found: Instruction)
    requires
        opcode / 16 == 13,
    ensures
        found == instruction(opcode),
{
    match opcode % 16 {
        0x0 => entry(opcode, Mnemonic::Bne, AddressingMode::Relative),
        0x1 => entry(opcode, Mnemonic::Cmp, AddressingMode::IndirectY),
        0x2 => entry(opcode, Mnemonic::Kil, AddressingMode::Implied),
        0x3 => entry(opcode, Mnemonic::Dcp, AddressingMode::IndirectY),
        0x4 => entry(opcode, Mnemonic::Nop, AddressingMode::ZeroPageX),
        0x5 => entry(opcode, Mnemonic::Cmp, AddressingMode::ZeroPageX),
        0x6 => entry(opcode, Mnemonic::Dec, AddressingMode::ZeroPageX),
        0x7 => entry(opcode, Mnemonic::Dcp, AddressingMode::ZeroPageX),
        0x8 => entry(opcode, Mnemonic::Cld, AddressingMode::Implied),
        0x9 => entry(opcode, Mnemonic::Cmp, AddressingMode::AbsoluteY),
        0xA => entry(opcode, Mnemonic::Nop, AddressingMode::Implied),
        0xB => entry(opcode, Mnemonic::Dcp, AddressingMode::AbsoluteY),
        0xC => entry(opcode, Mnemonic::Nop, AddressingMode::AbsoluteX),
        0xD => entry(opcode, Mnemonic::Cmp, AddressingMode::AbsoluteX),
        0xE => entry(opcode, Mnemonic::Dec, AddressingMode::AbsoluteX),
        _ => entry(opcode, Mnemonic::Dcp, AddressingMode::AbsoluteX),
    }
}

/// The opcodes 0xE0 to 0xEF.
fn decode_row_e(opcode: Byte) -> (found: Instruction)
    requires
        opcode / 16 == 14,
    ensures
        found == instruction(opcode),
{
    match opcode % 16 {
        0x0 => entry(opcode, Mnemonic::Cpx, AddressingMode::Immediate),
        0x1 => entry(opcode, Mnemonic::Sbc, AddressingMode::IndirectX),
        0x2 => entry(opcode, Mnemonic::Nop, AddressingMode::Immediate),
        0x3 => entry(opcode, Mnemonic::Isc, AddressingMode::IndirectX),
        0x4 => entry(opcode, Mnemonic::Cpx, AddressingMode::ZeroPage),
        0x5 => entry(opcode, Mnemonic::Sbc, AddressingMode::ZeroPage),
        0x6 => entry(opcode, Mnemonic::Inc, AddressingMode::ZeroPage),
        0x7 => entry(opcode, Mnemonic::Isc, AddressingMode::ZeroPage),
        0x8 => entry(opcode, Mnemonic::Inx, AddressingMode::Implied),
        0x9 => entry(opcode, Mnemonic::Sbc, AddressingMode::Immediate),
        0xA => entry(opcode, Mnemonic::Nop, AddressingMode::Implied),
        0xB => entry(opcode, Mnemonic::Sbc, AddressingMode::Immediate),
        0xC => entry(opcode, Mnemonic::Cpx, AddressingMode::Absolute),
        0xD => entry(opcode, Mnemonic::Sbc, AddressingMode::Absolute),
        0xE => entry(opcode, Mnemonic::Inc, AddressingMode::Absolute),
        _ => entry(opcode, Mnemonic::Isc, AddressingMode::Absolute),
    }
}

/// The opcodes 0xF0 to 0xFF.
fn decode_row_f(opcode: Byte) -> (found: Instruction)
    requires
        opcode / 16 == 15,
    ensures
        found == instruction(opcode),
{
    match opcode % 16 {
        0x0 => entry(opcode, Mnemonic::Beq, AddressingMode::Relative),
        0x1 => entry(opcode, Mnemonic::Sbc, AddressingMode::IndirectY),
        0x2 => entry(opcode, Mnemonic::Kil, AddressingMode::Implied),
        0x3 => entry(opcode, Mnemonic::Isc, AddressingMode::IndirectY),
        0x4 => entry(opcode, Mnemonic::Nop, AddressingMode::ZeroPageX),
        0x5 => entry(opcode, Mnemonic::Sbc, AddressingMode::ZeroPageX),
        0x6 => entry(opcode, Mnemonic::Inc, AddressingMode::ZeroPageX),
        0x7 => entry(opcode, Mnemonic::Isc, AddressingMode::ZeroPageX),
        0x8 => entry(opcode, Mnemonic::Sed, AddressingMode::Implied),
        0x9 => entry(opcode, Mnemonic::Sbc, AddressingMode::AbsoluteY),
        0xA => entry(opcode, Mnemonic::Nop, AddressingMode::Implied),
        0xB => entry(opcode, Mnemonic::Isc, AddressingMode::AbsoluteY),
        0xC => entry(opcode, Mnemonic::Nop, AddressingMode::AbsoluteX),
        0xD => entry(opcode, Mnemonic::Sbc, AddressingMode::AbsoluteX),
        0xE => entry(opcode, Mnemonic::Inc, AddressingMode::AbsoluteX),
        _ => entry(opcode, Mnemonic::Isc, AddressingMode::AbsoluteX),
    }
}

/// Looks `opcode` up in the table. Every opcode has an entry.
pub fn decode(opcode: Byte) -> (found: Instruction)
    ensures
        found == instruction(opcode),
{
    match opcode / 16 {
        0x0 => decode_row_0(opcode),
        0x1 => decode_row_1(opcode),
        0x2 => decode_row_2(opcode),
        0x3 => decode_row_3(opcode),
        0x4 => decode_row_4(opcode),
        0x5 => decode_row_5(opcode),
        0x6 => decode_row_6(opcode),
        0x7 => decode_row_7(opcode),
        0x8 => decode_row_8(opcode),
        0x9 => decode_row_9(opcode),
        0xA => decode_row_a(opcode),
        0xB => decode_row_b(opcode),
        0xC => decode_row_c(opcode),
        0xD => decode_row_d(opcode),
        0xE => decode_row_e(opcode),
        _ => decode_row_f(opcode),
    }
}

/// Whether assembly source writes `found` as the operation `name` in the mode
/// `mode`.
pub open spec fn written(found: Instruction, name: Seq<char>, mode: Seq<char>) -> bool {
    found.mnemonic.text() == name && found.addressing_mode.text() == mode
}

/// The instruction of the least opcode from `from` on that assembly source
/// writes as `name` in mode `mode`.
pub open spec fn first_written(name: Seq<char>, mode: Seq<char>, from: int) -> Option<Instruction>
    decreases 256 - from,
{
    if from < 0 || from >= 256 {
        None
    } else if written(instruction(from as Byte), name, mode) {
        Some(instruction(from as Byte))
    } else {
        first_written(name, mode, from + 1)
    }
}

/// Looks up the instruction that assembly source writes as `name` in mode
/// `mode`; where several opcodes stand for it, the least.
pub fn find_instruction(name: &[char], mode: &[char]) -> (found: Option<Instruction>)
    ensures
        found == first_written(name@, mode@, 0),
{
    let mut opcode: u8 = 0;
    loop
        invariant
            first_written(name@, mode@, 0) == first_written(name@, mode@, opcode as int),
        decreases 256 - opcode,
    {
        let candidate = decode(opcode);
        let written_name = chars_of(candidate.mnemonic.name());
        let written_mode = chars_of(candidate.addressing_mode.name());
        if same(written_name.as_slice(), name) && same(written_mode.as_slice(), mode) {
            return Some(candidate);
        }
        if opcode == 255 {
            return None;
        }
        opcode += 1;
    }
}

/// Looks up the instruction that assembly source writes as `name` in mode
/// `mode`; where several opcodes stand for it, the least.
pub fn find_instruction_by_name_and_mode(name: &str, mode: &str) -> (found: Option<Instruction>)
    ensures
        found == first_written(name@, mode@, 0),
{
    let name = chars_of(name);
    let mode = chars_of(mode);
    find_instruction(name.as_slice(), mode.as_slice())
}

impl Machine {
    /// This state after the operation `mnemonic` ran in `mode`.
    pub open spec fn executed(self, mnemonic: Mnemonic, mode: AddressingMode) -> Machine {
        match mnemonic {
            Mnemonic::Adc => self.adc(mode),
            Mnemonic::Ahx => self.ahx(mode),
            Mnemonic::Alr => self.alr(mode),
            Mnemonic::Anc => self.anc(mode),
            Mnemonic::And => self.and(mode),
            Mnemonic::Arr => self.arr(mode),
            Mnemonic::Asl => self.asl(mode),
            Mnemonic::Axs => self.axs(mode),
            Mnemonic::Bcc => self.bcc(mode),
            Mnemonic::Bcs => self.bcs(mode),
            Mnemonic::Beq => self.beq(mode),
            Mnemonic::Bit => self.bit(mode),
            Mnemonic::Bmi => self.bmi(mode),
            Mnemonic::Bne => self.bne(mode),
            Mnemonic::Bpl => self.bpl(mode),
            Mnemonic::Brk => self.brk(mode),
            Mnemonic::Bvc => self.bvc(mode),
            Mnemonic::Bvs => self.bvs(mode),
            Mnemonic::Clc => self.clc(mode),
            Mnemonic::Cld => self.cld(mode),
            Mnemonic::Cli => self.cli(mode),
            Mnemonic::Clv => self.clv(mode),
            Mnemonic::Cmp => self.cmp(mode),
            Mnemonic::Cpx => self.cpx(mode),
            Mnemonic::Cpy => self.cpy(mode),
            Mnemonic::Dcp => self.dcp(mode),
            Mnemonic::Dec => self.dec(mode),
            Mnemonic::Dex => self.dex(mode),
            Mnemonic::Dey => self.dey(mode),
            Mnemonic::Eor => self.eor(mode),
            Mnemonic::Inc => self.inc(mode),
            Mnemonic::Inx => self.inx(mode),
            Mnemonic::Iny => self.iny(mode),
            Mnemonic::Isc => self.isc(mode),
            Mnemonic::Jmp => self.jmp(mode),
            Mnemonic::Jsr => self.jsr(mode),
            Mnemonic::Kil => self.kil(mode),
            Mnemonic::Las => self.las(mode),
            Mnemonic::Lax => self.lax(mode),
            Mnemonic::Lda => self.lda(mode),
            Mnemonic::Ldx => self.ldx(mode),
            Mnemonic::Ldy => self.ldy(mode),
            Mnemonic::Lsr => self.lsr(mode),
            Mnemonic::Nop => self.nop(mode),
            Mnemonic::Ora => self.ora(mode),
            Mnemonic::Pha => self.pha(mode),
            Mnemonic::Php => self.php(mode),
            Mnemonic::Pla => self.pla(mode),
            Mnemonic::Plp => self.plp(mode),
            Mnemonic::Rla => self.rla(mode),
            Mnemonic::Rol => self.rol(mode),
            Mnemonic::Ror => self.ror(mode),
            Mnemonic::Rra => self.rra(mode),
            Mnemonic::Rti => self.rti(mode),
            Mnemonic::Rts => self.rts(mode),
            Mnemonic::Sax => self.sax(mode),
            Mnemonic::Sbc => self.sbc(mode),
            Mnemonic::Sec => self.sec(mode),
            Mnemonic::Sed => self.sed(mode),
            Mnemonic::Sei => self.sei(mode),
            Mnemonic::Shx => self.shx(mode),
            Mnemonic::Shy => self.shy(mode),
            Mnemonic::Slo => self.slo(mode),
            Mnemonic::Sre => self.sre(mode),
            Mnemonic::Sta => self.sta(mode),
            Mnemonic::Stx => self.stx(mode),
            Mnemonic::Sty => self.sty(mode),
            Mnemonic::Tas => self.tas(mode),
            Mnemonic::Tax => self.tax(mode),
            Mnemonic::Tay => self.tay(mode),
            Mnemonic::Tsx => self.tsx(mode),
            Mnemonic::Txa => self.txa(mode),
            Mnemonic::Txs => self.txs(mode),
            Mnemonic::Tya => self.tya(mode),
            Mnemonic::Xaa => self.xaa(mode),
        }
    }
}

/// Runs the operation `mnemonic` in `mode`.
pub fn execute(cpu: &mut Cpu6502, mnemonic: Mnemonic, mode: AddressingMode)
    ensures
        final(cpu)@ == old(cpu)@.executed(mnemonic, mode),
{
    match mnemonic {
        Mnemonic::Adc => function::adc(cpu, mode),
        Mnemonic::Ahx => function::ahx(cpu, mode),
        Mnemonic::Alr => function::alr(cpu, mode),
        Mnemonic::Anc => function::anc(cpu, mode),
        Mnemonic::And => function::and(cpu, mode),
        Mnemonic::Arr => function::arr(cpu, mode),
        Mnemonic::Asl => function::asl(cpu, mode),
        Mnemonic::Axs => function::axs(cpu, mode),
        Mnemonic::Bcc => function::bcc(cpu, mode),
        Mnemonic::Bcs => function::bcs(cpu, mode),
        Mnemonic::Beq => function::beq(cpu, mode),
        Mnemonic::Bit => function::bit(cpu, mode),
        Mnemonic::Bmi => function::bmi(cpu, mode),
        Mnemonic::Bne => function::bne(cpu, mode),
        Mnemonic::Bpl => function::bpl(cpu, mode),
        Mnemonic::Brk => function::brk(cpu, mode),
        Mnemonic::Bvc => function::bvc(cpu, mode),
        Mnemonic::Bvs => function::bvs(cpu, mode),
        Mnemonic::Clc => function::clc(cpu, mode),
        Mnemonic::Cld => function::cld(cpu, mode),
        Mnemonic::Cli => function::cli(cpu, mode),
        Mnemonic::Clv => function::clv(cpu, mode),
        Mnemonic::Cmp => function::cmp(cpu, mode),
        Mnemonic::Cpx => function::cpx(cpu, mode),
        Mnemonic::Cpy => function::cpy(cpu, mode),
        Mnemonic::Dcp => function::dcp(cpu, mode),
        Mnemonic::Dec => function::dec(cpu, mode),
        Mnemonic::Dex => function::dex(cpu, mode),
        Mnemonic::Dey => function::dey(cpu, mode),
        Mnemonic::Eor => function::eor(cpu, mode),
        Mnemonic::Inc => function::inc(cpu, mode),
        Mnemonic::Inx => function::inx(cpu, mode),
        Mnemonic::Iny => function::iny(cpu, mode),
        Mnemonic::Isc => function::isc(cpu, mode),
        Mnemonic::Jmp => function::jmp(cpu, mode),
        Mnemonic::Jsr => function::jsr(cpu, mode),
        Mnemonic::Kil => function::kil(cpu, mode),
        Mnemonic::Las => function::las(cpu, mode),
        Mnemonic::Lax => function::lax(cpu, mode),
        Mnemonic::Lda => function::lda(cpu, mode),
        Mnemonic::Ldx => function::ldx(cpu, mode),
        Mnemonic::Ldy => function::ldy(cpu, mode),
        Mnemonic::Lsr => function::lsr(cpu, mode),
        Mnemonic::Nop => function::nop(cpu, mode),
        Mnemonic::Ora => function::ora(cpu, mode),
        Mnemonic::Pha => function::pha(cpu, mode),
        Mnemonic::Php => function::php(cpu, mode),
        Mnemonic::Pla => function::pla(cpu, mode),
        Mnemonic::Plp => function::plp(cpu, mode),
        Mnemonic::Rla => function::rla(cpu, mode),
        Mnemonic::Rol => function::rol(cpu, mode),
        Mnemonic::Ror => function::ror(cpu, mode),
        Mnemonic::Rra => function::rra(cpu, mode),
        Mnemonic::Rti => function::rti(cpu, mode),
        Mnemonic::Rts => function::rts(cpu, mode),
        Mnemonic::Sax => function::sax(cpu, mode),
        Mnemonic::Sbc => function::sbc(cpu, mode),
        Mnemonic::Sec => function::sec(cpu, mode),
        Mnemonic::Sed => function::sed(cpu, mode),
        Mnemonic::Sei => function::sei(cpu, mode),
        Mnemonic::Shx => function::shx(cpu, mode),
        Mnemonic::Shy => function::shy(cpu, mode),
        Mnemonic::Slo => function::slo(cpu, mode),
        Mnemonic::Sre => function::sre(cpu, mode),
        Mnemonic::Sta => function::sta(cpu, mode),
        Mnemonic::Stx => function::stx(cpu, mode),
        Mnemonic::Sty => function::sty(cpu, mode),
        Mnemonic::Tas => function::tas(cpu, mode),
        Mnemonic::Tax => function::tax(cpu, mode),
        Mnemonic::Tay => function::tay(cpu, mode),
        Mnemonic::Tsx => function::tsx(cpu, mode),
        Mnemonic::Txa => function::txa(cpu, mode),
        Mnemonic::Txs => function::txs(cpu, mode),
        Mnemonic::Tya => function::tya(cpu, mode),
        Mnemonic::Xaa => function::xaa(cpu, mode),
    }
}

} // verus!
