use emul::cpu::addressing_mode::AddressingMode;
use emul::cpu::cpu_6502::{get_cpu, Cpu6502};
use emul::cpu::flag::Flag;
use emul::cpu::function::{and, asl, bit, eor, lsr, ora, rol, ror};

/// Carry, Zero, Negative, Overflow.
fn flags(cpu: &Cpu6502) -> (bool, bool, bool, bool) {
    (
        cpu.get_flag(Flag::Carry),
        cpu.get_flag(Flag::Zero),
        cpu.get_flag(Flag::Negative),
        cpu.get_flag(Flag::Overflow),
    )
}

#[test]
fn test_and_leaves_the_program_counter_at_the_next_instruction() {
    let mut cpu = get_cpu();
    cpu.registers.a = 0xF0;
    cpu.memory.write(0x0001, 0x0F);
    and(&mut cpu, AddressingMode::Immediate);
    assert_eq!(cpu.registers.a, 0x00);
    assert_eq!(flags(&cpu), (false, true, false, false));
    assert_eq!(cpu.registers.pc, 0x0002);
}

#[test]
fn test_ora() {
    let mut cpu = get_cpu();
    cpu.registers.a = 0x81;
    cpu.memory.write(0x0001, 0x0E);
    ora(&mut cpu, AddressingMode::Immediate);
    assert_eq!(cpu.registers.a, 0x8F);
    assert_eq!(flags(&cpu), (false, false, true, false));
    assert_eq!(cpu.registers.pc, 0x0002);
}

#[test]
fn test_ora_zero() {
    let mut cpu = get_cpu();
    cpu.memory.write(0x0001, 0x00);
    ora(&mut cpu, AddressingMode::Immediate);
    assert_eq!(cpu.registers.a, 0x00);
    assert_eq!(flags(&cpu), (false, true, false, false));
}

#[test]
fn test_eor() {
    let mut cpu = get_cpu();
    cpu.registers.a = 0b0000_0001;
    cpu.memory.load(&[0x4D, 0x00, 0x30], 0x0000);
    cpu.memory.write(0x3000, 0b0000_0011);
    eor(&mut cpu, AddressingMode::Absolute);
    assert_eq!(cpu.registers.a, 0b0000_0010);
    assert_eq!(flags(&cpu), (false, false, false, false));
    assert_eq!(cpu.registers.pc, 0x0003);
}

#[test]
fn test_eor_with_itself() {
    let mut cpu = get_cpu();
    cpu.registers.a = 0xA5;
    cpu.memory.write(0x0001, 0xA5);
    eor(&mut cpu, AddressingMode::Immediate);
    assert_eq!(cpu.registers.a, 0x00);
    assert_eq!(flags(&cpu), (false, true, false, false));
}

#[test]
fn test_bit_copies_bits_seven_and_six() {
    let mut cpu = get_cpu();
    cpu.registers.a = 0x01;
    cpu.memory.write(0x0001, 0x40);
    cpu.memory.write(0x0040, 0xC0);
    bit(&mut cpu, AddressingMode::ZeroPage);
    assert_eq!(cpu.registers.a, 0x01);
    assert_eq!(flags(&cpu), (false, true, true, true));
    assert_eq!(cpu.registers.pc, 0x0002);
}

#[test]
fn test_bit_shared_bits() {
    let mut cpu = get_cpu();
    cpu.registers.a = 0x03;
    cpu.set_flag(Flag::Overflow, true);
    cpu.set_flag(Flag::Negative, true);
    cpu.memory.write(0x0001, 0x40);
    cpu.memory.write(0x0040, 0x02);
    bit(&mut cpu, AddressingMode::ZeroPage);
    assert_eq!(flags(&cpu), (false, false, false, false));
    assert_eq!(cpu.memory.read(0x0040), 0x02);
}

#[test]
fn test_asl_carry_out() {
    let mut cpu = get_cpu();
    cpu.registers.a = 0x80;
    asl(&mut cpu, AddressingMode::Accumulator);
    assert_eq!(cpu.registers.a, 0x00);
    assert_eq!(flags(&cpu), (true, true, false, false));
    assert_eq!(cpu.registers.pc, 0x0001);
}

#[test]
fn test_asl_ignores_carry_in() {
    let mut cpu = get_cpu();
    cpu.registers.a = 0x01;
    cpu.set_flag(Flag::Carry, true);
    asl(&mut cpu, AddressingMode::Accumulator);
    assert_eq!(cpu.registers.a, 0x02);
    assert_eq!(flags(&cpu), (false, false, false, false));
}

#[test]
fn test_asl_memory_leaves_the_program_counter_at_the_next_instruction() {
    let mut cpu = get_cpu();
    cpu.memory.load(&[0x0E, 0x00, 0x10], 0x0000);
    cpu.memory.write(0x1000, 0xC1);
    cpu.registers.a = 0x33;
    asl(&mut cpu, AddressingMode::Absolute);
    assert_eq!(cpu.memory.read(0x1000), 0x82);
    assert_eq!(cpu.registers.a, 0x33);
    assert_eq!(flags(&cpu), (true, false, true, false));
    assert_eq!(cpu.registers.pc, 0x0003);
}

#[test]
fn test_lsr_accumulator() {
    let mut cpu = get_cpu();
    cpu.registers.a = 0x01;
    cpu.set_flag(Flag::Negative, true);
    lsr(&mut cpu, AddressingMode::Accumulator);
    assert_eq!(cpu.registers.a, 0x00);
    assert_eq!(flags(&cpu), (true, true, false, false));
    assert_eq!(cpu.registers.pc, 0x0001);
}

#[test]
fn test_lsr_memory() {
    let mut cpu = get_cpu();
    cpu.memory.write(0x0001, 0x10);
    cpu.memory.write(0x0010, 0x04);
    cpu.set_flag(Flag::Carry, true);
    lsr(&mut cpu, AddressingMode::ZeroPage);
    assert_eq!(cpu.memory.read(0x0010), 0x02);
    assert_eq!(flags(&cpu), (false, false, false, false));
    assert_eq!(cpu.registers.pc, 0x0002);
}

#[test]
fn test_lsr_high_bit() {
    let mut cpu = get_cpu();
    cpu.registers.a = 0xFE;
    lsr(&mut cpu, AddressingMode::Accumulator);
    assert_eq!(cpu.registers.a, 0x7F);
    assert_eq!(flags(&cpu), (false, false, false, false));
}

#[test]
fn test_rol_takes_the_old_carry_in() {
    let mut cpu = get_cpu();
    cpu.registers.a = 0x80;
    cpu.set_flag(Flag::Carry, true);
    rol(&mut cpu, AddressingMode::Accumulator);
    assert_eq!(cpu.registers.a, 0x01);
    assert_eq!(flags(&cpu), (true, false, false, false));
    assert_eq!(cpu.registers.pc, 0x0001);
}

#[test]
fn test_rol_without_carry() {
    let mut cpu = get_cpu();
    cpu.registers.a = 0x40;
    rol(&mut cpu, AddressingMode::Accumulator);
    assert_eq!(cpu.registers.a, 0x80);
    assert_eq!(flags(&cpu), (false, false, true, false));
}

#[test]
fn test_rol_memory() {
    let mut cpu = get_cpu();
    cpu.memory.write(0x0001, 0x10);
    cpu.memory.write(0x0010, 0x80);
    rol(&mut cpu, AddressingMode::ZeroPage);
    assert_eq!(cpu.memory.read(0x0010), 0x00);
    assert_eq!(cpu.registers.a, 0x00);
    assert_eq!(flags(&cpu), (true, true, false, false));
    assert_eq!(cpu.registers.pc, 0x0002);
}

#[test]
fn test_ror_takes_the_old_carry_in() {
    let mut cpu = get_cpu();
    cpu.registers.a = 0x01;
    cpu.set_flag(Flag::Carry, true);
    ror(&mut cpu, AddressingMode::Accumulator);
    assert_eq!(cpu.registers.a, 0x80);
    assert_eq!(flags(&cpu), (true, false, true, false));
    assert_eq!(cpu.registers.pc, 0x0001);
}

#[test]
fn test_ror_without_carry() {
    let mut cpu = get_cpu();
    cpu.registers.a = 0x02;
    ror(&mut cpu, AddressingMode::Accumulator);
    assert_eq!(cpu.registers.a, 0x01);
    assert_eq!(flags(&cpu), (false, false, false, false));
}

#[test]
fn test_ror_memory() {
    let mut cpu = get_cpu();
    cpu.memory.load(&[0x6E, 0x00, 0x10], 0x0000);
    cpu.memory.write(0x1000, 0x01);
    ror(&mut cpu, AddressingMode::Absolute);
    assert_eq!(cpu.memory.read(0x1000), 0x00);
    assert_eq!(flags(&cpu), (true, true, false, false));
    assert_eq!(cpu.registers.pc, 0x0003);
}

#[test]
fn test_shifts_every_input() {
    for value in 0..=255u8 {
        for carry in [false, true] {
            let mut cpu = get_cpu();
            cpu.registers.a = value;
            cpu.set_flag(Flag::Carry, carry);
            asl(&mut cpu, AddressingMode::Accumulator);
            assert_eq!(cpu.registers.a, value << 1);
            assert_eq!(cpu.get_flag(Flag::Carry), value & 0x80 != 0);

            let mut cpu = get_cpu();
            cpu.registers.a = value;
            cpu.set_flag(Flag::Carry, carry);
            lsr(&mut cpu, AddressingMode::Accumulator);
            assert_eq!(cpu.registers.a, value >> 1);
            assert_eq!(cpu.get_flag(Flag::Carry), value & 0x01 != 0);

            let mut cpu = get_cpu();
            cpu.registers.a = value;
            cpu.set_flag(Flag::Carry, carry);
            rol(&mut cpu, AddressingMode::Accumulator);
            assert_eq!(cpu.registers.a, value << 1 | carry as u8);
            assert_eq!(cpu.get_flag(Flag::Carry), value & 0x80 != 0);

            let mut cpu = get_cpu();
            cpu.registers.a = value;
            cpu.set_flag(Flag::Carry, carry);
            ror(&mut cpu, AddressingMode::Accumulator);
            let result = value >> 1 | (carry as u8) << 7;
            assert_eq!(cpu.registers.a, result);
            assert_eq!(cpu.get_flag(Flag::Carry), value & 0x01 != 0);
            assert_eq!(cpu.get_flag(Flag::Zero), result == 0);
            assert_eq!(cpu.get_flag(Flag::Negative), result & 0x80 != 0);
        }
    }
}
