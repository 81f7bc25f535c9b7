use emul::cpu::addressing_mode::AddressingMode;
use emul::cpu::cpu_6502::{get_cpu, Cpu6502};
use emul::cpu::flag::Flag;
use emul::cpu::function::{
    ahx, alr, anc, arr, asr, axs, dcp, isc, las, lax, rla, rra, sax, shx, shy, slo, sre, tas, xaa,
};

/// Carry, Zero, Negative, Overflow.
fn flags(cpu: &Cpu6502) -> (bool, bool, bool, bool) {
    (
        cpu.get_flag(Flag::Carry),
        cpu.get_flag(Flag::Zero),
        cpu.get_flag(Flag::Negative),
        cpu.get_flag(Flag::Overflow),
    )
}

/// A processor whose zero-page operand, at 0x0040, holds `value`.
fn with_zero_page(value: u8) -> Cpu6502 {
    let mut cpu = get_cpu();
    cpu.memory.write(0x0001, 0x40);
    cpu.memory.write(0x0040, value);
    cpu
}

/// A processor whose immediate operand is `value`.
fn with_immediate(value: u8) -> Cpu6502 {
    let mut cpu = get_cpu();
    cpu.memory.write(0x0001, value);
    cpu
}

#[test]
fn test_lax() {
    let mut cpu = with_zero_page(0x80);
    lax(&mut cpu, AddressingMode::ZeroPage);
    assert_eq!(cpu.registers.a, 0x80);
    assert_eq!(cpu.registers.x, 0x80);
    assert_eq!(flags(&cpu), (false, false, true, false));
    assert_eq!(cpu.registers.pc, 0x0002);
}

#[test]
fn test_lax_zero() {
    let mut cpu = with_zero_page(0x00);
    cpu.registers.a = 0x11;
    cpu.registers.x = 0x22;
    lax(&mut cpu, AddressingMode::ZeroPage);
    assert_eq!(cpu.registers.a, 0x00);
    assert_eq!(cpu.registers.x, 0x00);
    assert_eq!(flags(&cpu), (false, true, false, false));
}

#[test]
fn test_sax() {
    let mut cpu = with_zero_page(0xFF);
    cpu.registers.a = 0xF0;
    cpu.registers.x = 0x3C;
    cpu.registers.status = 0xC3;
    sax(&mut cpu, AddressingMode::ZeroPage);
    assert_eq!(cpu.memory.read(0x0040), 0x30);
    assert_eq!(cpu.registers.a, 0xF0);
    assert_eq!(cpu.registers.x, 0x3C);
    assert_eq!(cpu.registers.status, 0xC3);
    assert_eq!(cpu.registers.pc, 0x0002);
}

#[test]
fn test_dcp_equal() {
    let mut cpu = with_zero_page(0x01);
    dcp(&mut cpu, AddressingMode::ZeroPage);
    assert_eq!(cpu.memory.read(0x0040), 0x00);
    assert_eq!(cpu.registers.a, 0x00);
    assert_eq!(flags(&cpu), (true, true, false, false));
    assert_eq!(cpu.registers.pc, 0x0002);
}

#[test]
fn test_dcp_wraps_below_zero() {
    let mut cpu = with_zero_page(0x00);
    cpu.registers.a = 0x10;
    dcp(&mut cpu, AddressingMode::ZeroPage);
    assert_eq!(cpu.memory.read(0x0040), 0xFF);
    assert_eq!(cpu.registers.a, 0x10);
    assert_eq!(flags(&cpu), (false, false, false, false));
}

#[test]
fn test_isc() {
    let mut cpu = with_zero_page(0x01);
    cpu.registers.a = 0x05;
    cpu.set_flag(Flag::Carry, true);
    isc(&mut cpu, AddressingMode::ZeroPage);
    assert_eq!(cpu.memory.read(0x0040), 0x02);
    assert_eq!(cpu.registers.a, 0x03);
    assert_eq!(flags(&cpu), (true, false, false, false));
    assert_eq!(cpu.registers.pc, 0x0002);
}

#[test]
fn test_isc_wraps_and_borrows() {
    let mut cpu = with_zero_page(0xFF);
    cpu.registers.a = 0x00;
    isc(&mut cpu, AddressingMode::ZeroPage);
    assert_eq!(cpu.memory.read(0x0040), 0x00);
    assert_eq!(cpu.registers.a, 0xFF);
    assert_eq!(flags(&cpu), (false, false, true, false));
}

#[test]
fn test_slo() {
    let mut cpu = with_zero_page(0x81);
    cpu.registers.a = 0x01;
    slo(&mut cpu, AddressingMode::ZeroPage);
    assert_eq!(cpu.memory.read(0x0040), 0x02);
    assert_eq!(cpu.registers.a, 0x03);
    assert_eq!(flags(&cpu), (true, false, false, false));
    assert_eq!(cpu.registers.pc, 0x0002);
}

#[test]
fn test_rla() {
    let mut cpu = with_zero_page(0x80);
    cpu.registers.a = 0xFF;
    cpu.set_flag(Flag::Carry, true);
    rla(&mut cpu, AddressingMode::ZeroPage);
    assert_eq!(cpu.memory.read(0x0040), 0x01);
    assert_eq!(cpu.registers.a, 0x01);
    assert_eq!(flags(&cpu), (true, false, false, false));
    assert_eq!(cpu.registers.pc, 0x0002);
}

#[test]
fn test_sre() {
    let mut cpu = with_zero_page(0x03);
    cpu.registers.a = 0x01;
    sre(&mut cpu, AddressingMode::ZeroPage);
    assert_eq!(cpu.memory.read(0x0040), 0x01);
    assert_eq!(cpu.registers.a, 0x00);
    assert_eq!(flags(&cpu), (true, true, false, false));
    assert_eq!(cpu.registers.pc, 0x0002);
}

#[test]
fn test_rra_adds_with_the_carry_of_the_rotation() {
    let mut cpu = with_zero_page(0x03);
    cpu.registers.a = 0x10;
    rra(&mut cpu, AddressingMode::ZeroPage);
    assert_eq!(cpu.memory.read(0x0040), 0x01);
    assert_eq!(cpu.registers.a, 0x12);
    assert_eq!(flags(&cpu), (false, false, false, false));
    assert_eq!(cpu.registers.pc, 0x0002);
}

#[test]
fn test_rra_takes_the_old_carry_in() {
    let mut cpu = with_zero_page(0x02);
    cpu.registers.a = 0x80;
    cpu.set_flag(Flag::Carry, true);
    rra(&mut cpu, AddressingMode::ZeroPage);
    assert_eq!(cpu.memory.read(0x0040), 0x81);
    assert_eq!(cpu.registers.a, 0x01);
    assert_eq!(flags(&cpu), (true, false, false, true));
}

#[test]
fn test_anc() {
    let mut cpu = with_immediate(0x80);
    cpu.registers.a = 0xF0;
    anc(&mut cpu, AddressingMode::Immediate);
    assert_eq!(cpu.registers.a, 0x80);
    assert_eq!(flags(&cpu), (true, false, true, false));
    assert_eq!(cpu.registers.pc, 0x0002);

    let mut cpu = with_immediate(0x01);
    cpu.registers.a = 0x0F;
    cpu.set_flag(Flag::Carry, true);
    anc(&mut cpu, AddressingMode::Immediate);
    assert_eq!(cpu.registers.a, 0x01);
    assert_eq!(flags(&cpu), (false, false, false, false));
}

#[test]
fn test_alr() {
    let mut cpu = with_immediate(0x03);
    cpu.registers.a = 0xFF;
    alr(&mut cpu, AddressingMode::Immediate);
    assert_eq!(cpu.registers.a, 0x01);
    assert_eq!(flags(&cpu), (true, false, false, false));
    assert_eq!(cpu.registers.pc, 0x0002);
}

#[test]
fn test_asr_is_alr() {
    for a in [0x00u8, 0x01, 0x7F, 0x80, 0xFF] {
        for operand in [0x00u8, 0x01, 0x55, 0xAA, 0xFF] {
            let mut one = with_immediate(operand);
            one.registers.a = a;
            let mut other = one;
            alr(&mut one, AddressingMode::Immediate);
            asr(&mut other, AddressingMode::Immediate);
            assert_eq!(one.registers, other.registers);
        }
    }
}

#[test]
fn test_arr() {
    let mut cpu = with_immediate(0xFF);
    cpu.registers.a = 0xFF;
    cpu.set_flag(Flag::Carry, true);
    arr(&mut cpu, AddressingMode::Immediate);
    assert_eq!(cpu.registers.a, 0xFF);
    assert_eq!(flags(&cpu), (true, false, true, false));
    assert_eq!(cpu.registers.pc, 0x0002);

    let mut cpu = with_immediate(0x80);
    cpu.registers.a = 0xFF;
    arr(&mut cpu, AddressingMode::Immediate);
    assert_eq!(cpu.registers.a, 0x40);
    assert_eq!(flags(&cpu), (true, false, false, true));

    let mut cpu = with_immediate(0x40);
    cpu.registers.a = 0xFF;
    arr(&mut cpu, AddressingMode::Immediate);
    assert_eq!(cpu.registers.a, 0x20);
    assert_eq!(flags(&cpu), (false, false, false, true));

    let mut cpu = with_immediate(0x00);
    cpu.registers.a = 0xFF;
    arr(&mut cpu, AddressingMode::Immediate);
    assert_eq!(cpu.registers.a, 0x00);
    assert_eq!(flags(&cpu), (false, true, false, false));
}

#[test]
fn test_xaa() {
    let mut cpu = with_immediate(0xF0);
    cpu.registers.a = 0x0F;
    cpu.registers.x = 0x3C;
    xaa(&mut cpu, AddressingMode::Immediate);
    assert_eq!(cpu.registers.a, 0x30);
    assert_eq!(cpu.registers.x, 0x3C);
    assert_eq!(flags(&cpu), (false, false, false, false));
    assert_eq!(cpu.registers.pc, 0x0002);
}

#[test]
fn test_axs() {
    let mut cpu = with_immediate(0x05);
    cpu.registers.a = 0xFF;
    cpu.registers.x = 0x0F;
    axs(&mut cpu, AddressingMode::Immediate);
    assert_eq!(cpu.registers.x, 0x0A);
    assert_eq!(cpu.registers.a, 0xFF);
    assert_eq!(flags(&cpu), (true, false, false, false));
    assert_eq!(cpu.registers.pc, 0x0002);

    let mut cpu = with_immediate(0x10);
    cpu.registers.a = 0xFF;
    cpu.registers.x = 0x0F;
    axs(&mut cpu, AddressingMode::Immediate);
    assert_eq!(cpu.registers.x, 0xFF);
    assert_eq!(flags(&cpu), (false, false, true, false));
}

#[test]
fn test_axs_takes_no_borrow_in() {
    let mut cpu = with_immediate(0x0F);
    cpu.registers.a = 0x0F;
    cpu.registers.x = 0xFF;
    axs(&mut cpu, AddressingMode::Immediate);
    assert_eq!(cpu.registers.x, 0x00);
    assert_eq!(flags(&cpu), (true, true, false, false));
}

/// A processor whose operand in `AbsoluteY` mode is at 0x1210.
fn with_absolute_y() -> Cpu6502 {
    let mut cpu = get_cpu();
    cpu.memory.load(&[0x00, 0x00, 0x12], 0x0000);
    cpu.registers.y = 0x10;
    cpu
}

#[test]
fn test_ahx() {
    let mut cpu = with_absolute_y();
    cpu.registers.a = 0xFF;
    cpu.registers.x = 0xF7;
    ahx(&mut cpu, AddressingMode::AbsoluteY);
    assert_eq!(cpu.memory.read(0x1210), 0x13);
    assert_eq!(cpu.registers.status, 0x00);
    assert_eq!(cpu.registers.pc, 0x0003);
}

#[test]
fn test_tas() {
    let mut cpu = with_absolute_y();
    cpu.registers.a = 0x7F;
    cpu.registers.x = 0xF3;
    tas(&mut cpu, AddressingMode::AbsoluteY);
    assert_eq!(cpu.registers.sp, 0x73);
    assert_eq!(cpu.memory.read(0x1210), 0x13);
    assert_eq!(cpu.registers.status, 0x00);
    assert_eq!(cpu.registers.pc, 0x0003);
}

#[test]
fn test_shx() {
    let mut cpu = with_absolute_y();
    cpu.registers.x = 0xFF;
    shx(&mut cpu, AddressingMode::AbsoluteY);
    assert_eq!(cpu.memory.read(0x1210), 0x13);
    assert_eq!(cpu.registers.pc, 0x0003);
}

#[test]
fn test_shy() {
    let mut cpu = get_cpu();
    cpu.memory.load(&[0x00, 0xF0, 0xFF], 0x0000);
    cpu.registers.x = 0x01;
    cpu.registers.y = 0xFF;
    cpu.memory.write(0xFFF1, 0xEE);
    shy(&mut cpu, AddressingMode::AbsoluteX);
    assert_eq!(cpu.memory.read(0xFFF1), 0x00);
    assert_eq!(cpu.registers.pc, 0x0003);
}

#[test]
fn test_las() {
    let mut cpu = with_absolute_y();
    cpu.memory.write(0x1210, 0xF0);
    cpu.registers.sp = 0x3C;
    las(&mut cpu, AddressingMode::AbsoluteY);
    assert_eq!(cpu.registers.a, 0x30);
    assert_eq!(cpu.registers.x, 0x30);
    assert_eq!(cpu.registers.sp, 0x30);
    assert_eq!(flags(&cpu), (false, false, false, false));
    assert_eq!(cpu.registers.pc, 0x0003);
}
