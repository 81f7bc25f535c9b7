use emul::cpu::cpu_6502::get_cpu;
use emul::cpu::flag::Flag;

const FLAGS: [Flag; 8] = [
    Flag::Carry,
    Flag::Zero,
    Flag::Interrupt,
    Flag::Decimal,
    Flag::Break,
    Flag::Unused,
    Flag::Overflow,
    Flag::Negative,
];

#[test]
fn test_flag_masks() {
    assert_eq!(Flag::Carry.mask(), 0b0000_0001);
    assert_eq!(Flag::Zero.mask(), 0b0000_0010);
    assert_eq!(Flag::Interrupt.mask(), 0b0000_0100);
    assert_eq!(Flag::Decimal.mask(), 0b0000_1000);
    assert_eq!(Flag::Break.mask(), 0b0001_0000);
    assert_eq!(Flag::Unused.mask(), 0b0010_0000);
    assert_eq!(Flag::Overflow.mask(), 0b0100_0000);
    assert_eq!(Flag::Negative.mask(), 0b1000_0000);
}

#[test]
fn test_flag_set_then_get() {
    for flag in FLAGS {
        let mut cpu = get_cpu();
        assert_eq!(cpu.get_flag(flag), false);
        cpu.set_flag(flag, true);
        assert_eq!(cpu.get_flag(flag), true);
        assert_eq!(cpu.registers.status, flag.mask());
        cpu.set_flag(flag, false);
        assert_eq!(cpu.get_flag(flag), false);
        assert_eq!(cpu.registers.status, 0);
    }
}

#[test]
fn test_flag_independence_every_status() {
    for status in 0..=255u8 {
        for written in FLAGS {
            for value in [false, true] {
                let mut cpu = get_cpu();
                cpu.registers.status = status;
                let before: Vec<bool> = FLAGS.iter().map(|f| cpu.get_flag(*f)).collect();
                cpu.set_flag(written, value);
                for (i, read) in FLAGS.iter().enumerate() {
                    if *read == written {
                        assert_eq!(cpu.get_flag(*read), value);
                    } else {
                        assert_eq!(cpu.get_flag(*read), before[i]);
                    }
                }
            }
        }
    }
}

#[test]
fn test_set_flag_touches_only_the_status() {
    let mut cpu = get_cpu();
    cpu.registers.a = 0x12;
    cpu.registers.x = 0x34;
    cpu.registers.y = 0x56;
    cpu.registers.sp = 0x78;
    cpu.registers.pc = 0x9ABC;
    cpu.memory.write(0x0200, 0xEE);
    cpu.set_flag(Flag::Overflow, true);
    assert_eq!(cpu.registers.a, 0x12);
    assert_eq!(cpu.registers.x, 0x34);
    assert_eq!(cpu.registers.y, 0x56);
    assert_eq!(cpu.registers.sp, 0x78);
    assert_eq!(cpu.registers.pc, 0x9ABC);
    assert_eq!(cpu.registers.status, 0b0100_0000);
    assert_eq!(cpu.memory.read(0x0200), 0xEE);
}
