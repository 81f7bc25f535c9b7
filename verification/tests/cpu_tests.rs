use emul::cpu::cpu_6502::{get_cpu, high_of, low_of, make_word, next_address, stack_slot, Cpu6502};
use emul::cpu::register::Registers;
use emul::memory::ram::Ram;

#[test]
fn test_registers_new() {
    let registers = Registers::new();
    assert_eq!(registers, Registers { a: 0, x: 0, y: 0, sp: 0, pc: 0, status: 0 });
}

#[test]
fn test_cpu_new_keeps_the_memory() {
    let mut ram = Ram::new();
    ram.write(0x1234, 0x56);
    let cpu = Cpu6502::new(ram);
    assert_eq!(cpu.registers, Registers::new());
    assert_eq!(cpu.memory.read(0x1234), 0x56);
}

#[test]
fn test_get_cpu() {
    let cpu = get_cpu();
    assert_eq!(cpu.registers, Registers { a: 0, x: 0, y: 0, sp: 0xFF, pc: 0, status: 0 });
    assert_eq!(cpu.memory.dump(0, 0x10000), vec![0u8; 0x10000]);
}

#[test]
fn test_reset_loads_the_reset_vector() {
    let mut cpu = get_cpu();
    cpu.memory.write(0xFFFC, 0x00);
    cpu.memory.write(0xFFFD, 0x02);
    cpu.reset();
    assert_eq!(cpu.registers.pc, 0x0200);
}

#[test]
fn test_reset_clears_the_registers() {
    let mut cpu = get_cpu();
    cpu.registers = Registers { a: 1, x: 2, y: 3, sp: 4, pc: 5, status: 6 };
    cpu.memory.write(0xFFFC, 0x34);
    cpu.memory.write(0xFFFD, 0x12);
    cpu.memory.write(0x0300, 0x99);
    cpu.reset();
    assert_eq!(cpu.registers, Registers { a: 0, x: 0, y: 0, sp: 0xFF, pc: 0x1234, status: 0 });
    assert_eq!(cpu.memory.read(0x0300), 0x99);
    assert_eq!(cpu.memory.read(0xFFFC), 0x34);
}

#[test]
fn test_read_byte_moves_the_program_counter() {
    let mut cpu = get_cpu();
    cpu.memory.write(0x0040, 0x7E);
    cpu.registers.pc = 0x0010;
    assert_eq!(cpu.read_byte(0x0040), 0x7E);
    assert_eq!(cpu.registers.pc, 0x0011);
    cpu.registers.pc = 0xFFFF;
    assert_eq!(cpu.read_byte(0x0040), 0x7E);
    assert_eq!(cpu.registers.pc, 0x0000);
}

#[test]
fn test_read_word_is_little_endian() {
    let mut cpu = get_cpu();
    cpu.memory.write(0x0040, 0x34);
    cpu.memory.write(0x0041, 0x12);
    assert_eq!(cpu.read_word(0x0040), 0x1234);
    assert_eq!(cpu.registers.pc, 0x0002);
}

#[test]
fn test_read_word_at_the_last_address() {
    let mut cpu = get_cpu();
    cpu.memory.write(0xFFFF, 0xCD);
    cpu.memory.write(0x0000, 0xAB);
    assert_eq!(cpu.read_word(0xFFFF), 0xABCD);
}

#[test]
fn test_write_byte_moves_the_program_counter() {
    let mut cpu = get_cpu();
    cpu.write_byte(0x0200, 0x42);
    assert_eq!(cpu.memory.read(0x0200), 0x42);
    assert_eq!(cpu.registers.pc, 0x0001);
}

#[test]
fn test_write_word_is_little_endian() {
    let mut cpu = get_cpu();
    cpu.write_word(0x0200, 0xBEEF);
    assert_eq!(cpu.memory.read(0x0200), 0xEF);
    assert_eq!(cpu.memory.read(0x0201), 0xBE);
    assert_eq!(cpu.registers.pc, 0x0002);
    cpu.write_word(0xFFFF, 0x1234);
    assert_eq!(cpu.memory.read(0xFFFF), 0x34);
    assert_eq!(cpu.memory.read(0x0000), 0x12);
}

#[test]
fn test_word_helpers() {
    assert_eq!(make_word(0x34, 0x12), 0x1234);
    assert_eq!(make_word(0xFF, 0xFF), 0xFFFF);
    assert_eq!(low_of(0x1234), 0x34);
    assert_eq!(high_of(0x1234), 0x12);
    assert_eq!(next_address(0x00FF), 0x0100);
    assert_eq!(next_address(0xFFFF), 0x0000);
    assert_eq!(stack_slot(0xFF), 0x01FF);
    assert_eq!(stack_slot(0x00), 0x0100);
}

#[test]
fn test_push_writes_then_decrements() {
    let mut cpu = get_cpu();
    cpu.push_stack(0xAB);
    assert_eq!(cpu.memory.read(0x01FF), 0xAB);
    assert_eq!(cpu.registers.sp, 0xFE);
    cpu.push_stack(0xCD);
    assert_eq!(cpu.memory.read(0x01FE), 0xCD);
    assert_eq!(cpu.registers.sp, 0xFD);
}

#[test]
fn test_pop_increments_then_reads() {
    let mut cpu = get_cpu();
    cpu.registers.sp = 0x10;
    cpu.memory.write(0x0111, 0x77);
    assert_eq!(cpu.pop_stack(), 0x77);
    assert_eq!(cpu.registers.sp, 0x11);
}

#[test]
fn test_stack_pointer_wraps() {
    let mut cpu = get_cpu();
    cpu.registers.sp = 0x00;
    cpu.push_stack(0x5A);
    assert_eq!(cpu.memory.read(0x0100), 0x5A);
    assert_eq!(cpu.registers.sp, 0xFF);
    assert_eq!(cpu.pop_stack(), 0x5A);
    assert_eq!(cpu.registers.sp, 0x00);
}

#[test]
fn test_push_word_stores_high_byte_first() {
    let mut cpu = get_cpu();
    cpu.push_word_stack(0x1234);
    assert_eq!(cpu.memory.read(0x01FF), 0x12);
    assert_eq!(cpu.memory.read(0x01FE), 0x34);
    assert_eq!(cpu.registers.sp, 0xFD);
}

#[test]
fn test_stack_round_trip_every_stack_pointer() {
    for sp in 0..=255u8 {
        for word in [0x0000u16, 0x0001, 0x00FF, 0x0100, 0x1234, 0x8000, 0xFFFE, 0xFFFF] {
            let mut cpu = get_cpu();
            cpu.registers.sp = sp;
            cpu.push_word_stack(word);
            assert_eq!(cpu.pop_word_stack(), word);
            assert_eq!(cpu.registers.sp, sp);
        }
    }
}

#[test]
fn test_stack_round_trip_byte() {
    for byte in 0..=255u8 {
        let mut cpu = get_cpu();
        cpu.registers.sp = byte;
        cpu.push_stack(byte);
        assert_eq!(cpu.pop_stack(), byte);
        assert_eq!(cpu.registers.sp, byte);
    }
}
