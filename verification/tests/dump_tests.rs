use emul::cpu::cpu_6502::get_cpu;
use emul::cpu::register::Registers;
use emul::emulator::Emulator;
use emul::memory::ram::Ram;

fn text(bytes: Vec<u8>) -> String {
    String::from_utf8(bytes).unwrap()
}

#[test]
fn test_hexdump_of_a_blank_memory() {
    assert_eq!(text(Ram::new().hexdump()), "");
}

#[test]
fn test_hexdump_one_row() {
    let mut ram = Ram::new();
    ram.load(b"Hello, 6502!", 0x0600);
    assert_eq!(
        text(ram.hexdump()),
        "0600  48 65 6C 6C 6F 2C 20 36 35 30 32 21 00 00 00 00   Hello, 6502!....\n"
    );
}

#[test]
fn test_hexdump_skips_rows_of_zeros() {
    let mut ram = Ram::new();
    ram.write(0x000F, 0x7F);
    ram.write(0x0021, 0x7E);
    ram.write(0xFFF0, 0x1F);
    ram.write(0xFFFF, 0xFF);
    assert_eq!(
        text(ram.hexdump()),
        "0000  00 00 00 00 00 00 00 00 00 00 00 00 00 00 00 7F   ................\n\
         0020  00 7E 00 00 00 00 00 00 00 00 00 00 00 00 00 00   .~..............\n\
         FFF0  1F 00 00 00 00 00 00 00 00 00 00 00 00 00 00 FF   ................\n"
    );
}

#[test]
fn test_hexdump_printable_range() {
    let mut ram = Ram::new();
    ram.load(&[31, 32, 33, 125, 126, 127, 128, 255], 0x1230);
    assert_eq!(
        text(ram.hexdump()),
        "1230  1F 20 21 7D 7E 7F 80 FF 00 00 00 00 00 00 00 00   . !}~...........\n"
    );
}

#[test]
fn test_hexdump_every_row() {
    let mut ram = Ram::new();
    ram.load(&vec![0x41u8; 0x10000], 0x0000);
    let dump = text(ram.hexdump());
    assert_eq!(dump.lines().count(), 4096);
    assert_eq!(dump.len(), 4096 * 73);
    assert_eq!(
        dump.lines().nth(0x123).unwrap(),
        "1230  41 41 41 41 41 41 41 41 41 41 41 41 41 41 41 41   AAAAAAAAAAAAAAAA"
    );
}

#[test]
fn test_cpu_dump() {
    let mut cpu = get_cpu();
    assert_eq!(text(cpu.dump()), "A: 00 X: 00 Y: 00 SP: FF PC: 0000 Status: 00\n");
    cpu.registers = Registers { a: 0x0A, x: 0xB1, y: 0x2C, sp: 0xD3, pc: 0x4E5F, status: 0xA9 };
    assert_eq!(text(cpu.dump()), "A: 0A X: B1 Y: 2C SP: D3 PC: 4E5F Status: A9\n");
}

#[test]
fn test_emulator_new() {
    let emulator = Emulator::new();
    assert_eq!(emulator.cpu.registers, Registers::new());
    assert_eq!(emulator.dump(0, 0x10000), vec![0u8; 0x10000]);
    assert_eq!(emulator.cpu.memory.dump(0, 0x10000), vec![0u8; 0x10000]);
}

#[test]
fn test_emulator_load_then_flash() {
    let mut emulator = Emulator::new();
    emulator.load(&[0xA9, 0x01, 0x02], 0x0600);
    assert_eq!(emulator.dump(0x0600, 3), vec![0xA9, 0x01, 0x02]);
    assert_eq!(emulator.cpu.memory.read(0x0600), 0x00);
    emulator.flash_ram();
    assert_eq!(emulator.cpu.memory.read(0x0600), 0xA9);
    assert_eq!(emulator.cpu.memory.read(0x0601), 0x01);
    assert_eq!(emulator.dump(0x0600, 3), vec![0xA9, 0x01, 0x02]);
    assert_eq!(emulator.cpu.registers, Registers::new());
}

#[test]
fn test_emulator_reset() {
    let mut emulator = Emulator::new();
    emulator.load(&[0x00, 0x06], 0xFFFC);
    emulator.flash_ram();
    emulator.cpu.registers.a = 0x55;
    emulator.reset();
    assert_eq!(emulator.dump(0xFFFC, 2), vec![0x00, 0x00]);
    assert_eq!(emulator.cpu.memory.read(0xFFFD), 0x06);
    assert_eq!(
        emulator.cpu.registers,
        Registers { a: 0, x: 0, y: 0, sp: 0xFF, pc: 0x0600, status: 0 }
    );
}

#[test]
fn test_emulator_text() {
    let mut emulator = Emulator::new();
    emulator.load(&[0x41], 0x0010);
    assert_eq!(
        text(emulator.hexdump()),
        "0010  41 00 00 00 00 00 00 00 00 00 00 00 00 00 00 00   A...............\n"
    );
    assert_eq!(text(emulator.dump_cpu()), "A: 00 X: 00 Y: 00 SP: 00 PC: 0000 Status: 00\n");
}
