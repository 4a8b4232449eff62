use nes_core::alu::Flag;
use nes_core::bus::{ArrayBus, BusFault, Mem, RomBus};
use nes_core::cpu::CPU;
use nes_core::machine::{Fault, Halt};
use nes_core::rom::{rom_reader, Rom};

/// An iNES image of one program bank that starts with `program`, with the
/// reset vector pointing at 0x8000, and one character bank.
fn image(program: &[u8]) -> Vec<u8> {
    let mut raw = vec![0u8; 16 + 0x4000 + 0x2000];
    raw[0] = b'N';
    raw[1] = b'E';
    raw[2] = b'S';
    raw[3] = 0x1A;
    raw[4] = 1;
    raw[5] = 1;
    raw[16..16 + program.len()].copy_from_slice(program);
    raw[16 + 0x3FFC] = 0x00;
    raw[16 + 0x3FFD] = 0x80;
    raw
}

fn console(program: &[u8]) -> CPU<RomBus> {
    let rom = rom_reader(&image(program)).unwrap();
    let mut bus = RomBus::new();
    bus.set_rom(rom);
    CPU::new(bus, false)
}

#[test]
fn program_lda_immediate() {
    let mut cpu = console(&[0xA9, 0x05, 0x00]);
    assert_eq!(cpu.start(), Ok(()));
    assert_eq!(cpu.program_counter, 0x8000);
    assert_eq!(cpu.run(100), Halt::Break);
    assert_eq!(cpu.register_a, 0x05);
    assert!(!cpu.get_flag(Flag::Z));
    assert!(!cpu.get_flag(Flag::N));
    assert_eq!(cpu.program_counter, 0x8003);
}

#[test]
fn program_lda_zero_then_tax() {
    let mut cpu = console(&[0xA9, 0x00, 0xAA, 0x00]);
    assert_eq!(cpu.start(), Ok(()));
    assert_eq!(cpu.run(100), Halt::Break);
    assert_eq!(cpu.register_a, 0x00);
    assert_eq!(cpu.register_x, 0x00);
    assert!(cpu.get_flag(Flag::Z));
    assert!(!cpu.get_flag(Flag::N));
}

#[test]
fn program_tax_then_inx() {
    let mut cpu = console(&[0xA9, 0x80, 0xAA, 0xE8, 0x00]);
    assert_eq!(cpu.start(), Ok(()));
    assert_eq!(cpu.run(100), Halt::Break);
    assert_eq!(cpu.register_a, 0x80);
    assert_eq!(cpu.register_x, 0x81);
    assert!(cpu.get_flag(Flag::N));
    assert!(!cpu.get_flag(Flag::Z));
}

#[test]
fn program_branch_on_carry_clear() {
    let program = [0x90, 0x03, 0x00, 0x00, 0x00, 0x00];

    let mut cpu = console(&program);
    cpu.set_flag(Flag::C, false);
    assert_eq!(cpu.start(), Ok(()));
    assert_eq!(cpu.run(100), Halt::Break);
    assert_eq!(cpu.program_counter, 0x8006);

    let mut cpu = console(&program);
    cpu.set_flag(Flag::C, true);
    assert_eq!(cpu.start(), Ok(()));
    assert_eq!(cpu.run(100), Halt::Break);
    assert_eq!(cpu.program_counter, 0x8003);
}

#[test]
fn taken_branch_with_negative_offset() {
    let mut cpu = CPU::new(ArrayBus::new(), false);
    assert_eq!(cpu.mem_write(0x8001, 0x95), Ok(()));
    cpu.program_counter = 0x8001;
    assert_eq!(cpu.jump_rel(true), Ok(()));
    // 0x95 is -107, counted from 0x8002, the address behind the operand.
    assert_eq!(cpu.program_counter, 0x8002 - 107);
    assert_eq!(cpu.program_counter, 0x7F97);
}

#[test]
fn branch_not_taken_rests_behind_the_operand() {
    let mut cpu = CPU::new(ArrayBus::new(), false);
    assert_eq!(cpu.mem_write(0x8001, 0x95), Ok(()));
    cpu.program_counter = 0x8001;
    assert_eq!(cpu.jump_rel(false), Ok(()));
    assert_eq!(cpu.program_counter, 0x8002);
}

#[test]
fn branch_target_wraps_at_sixteen_bits() {
    let mut cpu = CPU::new(ArrayBus::new(), false);
    assert_eq!(cpu.mem_write(0xFFFE, 0x7F), Ok(()));
    cpu.program_counter = 0xFFFE;
    assert_eq!(cpu.jump_rel(true), Ok(()));
    assert_eq!(cpu.program_counter, 0x007E);

    assert_eq!(cpu.mem_write(0x0000, 0x80), Ok(()));
    cpu.program_counter = 0x0000;
    assert_eq!(cpu.jump_rel(true), Ok(()));
    assert_eq!(cpu.program_counter, 0xFF81);
}

#[test]
fn nrom128_mirrors_its_bank() {
    let rom = rom_reader(&image(&[0x42])).unwrap();
    assert_eq!(rom.prg_read(0x8000), Some(0x42));
    assert_eq!(rom.prg_read(0xC000), Some(0x42));

    let mut cpu = console(&[0x42]);
    assert_eq!(cpu.mem_read(0x8000), Ok(0x42));
    assert_eq!(cpu.mem_read(0xC000), Ok(0x42));
    assert_eq!(cpu.mem_read(0xBFFD), Ok(0x80));
    assert_eq!(cpu.mem_read(0xFFFD), Ok(0x80));
}

#[test]
fn run_stops_when_the_allowance_is_used_up() {
    // JMP 0x8000
    let mut cpu = console(&[0x4C, 0x00, 0x80]);
    assert_eq!(cpu.start(), Ok(()));
    assert_eq!(cpu.run(0), Halt::Limit);
    assert_eq!(cpu.program_counter, 0x8000);
    assert_eq!(cpu.run(1000), Halt::Limit);
    assert_eq!(cpu.program_counter, 0x8000);
}

#[test]
fn run_stops_at_an_unknown_opcode() {
    let mut cpu = console(&[0xEA, 0x02]);
    assert_eq!(cpu.start(), Ok(()));
    assert_eq!(cpu.run(100), Halt::Fault(Fault::UnknownOpcode(0x02)));
    assert_eq!(cpu.program_counter, 0x8002);
}

#[test]
fn step_reports_an_unknown_opcode() {
    let mut cpu = console(&[0xFF]);
    assert_eq!(cpu.start(), Ok(()));
    assert_eq!(cpu.step(), Err(Fault::UnknownOpcode(0xFF)));
}

#[test]
fn run_stops_at_a_write_to_rom() {
    // LDA #$01 ; STA $8000
    let mut cpu = console(&[0xA9, 0x01, 0x8D, 0x00, 0x80]);
    assert_eq!(cpu.start(), Ok(()));
    assert_eq!(
        cpu.run(100),
        Halt::Fault(Fault::Bus(BusFault::RomWrite(0x8000)))
    );
}

#[test]
fn run_stops_at_an_unmapped_address() {
    // LDA $5000
    let mut cpu = console(&[0xAD, 0x00, 0x50]);
    assert_eq!(cpu.start(), Ok(()));
    assert_eq!(
        cpu.run(100),
        Halt::Fault(Fault::Bus(BusFault::Unmapped(0x5000)))
    );
    // STA $4020
    let mut cpu = console(&[0x8D, 0x20, 0x40]);
    assert_eq!(cpu.start(), Ok(()));
    assert_eq!(cpu.step(), Err(Fault::Bus(BusFault::Unmapped(0x4020))));
}

#[test]
fn start_without_a_cartridge_faults() {
    let mut cpu = CPU::new(RomBus::new(), false);
    assert_eq!(cpu.start(), Err(BusFault::Unmapped(0xFFFC)));
}

#[test]
fn registers_follow_a_reset() {
    let mut cpu = console(&[0xA9, 0x05, 0xAA, 0xA8, 0x38, 0x00]);
    assert_eq!(cpu.start(), Ok(()));
    assert_eq!(cpu.run(100), Halt::Break);
    assert_eq!((cpu.register_a, cpu.register_x, cpu.register_y), (5, 5, 5));
    assert!(cpu.get_flag(Flag::C));
    cpu.stack_pointer = 0x80;
    assert_eq!(cpu.reset(), Ok(()));
    assert_eq!((cpu.register_a, cpu.register_x, cpu.register_y), (0, 0, 0));
    assert_eq!(cpu.status, 0b0010_0000);
    assert_eq!(cpu.program_counter, 0x8000);
    assert_eq!(cpu.stack_pointer, 0x80);
}

#[test]
fn new_processor_has_its_registers_at_rest() {
    let cpu = CPU::new(ArrayBus::new(), true);
    assert_eq!(cpu.register_a, 0);
    assert_eq!(cpu.register_x, 0);
    assert_eq!(cpu.register_y, 0);
    assert_eq!(cpu.stack_pointer, 0xFF);
    assert_eq!(cpu.status, 0b0010_0000);
    assert_eq!(cpu.program_counter, 0);
    assert!(cpu.debug);
}

#[test]
fn device_windows_read_zero_and_keep_nothing() {
    let mut cpu = console(&[0x00]);
    for addr in [0x2000u16, 0x2007, 0x3FFF, 0x4000, 0x4017, 0x4018, 0x401F, 0x6000, 0x7FFF] {
        assert_eq!(cpu.mem_write(addr, 0xEE), Ok(()));
        assert_eq!(cpu.mem_read(addr), Ok(0x00));
    }
}

#[test]
fn program_counts_down_in_a_loop() {
    // LDX #$03 ; loop: DEX ; BNE loop ; BRK
    let mut cpu = console(&[0xA2, 0x03, 0xCA, 0xD0, 0xFD, 0x00]);
    assert_eq!(cpu.start(), Ok(()));
    assert_eq!(cpu.run(100), Halt::Break);
    assert_eq!(cpu.register_x, 0);
    assert!(cpu.get_flag(Flag::Z));
    assert_eq!(cpu.program_counter, 0x8006);
}
