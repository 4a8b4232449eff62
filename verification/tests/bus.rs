use nes_core::bus::{region, ArrayBus, BusFault, ControlSignal, Mem, Region, RomBus};
use nes_core::rom::{Cartridge, Nrom128, Rom};

#[test]
fn test() {}

fn write(bus: &mut RomBus, addr: u16, val: u8) -> Result<(), BusFault> {
    bus.set_control_signal(ControlSignal::MemEnable, false).unwrap();
    bus.set_address_bus(addr);
    bus.set_control_signal(ControlSignal::AccessMode, false).unwrap();
    bus.set_data_bus(val);
    let r = bus.set_control_signal(ControlSignal::MemEnable, true);
    bus.set_control_signal(ControlSignal::MemEnable, false).unwrap();
    r
}

fn read(bus: &mut RomBus, addr: u16) -> Result<u8, BusFault> {
    bus.set_control_signal(ControlSignal::MemEnable, false).unwrap();
    bus.set_address_bus(addr);
    bus.set_control_signal(ControlSignal::AccessMode, true).unwrap();
    let r = bus.set_control_signal(ControlSignal::MemEnable, true);
    let val = bus.get_data_bus();
    bus.set_control_signal(ControlSignal::MemEnable, false).unwrap();
    r.map(|_| val)
}

#[test]
fn ram_write_shows_at_every_mirror() {
    let mut bus = RomBus::new();
    assert_eq!(write(&mut bus, 0x0123, 0xAB), Ok(()));
    assert_eq!(read(&mut bus, 0x0123), Ok(0xAB));
    assert_eq!(read(&mut bus, 0x0923), Ok(0xAB));
    assert_eq!(read(&mut bus, 0x1123), Ok(0xAB));
    assert_eq!(read(&mut bus, 0x1923), Ok(0xAB));
    assert_eq!(read(&mut bus, 0x0124), Ok(0x00));
}

#[test]
fn array_bus_is_flat() {
    let mut bus = ArrayBus::new();
    bus.set_address_bus(0xFFFF);
    bus.set_data_bus(0x5A);
    assert_eq!(bus.set_control_signal(ControlSignal::MemEnable, true), Ok(()));
    bus.set_data_bus(0);
    assert_eq!(bus.set_control_signal(ControlSignal::AccessMode, true), Ok(()));
    assert_eq!(bus.get_data_bus(), 0x5A);
    assert!(bus.get_control_signal(ControlSignal::MemEnable));
    assert!(bus.get_control_signal(ControlSignal::AccessMode));
}

#[test]
fn control_signals_have_their_bits() {
    assert_eq!(ControlSignal::MemEnable.mask(), 0b0000_0001);
    assert_eq!(ControlSignal::AccessMode.mask(), 0b0000_0010);
}

#[test]
fn every_address_has_its_region() {
    assert_eq!(region(0x0000), Region::Ram);
    assert_eq!(region(0x07FF), Region::Ram);
    assert_eq!(region(0x0800), Region::Ram);
    assert_eq!(region(0x1FFF), Region::Ram);
    assert_eq!(region(0x2000), Region::Ppu(0));
    assert_eq!(region(0x2007), Region::Ppu(7));
    assert_eq!(region(0x2008), Region::Ppu(0));
    assert_eq!(region(0x3FFF), Region::Ppu(7));
    assert_eq!(region(0x4000), Region::Io);
    assert_eq!(region(0x4017), Region::Io);
    assert_eq!(region(0x4018), Region::Disabled);
    assert_eq!(region(0x401F), Region::Disabled);
    assert_eq!(region(0x4020), Region::Unmapped);
    assert_eq!(region(0x5FFF), Region::Unmapped);
    assert_eq!(region(0x6000), Region::CartridgeRam);
    assert_eq!(region(0x7FFF), Region::CartridgeRam);
    assert_eq!(region(0x8000), Region::Rom);
    assert_eq!(region(0xFFFF), Region::Rom);
}

#[test]
fn a_new_bus_is_at_rest_and_zeroed() {
    let mut bus = RomBus::new();
    assert!(!bus.get_control_signal(ControlSignal::MemEnable));
    assert!(!bus.get_control_signal(ControlSignal::AccessMode));
    assert_eq!(bus.get_data_bus(), 0);
    for addr in [0x0000u16, 0x0001, 0x07FF, 0x1FFF] {
        assert_eq!(read(&mut bus, addr), Ok(0));
    }
}

#[test]
fn nothing_happens_while_the_bus_is_disabled() {
    let mut bus = RomBus::new();
    bus.set_address_bus(0x9000);
    bus.set_data_bus(0x77);
    // a write to ROM is set up, and never run
    assert_eq!(bus.set_control_signal(ControlSignal::AccessMode, false), Ok(()));
    assert_eq!(bus.set_control_signal(ControlSignal::AccessMode, true), Ok(()));
    assert_eq!(bus.get_data_bus(), 0x77);
}

#[test]
fn rom_and_the_unmapped_range_turn_accesses_down() {
    let mut bus = RomBus::new();
    assert_eq!(write(&mut bus, 0x8000, 1), Err(BusFault::RomWrite(0x8000)));
    assert_eq!(write(&mut bus, 0xFFFF, 1), Err(BusFault::RomWrite(0xFFFF)));
    assert_eq!(write(&mut bus, 0x4020, 1), Err(BusFault::Unmapped(0x4020)));
    assert_eq!(write(&mut bus, 0x5FFF, 1), Err(BusFault::Unmapped(0x5FFF)));
    assert_eq!(read(&mut bus, 0x4020), Err(BusFault::Unmapped(0x4020)));
    assert_eq!(read(&mut bus, 0x5FFF), Err(BusFault::Unmapped(0x5FFF)));
    // no cartridge in the slot
    assert_eq!(read(&mut bus, 0x8000), Err(BusFault::Unmapped(0x8000)));
    // a fault leaves the data lines alone
    bus.set_data_bus(0x33);
    bus.set_address_bus(0x5000);
    bus.set_control_signal(ControlSignal::AccessMode, true).unwrap();
    assert_eq!(
        bus.set_control_signal(ControlSignal::MemEnable, true),
        Err(BusFault::Unmapped(0x5000))
    );
    assert_eq!(bus.get_data_bus(), 0x33);
}

#[test]
fn set_rom_puts_a_cartridge_on_the_bus() {
    let mut bus = RomBus::new();
    assert_eq!(write(&mut bus, 0x0010, 0x99), Ok(()));
    let mut raw = vec![0u8; 16 + 0x4000 + 0x2000];
    raw[4] = 1;
    raw[5] = 1;
    raw[16] = 0x42;
    raw[16 + 0x3FFF] = 0x24;
    let mut rom = Nrom128::new();
    assert_eq!(rom.load(&raw, false), Ok(()));
    bus.set_rom(Cartridge::Nrom128(rom));
    assert_eq!(read(&mut bus, 0x8000), Ok(0x42));
    assert_eq!(read(&mut bus, 0xC000), Ok(0x42));
    assert_eq!(read(&mut bus, 0xFFFF), Ok(0x24));
    assert_eq!(read(&mut bus, 0x0010), Ok(0x99));
    assert_eq!(write(&mut bus, 0x8000, 0), Err(BusFault::RomWrite(0x8000)));
    assert_eq!(read(&mut bus, 0x8000), Ok(0x42));
}

#[test]
fn every_cell_of_ram_shows_at_four_addresses() {
    let mut bus = RomBus::new();
    for a in 0..0x0800u16 {
        assert_eq!(write(&mut bus, a, (a % 253) as u8 + 1), Ok(()));
    }
    for a in 0..0x0800u16 {
        for k in 0..4u16 {
            assert_eq!(read(&mut bus, a + 0x0800 * k), Ok((a % 253) as u8 + 1));
        }
    }
    // and a write through a mirror shows at the cell itself
    assert_eq!(write(&mut bus, 0x1805, 0xEE), Ok(()));
    assert_eq!(read(&mut bus, 0x0005), Ok(0xEE));
}

#[test]
fn enabling_runs_a_cycle_on_every_change_of_a_control_line() {
    let mut bus = ArrayBus::new();
    bus.set_address_bus(0x0040);
    bus.set_data_bus(0x11);
    assert_eq!(bus.set_control_signal(ControlSignal::MemEnable, true), Ok(()));
    // still enabled and writing: the next change of a line writes again
    bus.set_address_bus(0x0041);
    bus.set_data_bus(0x22);
    assert_eq!(bus.set_control_signal(ControlSignal::MemEnable, true), Ok(()));
    // switching to reading reads at once
    bus.set_address_bus(0x0040);
    assert_eq!(bus.set_control_signal(ControlSignal::AccessMode, true), Ok(()));
    assert_eq!(bus.get_data_bus(), 0x11);
    bus.set_address_bus(0x0041);
    assert_eq!(bus.get_data_bus(), 0x11);
    assert_eq!(bus.set_control_signal(ControlSignal::MemEnable, true), Ok(()));
    assert_eq!(bus.get_data_bus(), 0x22);
}
