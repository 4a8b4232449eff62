//! The memory bus: address, data and control lines, driven one by one, and
//! the two buses of the library: a flat memory, and the console's address map
//! with work RAM, register windows and a cartridge slot.

use crate::rom::{zeros, Cartridge, EmptyRom, Rom};
use vstd::prelude::*;

verus! {

/// Size of the console's work RAM.
pub const RAM_LEN: usize = 0x0800;

/// A control line of the bus.
#[derive(Clone, Copy, Debug, PartialEq, Eq, Structural)]
pub enum ControlSignal {
    /// While high, every change of a control line runs one memory cycle.
    MemEnable,
    /// High for a read cycle, low for a write cycle.
    AccessMode,
}

impl ControlSignal {
    /// The bit of the control lines that carries this signal.
    pub open spec fn bit(self) -> u8 {
        match self {
            ControlSignal::MemEnable => 0b0000_0001,
            ControlSignal::AccessMode => 0b0000_0010,
        }
    }

    pub fn mask(self) -> (m: u8)
        ensures
            m == self.bit(),
    {
        match self {
            ControlSignal::MemEnable => 0b0000_0001,
            ControlSignal::AccessMode => 0b0000_0010,
        }
    }
}

/// A memory cycle that the bus could not serve.
#[derive(Clone, Copy, Debug, PartialEq, Eq, Structural)]
pub enum BusFault {
    /// A write cycle at an address that ROM answers.
    RomWrite(u16),
    /// A cycle at an address that nothing answers.
    Unmapped(u16),
}

/// What can be observed of a bus: its lines, and the byte that a read cycle
/// delivers at each address that answers.
#[verifier::ext_equal]
pub struct BusState {
    pub address: u16,
    pub data: u8,
    pub enabled: bool,
    pub reading: bool,
    pub cells: Map<u16, u8>,
}

impl BusState {
    /// Level of a control line.
    pub open spec fn signal(self, control: ControlSignal) -> bool {
        match control {
            ControlSignal::MemEnable => self.enabled,
            ControlSignal::AccessMode => self.reading,
        }
    }

    /// The bus with one control line driven to `level`.
    pub open spec fn with_signal(self, control: ControlSignal, level: bool) -> BusState {
        match control {
            ControlSignal::MemEnable => BusState { enabled: level, ..self },
            ControlSignal::AccessMode => BusState { reading: level, ..self },
        }
    }
}

/// One memory cycle: nothing while the bus is disabled; else a read cycle puts
/// the addressed byte on the data lines, and a write cycle leaves the readable
/// bytes as `written` gives them, which is how the bus decodes a write of the
/// byte on its data lines at the address on its address lines. A cycle that
/// cannot be served leaves the bus as it is and reports the fault.
pub open spec fn cycle(s: BusState, written: Result<Map<u16, u8>, BusFault>) -> (
    BusState,
    Result<(), BusFault>,
) {
    if !s.enabled {
        (s, Ok(()))
    } else if s.reading {
        if s.cells.dom().contains(s.address) {
            (BusState { data: s.cells[s.address], ..s }, Ok(()))
        } else {
            (s, Err(BusFault::Unmapped(s.address)))
        }
    } else {
        match written {
            Ok(cells) => (BusState { cells, ..s }, Ok(())),
            Err(fault) => (s, Err(fault)),
        }
    }
}

/// A device on the processor's bus, driven line by line.
pub trait Mem: Sized {
    /// What can be observed of the bus. A bus that states no model of its
    /// own has some fixed, unknown one.
    open spec fn view(&self) -> BusState {
        arbitrary()
    }

    /// What a write cycle of `value` at `address` makes of the readable
    /// bytes, or the fault with which the bus turns it down. A bus that
    /// states no decoding of its own has some fixed, unknown one.
    open spec fn write_cycle(cells: Map<u16, u8>, address: u16, value: u8) -> Result<
        Map<u16, u8>,
        BusFault,
    > {
        arbitrary()
    }

    /// A bus at rest: all lines low.
    fn new() -> (bus: Self)
        ensures
            bus@.address == 0,
            bus@.data == 0,
            !bus@.enabled,
            !bus@.reading,
    ;

    fn set_address_bus(&mut self, addr: u16)
        ensures
            final(self)@ == (BusState { address: addr, ..old(self)@ }),
    ;

    fn set_data_bus(&mut self, val: u8)
        ensures
            final(self)@ == (BusState { data: val, ..old(self)@ }),
    ;

    fn get_data_bus(&self) -> (val: u8)
        ensures
            val == self@.data,
    ;

    /// Drives one control line, then runs a memory cycle if the bus is
    /// enabled.
    fn set_control_signal(&mut self, control: ControlSignal, val: bool) -> (r: Result<
        (),
        BusFault,
    >)
        ensures
            (final(self)@, r) == cycle(
                old(self)@.with_signal(control, val),
                Self::write_cycle(old(self)@.cells, old(self)@.address, old(self)@.data),
            ),
    ;

    fn get_control_signal(&self, control: ControlSignal) -> (level: bool)
        ensures
            level == self@.signal(control),
    ;
}

/// How the two control bits of a byte answer to being set and cleared.
proof fn lemma_control_bits(lines: u8)
    by (bit_vector)
    ensures
        (lines | 1) & 1 != 0,
        (lines | 1) & 2 == lines & 2,
        (lines & !1u8) & 1 == 0,
        (lines & !1u8) & 2 == lines & 2,
        (lines | 2) & 2 != 0,
        (lines | 2) & 1 == lines & 1,
        (lines & !2u8) & 2 == 0,
        (lines & !2u8) & 1 == lines & 1,
{
}

/// The control lines with one signal driven to `level`.
fn drive(lines: u8, control: ControlSignal, level: bool) -> (out: u8)
    ensures
        (out & control.bit() != 0) == level,
        forall|other: ControlSignal|
            other != control ==> (out & other.bit() != 0) == (lines & other.bit() != 0),
{
    proof {
        lemma_control_bits(lines);
    }
    let mask = control.mask();
    if level {
        lines | mask
    } else {
        lines & !mask
    }
}

/// A flat memory: every address answers with a byte of its own.
pub struct ArrayBus {
    address_bus: u16,
    data_bus: u8,
    control_bus: u8,
    data: [u8; 0x10000],
}

impl ArrayBus {
    /// The 64 KiB that the bus holds.
    pub closed spec fn memory(&self) -> Seq<u8> {
        self.data@
    }

    /// The address, data and control lines.
    pub closed spec fn lines(&self) -> (u16, u8, u8) {
        (self.address_bus, self.data_bus, self.control_bus)
    }

    fn update(&mut self) -> (r: Result<(), BusFault>)
        ensures
            (final(self)@, r) == cycle(
                old(self)@,
                Self::write_cycle(old(self)@.cells, old(self)@.address, old(self)@.data),
            ),
    {
        if !self.get_control_signal(ControlSignal::MemEnable) {
            return Ok(());
        }
        if self.get_control_signal(ControlSignal::AccessMode) {
            self.data_bus = self.data[self.address_bus as usize];
        } else {
            self.data[self.address_bus as usize] = self.data_bus;
            assert(self@.cells =~= old(self)@.cells.insert(old(self)@.address, old(self)@.data));
        }
        Ok(())
    }
}

impl Mem for ArrayBus {
    open spec fn view(&self) -> BusState {
        BusState {
            address: self.lines().0,
            data: self.lines().1,
            enabled: self.lines().2 & ControlSignal::MemEnable.bit() != 0,
            reading: self.lines().2 & ControlSignal::AccessMode.bit() != 0,
            cells: Map::new(|a: u16| true, |a: u16| self.memory()[a as int]),
        }
    }

    open spec fn write_cycle(cells: Map<u16, u8>, address: u16, value: u8) -> Result<
        Map<u16, u8>,
        BusFault,
    > {
        Ok(cells.insert(address, value))
    }

    fn new() -> (bus: Self)
        ensures
            bus.memory() == zeros(0x10000),
    {
        let data: [u8; 0x10000] = [0u8; 0x10000];
        assert(data@.len() == 0x10000);
        assert forall|i: int| 0 <= i < 0x10000 implies #[trigger] data@[i] == 0u8 by {
            assert(data == vstd::array::spec_array_fill_for_copy_type::<u8, 0x10000>(0u8));
        }
        assert(data@ =~= zeros(0x10000));
        assert(0u8 & 1 == 0 && 0u8 & 2 == 0) by (bit_vector);
        ArrayBus { address_bus: 0, data_bus: 0, control_bus: 0, data }
    }

    fn set_address_bus(&mut self, addr: u16) {
        self.address_bus = addr;
    }

    fn set_data_bus(&mut self, val: u8) {
        self.data_bus = val;
    }

    fn get_data_bus(&self) -> (val: u8) {
        self.data_bus
    }

    fn set_control_signal(&mut self, control: ControlSignal, val: bool) -> (r: Result<
        (),
        BusFault,
    >) {
        self.control_bus = drive(self.control_bus, control, val);
        assert(self@ == old(self)@.with_signal(control, val));
        self.update()
    }

    fn get_control_signal(&self, control: ControlSignal) -> (level: bool) {
        (self.control_bus & control.mask()) != 0
    }
}

/// What answers at an address of the console.
#[derive(Clone, Copy, Debug, PartialEq, Eq, Structural)]
pub enum Region {
    /// Work RAM and its mirrors, `0x0000..=0x1FFF`.
    Ram,
    /// One of the eight registers of the graphics unit, which repeat
    /// through `0x2000..=0x3FFF`.
    Ppu(u8),
    /// Registers of the sound unit and of input and output, `0x4000..=0x4017`.
    Io,
    /// Test registers that are normally disabled, `0x4018..=0x401F`.
    Disabled,
    /// `0x4020..=0x5FFF`, where nothing answers.
    Unmapped,
    /// RAM on the cartridge, `0x6000..=0x7FFF`.
    CartridgeRam,
    /// Program ROM on the cartridge, `0x8000..=0xFFFF`.
    Rom,
}

/// The console's address map.
pub open spec fn region_of(address: u16) -> Region {
    if address <= 0x1FFF {
        Region::Ram
    } else if address <= 0x3FFF {
        Region::Ppu((address % 8) as u8)
    } else if address <= 0x4017 {
        Region::Io
    } else if address <= 0x401F {
        Region::Disabled
    } else if address <= 0x5FFF {
        Region::Unmapped
    } else if address <= 0x7FFF {
        Region::CartridgeRam
    } else {
        Region::Rom
    }
}

/// The cell of work RAM that answers at an address of the RAM region.
pub open spec fn ram_cell(address: u16) -> int {
    address as int % RAM_LEN as int
}

/// Decodes an address.
pub fn region(address: u16) -> (r: Region)
    ensures
        r == region_of(address),
{
    match address {
        0..=0x1fff => Region::Ram,
        0x2000..=0x3fff => Region::Ppu((address % 0x0008) as u8),
        0x4000..=0x4017 => Region::Io,
        0x4018..=0x401f => Region::Disabled,
        0x4020..=0x5fff => Region::Unmapped,
        0x6000..=0x7fff => Region::CartridgeRam,
        0x8000..=0xffff => Region::Rom,
    }
}

/// The console's bus: work RAM, the register windows, and the cartridge.
pub struct RomBus {
    address_bus: u16,
    data_bus: u8,
    control_bus: u8,
    data: [u8; 0x0800],
    rom: Cartridge,
}

impl RomBus {
    /// The 2 KiB of work RAM.
    pub closed spec fn ram(&self) -> Seq<u8> {
        self.data@
    }

    /// The cartridge in the slot.
    pub closed spec fn cartridge(&self) -> Cartridge {
        self.rom
    }

    /// The address, data and control lines.
    pub closed spec fn lines(&self) -> (u16, u8, u8) {
        (self.address_bus, self.data_bus, self.control_bus)
    }

    /// Whether a read cycle at `address` is served.
    pub open spec fn answers(&self, address: u16) -> bool {
        match region_of(address) {
            Region::Unmapped => false,
            Region::Rom => self.cartridge().prg_at(address) is Some,
            _ => true,
        }
    }

    /// The byte that a read cycle delivers at `address`: work RAM through its
    /// mirrors, program ROM through the cartridge, zero from the register
    /// windows and from cartridge RAM.
    pub open spec fn byte_at(&self, address: u16) -> u8 {
        match region_of(address) {
            Region::Ram => self.ram()[ram_cell(address)],
            Region::Rom => self.cartridge().prg_at(address).unwrap(),
            _ => 0,
        }
    }

    fn update(&mut self) -> (r: Result<(), BusFault>)
        ensures
            (final(self)@, r) == cycle(
                old(self)@,
                Self::write_cycle(old(self)@.cells, old(self)@.address, old(self)@.data),
            ),
            final(self).cartridge() == old(self).cartridge(),
    {
        if !self.get_control_signal(ControlSignal::MemEnable) {
            return Ok(());
        }
        let address = self.address_bus;
        if self.get_control_signal(ControlSignal::AccessMode) {
            match region(address) {
                Region::Ram => {
                    self.data_bus = self.data[(address % 0x0800) as usize];
                    Ok(())
                },
                Region::Ppu(_) | Region::Io | Region::Disabled | Region::CartridgeRam => {
                    self.data_bus = 0;
                    Ok(())
                },
                Region::Rom => match self.rom.prg_read(address) {
                    Some(byte) => {
                        self.data_bus = byte;
                        Ok(())
                    },
                    None => Err(BusFault::Unmapped(address)),
                },
                Region::Unmapped => Err(BusFault::Unmapped(address)),
            }
        } else {
            match region(address) {
                Region::Ram => {
                    self.data[(address % 0x0800) as usize] = self.data_bus;
                    assert(self@.cells =~= Self::write_cycle(
                        old(self)@.cells,
                        old(self)@.address,
                        old(self)@.data,
                    )->Ok_0);
                    Ok(())
                },
                Region::Ppu(_) | Region::Io | Region::Disabled | Region::CartridgeRam => Ok(()),
                Region::Rom => Err(BusFault::RomWrite(address)),
                Region::Unmapped => Err(BusFault::Unmapped(address)),
            }
        }
    }

    /// Puts a cartridge into the slot, in place of the one that was there.
    pub fn set_rom(&mut self, rom: Cartridge)
        ensures
            final(self).cartridge() == rom,
            final(self).ram() == old(self).ram(),
            final(self).lines() == old(self).lines(),
    {
        self.rom = rom;
    }
}

impl Mem for RomBus {
    open spec fn view(&self) -> BusState {
        BusState {
            address: self.lines().0,
            data: self.lines().1,
            enabled: self.lines().2 & ControlSignal::MemEnable.bit() != 0,
            reading: self.lines().2 & ControlSignal::AccessMode.bit() != 0,
            cells: Map::new(|a: u16| self.answers(a), |a: u16| self.byte_at(a)),
        }
    }

    /// A write to work RAM shows at the written address and at its mirrors;
    /// the register windows and cartridge RAM take a write and keep nothing;
    /// ROM and the unmapped range turn it down.
    open spec fn write_cycle(cells: Map<u16, u8>, address: u16, value: u8) -> Result<
        Map<u16, u8>,
        BusFault,
    > {
        match region_of(address) {
            Region::Ram => Ok(
                Map::new(
                    |a: u16| cells.dom().contains(a),
                    |a: u16|
                        if region_of(a) == Region::Ram && ram_cell(a) == ram_cell(address) {
                            value
                        } else {
                            cells[a]
                        },
                ),
            ),
            Region::Rom => Err(BusFault::RomWrite(address)),
            Region::Unmapped => Err(BusFault::Unmapped(address)),
            _ => Ok(cells),
        }
    }

    /// Work RAM is zeroed, and the cartridge slot is empty.
    fn new() -> (bus: Self)
        ensures
            bus.ram() == zeros(RAM_LEN as nat),
            bus.cartridge() is Empty,
    {
        let data: [u8; 0x0800] = [0u8; 0x0800];
        assert(data@.len() == 0x0800);
        assert forall|i: int| 0 <= i < 0x0800 implies #[trigger] data@[i] == 0u8 by {
            assert(data == vstd::array::spec_array_fill_for_copy_type::<u8, 0x0800>(0u8));
        }
        assert(data@ =~= zeros(RAM_LEN as nat));
        assert(0u8 & 1 == 0 && 0u8 & 2 == 0) by (bit_vector);
        RomBus {
            address_bus: 0,
            data_bus: 0,
            control_bus: 0,
            data,
            rom: Cartridge::Empty(EmptyRom::new()),
        }
    }

    fn set_address_bus(&mut self, addr: u16)
        ensures
            final(self).cartridge() == old(self).cartridge(),
            final(self).ram() == old(self).ram(),
    {
        self.address_bus = addr;
    }

    fn set_data_bus(&mut self, val: u8)
        ensures
            final(self).cartridge() == old(self).cartridge(),
            final(self).ram() == old(self).ram(),
    {
        self.data_bus = val;
    }

    fn get_data_bus(&self) -> (val: u8) {
        self.data_bus
    }

    fn set_control_signal(&mut self, control: ControlSignal, val: bool) -> (r: Result<
        (),
        BusFault,
    >)
        ensures
            final(self).cartridge() == old(self).cartridge(),
    {
        self.control_bus = drive(self.control_bus, control, val);
        assert(self@ == old(self)@.with_signal(control, val));
        self.update()
    }

    fn get_control_signal(&self, control: ControlSignal) -> (level: bool) {
        (self.control_bus & control.mask()) != 0
    }
}

} // verus!
