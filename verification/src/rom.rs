//! Cartridge images in the iNES format and the NROM mappers that serve them.

use vstd::prelude::*;

verus! {

/// Length of the iNES header.
pub const HEADER_LEN: usize = 16;

/// Length of the optional trainer block that follows the header.
pub const TRAINER_LEN: usize = 512;

/// Length of one bank of program ROM.
pub const PRG_BANK_LEN: usize = 0x4000;

/// Length of one bank of character ROM.
pub const CHR_BANK_LEN: usize = 0x2000;

/// First address of the window through which the processor sees program ROM.
pub const ROM_WINDOW: u16 = 0x8000;

/// Why a cartridge image was turned down.
#[derive(Clone, Copy, Debug, PartialEq, Eq, Structural)]
pub enum RomError {
    /// The image is shorter than an iNES header.
    ShortHeader,
    /// The image does not begin with `N`, `E`, `S`, `0x1A`.
    BadMagic,
    /// The header announces a format version other than 1.
    UnsupportedVersion,
    /// The header names a mapper other than NROM.
    UnsupportedMapper(u8),
    /// The header's count of program banks does not fit the mapper.
    UnsupportedPrgBanks(u8),
    /// The header's count of character banks does not fit the mapper.
    UnsupportedChrBanks(u8),
    /// The image's length is not what its header announces.
    SizeMismatch,
    /// The empty cartridge slot takes no image.
    Empty,
}

/// `len` bytes of zero.
pub open spec fn zeros(len: nat) -> Seq<u8> {
    Seq::new(len, |i: int| 0u8)
}

/// The image begins with the iNES magic bytes.
pub open spec fn has_magic(raw: Seq<u8>) -> bool {
    &&& raw.len() >= 4
    &&& raw[0] == 0x4E
    &&& raw[1] == 0x45
    &&& raw[2] == 0x53
    &&& raw[3] == 0x1A
}

/// Count of 16 KiB program banks that the header announces.
pub open spec fn prg_banks(raw: Seq<u8>) -> u8 {
    raw[4]
}

/// Count of 8 KiB character banks that the header announces.
pub open spec fn chr_banks(raw: Seq<u8>) -> u8 {
    raw[5]
}

/// The header announces a trainer block: bit 2 of byte 6.
pub open spec fn trainer_flag(raw: Seq<u8>) -> bool {
    (raw[6] / 4) % 2 == 1
}

/// Mapper number: the high nibble of byte 6 is its low nibble, the high
/// nibble of byte 7 its high nibble.
pub open spec fn mapper_number(raw: Seq<u8>) -> u8 {
    (raw[6] / 16 + (raw[7] / 16) * 16) as u8
}

/// Format version, read from bits 1 and 2 of byte 7: 2 when bit 1 is set and
/// bit 2 is clear, else 1.
pub open spec fn ines_version(raw: Seq<u8>) -> u8 {
    if (raw[7] / 2) % 4 == 1 {
        2
    } else {
        1
    }
}

/// The fields of the two flag bytes, read with masks and shifts.
proof fn lemma_header_bits(flags6: u8, flags7: u8)
    by (bit_vector)
    ensures
        (flags6 & 0b0000_0100 != 0) == ((flags6 / 4) % 2 == 1),
        ((flags6 & 0b1111_0000) >> 4) | (flags7 & 0b1111_0000) == flags6 / 16 + (flags7 / 16) * 16,
        (flags7 & 0b0000_0110 == 0b0000_0010) == ((flags7 / 2) % 4 == 1),
{
}

/// Where program data begins: behind the header, and behind the trainer if
/// there is one.
pub open spec fn data_offset(trainer: bool) -> int {
    if trainer {
        HEADER_LEN + TRAINER_LEN
    } else {
        HEADER_LEN as int
    }
}

/// Length that the header announces for the whole image.
pub open spec fn announced_len(raw: Seq<u8>, trainer: bool) -> int {
    data_offset(trainer) + prg_banks(raw) * PRG_BANK_LEN + chr_banks(raw) * CHR_BANK_LEN
}

/// What a mapper with room for `banks` program banks makes of an image: the
/// first failing check names the error.
pub open spec fn load_check(raw: Seq<u8>, trainer: bool, banks: u8) -> Result<(), RomError> {
    if raw.len() < HEADER_LEN {
        Err(RomError::ShortHeader)
    } else if prg_banks(raw) != banks {
        Err(RomError::UnsupportedPrgBanks(prg_banks(raw)))
    } else if chr_banks(raw) > 1 {
        Err(RomError::UnsupportedChrBanks(chr_banks(raw)))
    } else if raw.len() != announced_len(raw, trainer) {
        Err(RomError::SizeMismatch)
    } else {
        Ok(())
    }
}

/// Program data of an image.
pub open spec fn image_prg(raw: Seq<u8>, trainer: bool) -> Seq<u8> {
    raw.subrange(data_offset(trainer), data_offset(trainer) + prg_banks(raw) * PRG_BANK_LEN)
}

/// Character data of an image: the bank behind the program data, or 8 KiB of
/// zeros where the header announces none.
pub open spec fn image_chr(raw: Seq<u8>, trainer: bool) -> Seq<u8> {
    if chr_banks(raw) == 1 {
        raw.subrange(
            data_offset(trainer) + prg_banks(raw) * PRG_BANK_LEN,
            announced_len(raw, trainer),
        )
    } else {
        zeros(CHR_BANK_LEN as nat)
    }
}

/// What the loader makes of an image: the first failing check names the
/// error.
pub open spec fn image_check(raw: Seq<u8>) -> Result<(), RomError> {
    if raw.len() < HEADER_LEN {
        Err(RomError::ShortHeader)
    } else if !has_magic(raw) {
        Err(RomError::BadMagic)
    } else if ines_version(raw) != 1 {
        Err(RomError::UnsupportedVersion)
    } else if mapper_number(raw) != 0 {
        Err(RomError::UnsupportedMapper(mapper_number(raw)))
    } else if prg_banks(raw) != 1 && prg_banks(raw) != 2 {
        Err(RomError::UnsupportedPrgBanks(prg_banks(raw)))
    } else {
        load_check(raw, trainer_flag(raw), prg_banks(raw))
    }
}

/// A cartridge as the bus and the graphics unit see it.
pub trait Rom {
    /// The byte that the processor reads at `address`, where the cartridge
    /// answers there.
    spec fn prg_at(&self, address: u16) -> Option<u8>;

    /// The byte that the graphics unit reads at `address`, where the
    /// cartridge answers there.
    spec fn chr_at(&self, address: u16) -> Option<u8>;

    /// Whether this cartridge takes the image with its header, and if not,
    /// why.
    spec fn accepts(&self, raw: Seq<u8>, trainer: bool) -> Result<(), RomError>;

    /// Fills the cartridge from a whole iNES image, header included. A
    /// refused image leaves the cartridge as it was.
    fn load(&mut self, raw: &Vec<u8>, trainer: bool) -> (r: Result<(), RomError>)
        ensures
            r == old(self).accepts(raw@, trainer),
            r is Err ==> forall|a: u16|
                final(self).prg_at(a) == old(self).prg_at(a) && final(self).chr_at(a) == old(
                    self,
                ).chr_at(a),
    ;

    fn prg_read(&self, address: u16) -> (b: Option<u8>)
        ensures
            b == self.prg_at(address),
    ;

    fn chr_read(&self, address: u16) -> (b: Option<u8>)
        ensures
            b == self.chr_at(address),
    ;
}

/// Copies `N` bytes of `raw`, from `start` on, over `bank`.
fn copy_bank<const N: usize>(bank: &mut [u8; N], raw: &Vec<u8>, start: usize)
    requires
        start + N <= raw.len(),
    ensures
        final(bank)@ == raw@.subrange(start as int, start + N),
{
    let mut i: usize = 0;
    while i < N
        invariant
            i <= N,
            start + N <= raw.len(),
            forall|j: int| 0 <= j < i ==> bank@[j] == raw@[start + j],
        decreases N - i,
    {
        bank[i] = raw[start + i];
        i += 1;
    }
}

/// A character bank of zeros.
fn blank_chr() -> (out: [u8; 0x2000])
    ensures
        out@ == zeros(CHR_BANK_LEN as nat),
{
    let blank: [u8; 0x2000] = [0u8; 0x2000];
    assert(blank@.len() == 0x2000);
    assert forall|i: int| 0 <= i < 0x2000 implies #[trigger] blank@[i] == 0u8 by {
        assert(blank == vstd::array::spec_array_fill_for_copy_type::<u8, 0x2000>(0u8));
    }
    assert(blank@ =~= zeros(CHR_BANK_LEN as nat));
    blank
}

/// NROM with one program bank, which fills both halves of the ROM window.
pub struct Nrom128 {
    prg_rom: [u8; 0x4000],
    chr_rom: [u8; 0x2000],
}

impl Nrom128 {
    /// The 16 KiB of program ROM.
    pub closed spec fn prg(&self) -> Seq<u8> {
        self.prg_rom@
    }

    /// The 8 KiB of character ROM.
    pub closed spec fn chr(&self) -> Seq<u8> {
        self.chr_rom@
    }

    /// The ROM has its fixed size, whatever it holds.
    pub proof fn law_sizes(&self)
        ensures
            self.prg().len() == PRG_BANK_LEN,
            self.chr().len() == CHR_BANK_LEN,
    {
    }

    /// A cartridge whose ROM is all zeros.
    pub fn new() -> (rom: Self)
        ensures
            rom.prg() == zeros(PRG_BANK_LEN as nat),
            rom.chr() == zeros(CHR_BANK_LEN as nat),
    {
        Self { prg_rom: [0u8; 0x4000], chr_rom: blank_chr() }
    }
}

impl Rom for Nrom128 {
    open spec fn prg_at(&self, address: u16) -> Option<u8> {
        if address >= ROM_WINDOW {
            Some(self.prg()[(address - ROM_WINDOW) % (PRG_BANK_LEN as int)])
        } else {
            None
        }
    }

    open spec fn chr_at(&self, address: u16) -> Option<u8> {
        if address < CHR_BANK_LEN {
            Some(self.chr()[address as int])
        } else {
            None
        }
    }

    open spec fn accepts(&self, raw: Seq<u8>, trainer: bool) -> Result<(), RomError> {
        load_check(raw, trainer, 1)
    }

    fn load(&mut self, raw: &Vec<u8>, trainer: bool) -> (r: Result<(), RomError>)
        ensures
            r is Ok ==> final(self).prg() == image_prg(raw@, trainer) && final(self).chr()
                == image_chr(raw@, trainer),
            r is Err ==> *final(self) == *old(self),
    {
        let offset: usize = if trainer {
            HEADER_LEN + TRAINER_LEN
        } else {
            HEADER_LEN
        };
        if raw.len() < HEADER_LEN {
            return Err(RomError::ShortHeader);
        }
        let prg_count: u8 = raw[4];
        let chr_count: u8 = raw[5];
        if prg_count != 1 {
            return Err(RomError::UnsupportedPrgBanks(prg_count));
        }
        if chr_count > 1 {
            return Err(RomError::UnsupportedChrBanks(chr_count));
        }
        let chr_len: usize = if chr_count == 1 {
            CHR_BANK_LEN
        } else {
            0
        };
        if raw.len() != offset + PRG_BANK_LEN + chr_len {
            return Err(RomError::SizeMismatch);
        }
        let mut prg: [u8; 0x4000] = [0u8; 0x4000];
        copy_bank(&mut prg, raw, offset);
        let chr: [u8; 0x2000] = if chr_count == 1 {
            let mut bank: [u8; 0x2000] = blank_chr();
            copy_bank(&mut bank, raw, offset + PRG_BANK_LEN);
            bank
        } else {
            blank_chr()
        };
        assert(prg@ =~= image_prg(raw@, trainer));
        assert(chr@ =~= image_chr(raw@, trainer));
        self.prg_rom = prg;
        self.chr_rom = chr;
        Ok(())
    }

    fn prg_read(&self, address: u16) -> (b: Option<u8>) {
        if address >= ROM_WINDOW {
            let source: u16 = (address - ROM_WINDOW) % 0x4000;
            Some(self.prg_rom[source as usize])
        } else {
            None
        }
    }

    fn chr_read(&self, address: u16) -> (b: Option<u8>) {
        if address < 0x2000 {
            Some(self.chr_rom[address as usize])
        } else {
            None
        }
    }
}

/// NROM with two program banks, which cover the ROM window once.
pub struct Nrom256 {
    prg_rom: [u8; 0x8000],
    chr_rom: [u8; 0x2000],
}

impl Nrom256 {
    /// The 32 KiB of program ROM.
    pub closed spec fn prg(&self) -> Seq<u8> {
        self.prg_rom@
    }

    /// The 8 KiB of character ROM.
    pub closed spec fn chr(&self) -> Seq<u8> {
        self.chr_rom@
    }

    /// The ROM has its fixed size, whatever it holds.
    pub proof fn law_sizes(&self)
        ensures
            self.prg().len() == 2 * PRG_BANK_LEN,
            self.chr().len() == CHR_BANK_LEN,
    {
    }

    /// A cartridge whose ROM is all zeros.
    pub fn new() -> (rom: Self)
        ensures
            rom.prg() == zeros(2 * PRG_BANK_LEN as nat),
            rom.chr() == zeros(CHR_BANK_LEN as nat),
    {
        Self { prg_rom: [0u8; 0x8000], chr_rom: blank_chr() }
    }
}

impl Rom for Nrom256 {
    open spec fn prg_at(&self, address: u16) -> Option<u8> {
        if address >= ROM_WINDOW {
            Some(self.prg()[address - ROM_WINDOW])
        } else {
            None
        }
    }

    open spec fn chr_at(&self, address: u16) -> Option<u8> {
        if address < CHR_BANK_LEN {
            Some(self.chr()[address as int])
        } else {
            None
        }
    }

    open spec fn accepts(&self, raw: Seq<u8>, trainer: bool) -> Result<(), RomError> {
        load_check(raw, trainer, 2)
    }

    fn load(&mut self, raw: &Vec<u8>, trainer: bool) -> (r: Result<(), RomError>)
        ensures
            r is Ok ==> final(self).prg() == image_prg(raw@, trainer) && final(self).chr()
                == image_chr(raw@, trainer),
            r is Err ==> *final(self) == *old(self),
    {
        let offset: usize = if trainer {
            HEADER_LEN + TRAINER_LEN
        } else {
            HEADER_LEN
        };
        if raw.len() < HEADER_LEN {
            return Err(RomError::ShortHeader);
        }
        let prg_count: u8 = raw[4];
        let chr_count: u8 = raw[5];
        if prg_count != 2 {
            return Err(RomError::UnsupportedPrgBanks(prg_count));
        }
        if chr_count > 1 {
            return Err(RomError::UnsupportedChrBanks(chr_count));
        }
        let chr_len: usize = if chr_count == 1 {
            CHR_BANK_LEN
        } else {
            0
        };
        if raw.len() != offset + 2 * PRG_BANK_LEN + chr_len {
            return Err(RomError::SizeMismatch);
        }
        let mut prg: [u8; 0x8000] = [0u8; 0x8000];
        copy_bank(&mut prg, raw, offset);
        let chr: [u8; 0x2000] = if chr_count == 1 {
            let mut bank: [u8; 0x2000] = blank_chr();
            copy_bank(&mut bank, raw, offset + 2 * PRG_BANK_LEN);
            bank
        } else {
            blank_chr()
        };
        assert(prg@ =~= image_prg(raw@, trainer));
        assert(chr@ =~= image_chr(raw@, trainer));
        self.prg_rom = prg;
        self.chr_rom = chr;
        Ok(())
    }

    fn prg_read(&self, address: u16) -> (b: Option<u8>) {
        if address >= ROM_WINDOW {
            let source: u16 = address - ROM_WINDOW;
            Some(self.prg_rom[source as usize])
        } else {
            None
        }
    }

    fn chr_read(&self, address: u16) -> (b: Option<u8>) {
        if address < 0x2000 {
            Some(self.chr_rom[address as usize])
        } else {
            None
        }
    }
}

/// The empty cartridge slot: it answers at no address and takes no image.
pub struct EmptyRom;

impl EmptyRom {
    pub fn new() -> (rom: Self)
        ensures
            forall|a: u16| rom.prg_at(a) is None && rom.chr_at(a) is None,
    {
        Self {  }
    }
}

impl Rom for EmptyRom {
    open spec fn prg_at(&self, address: u16) -> Option<u8> {
        None
    }

    open spec fn chr_at(&self, address: u16) -> Option<u8> {
        None
    }

    open spec fn accepts(&self, raw: Seq<u8>, trainer: bool) -> Result<(), RomError> {
        Err(RomError::Empty)
    }

    fn load(&mut self, raw: &Vec<u8>, trainer: bool) -> (r: Result<(), RomError>) {
        Err(RomError::Empty)
    }

    fn prg_read(&self, address: u16) -> (b: Option<u8>) {
        None
    }

    fn chr_read(&self, address: u16) -> (b: Option<u8>) {
        None
    }
}

/// What sits in the cartridge slot of a bus.
pub enum Cartridge {
    Empty(EmptyRom),
    Nrom128(Nrom128),
    Nrom256(Nrom256),
}

impl Cartridge {
    /// The program ROM of the cartridge; empty for the empty slot.
    pub open spec fn prg(&self) -> Seq<u8> {
        match self {
            Cartridge::Empty(_) => Seq::empty(),
            Cartridge::Nrom128(rom) => rom.prg(),
            Cartridge::Nrom256(rom) => rom.prg(),
        }
    }

    /// The character ROM of the cartridge; empty for the empty slot.
    pub open spec fn chr(&self) -> Seq<u8> {
        match self {
            Cartridge::Empty(_) => Seq::empty(),
            Cartridge::Nrom128(rom) => rom.chr(),
            Cartridge::Nrom256(rom) => rom.chr(),
        }
    }
}

impl Rom for Cartridge {
    open spec fn prg_at(&self, address: u16) -> Option<u8> {
        match self {
            Cartridge::Empty(rom) => rom.prg_at(address),
            Cartridge::Nrom128(rom) => rom.prg_at(address),
            Cartridge::Nrom256(rom) => rom.prg_at(address),
        }
    }

    open spec fn chr_at(&self, address: u16) -> Option<u8> {
        match self {
            Cartridge::Empty(rom) => rom.chr_at(address),
            Cartridge::Nrom128(rom) => rom.chr_at(address),
            Cartridge::Nrom256(rom) => rom.chr_at(address),
        }
    }

    open spec fn accepts(&self, raw: Seq<u8>, trainer: bool) -> Result<(), RomError> {
        match self {
            Cartridge::Empty(rom) => rom.accepts(raw, trainer),
            Cartridge::Nrom128(rom) => rom.accepts(raw, trainer),
            Cartridge::Nrom256(rom) => rom.accepts(raw, trainer),
        }
    }

    fn load(&mut self, raw: &Vec<u8>, trainer: bool) -> (r: Result<(), RomError>)
        ensures
            r is Ok ==> final(self).prg() == image_prg(raw@, trainer) && final(self).chr()
                == image_chr(raw@, trainer),
            r is Ok ==> (*old(self) is Nrom128 <==> *final(self) is Nrom128) && (*old(self)
                is Nrom256 <==> *final(self) is Nrom256),
            r is Err ==> *final(self) == *old(self),
    {
        match self {
            Cartridge::Empty(rom) => rom.load(raw, trainer),
            Cartridge::Nrom128(rom) => rom.load(raw, trainer),
            Cartridge::Nrom256(rom) => rom.load(raw, trainer),
        }
    }

    fn prg_read(&self, address: u16) -> (b: Option<u8>) {
        match self {
            Cartridge::Empty(rom) => rom.prg_read(address),
            Cartridge::Nrom128(rom) => rom.prg_read(address),
            Cartridge::Nrom256(rom) => rom.prg_read(address),
        }
    }

    fn chr_read(&self, address: u16) -> (b: Option<u8>) {
        match self {
            Cartridge::Empty(rom) => rom.chr_read(address),
            Cartridge::Nrom128(rom) => rom.chr_read(address),
            Cartridge::Nrom256(rom) => rom.chr_read(address),
        }
    }
}

/// Reads a cartridge out of a whole iNES image: checks the header, picks the
/// NROM variant by the count of program banks, and fills it.
pub fn rom_reader(raw: &Vec<u8>) -> (r: Result<Cartridge, RomError>)
    ensures
        image_check(raw@) matches Err(e) ==> r == Err::<Cartridge, RomError>(e),
        image_check(raw@) is Ok ==> r is Ok,
        r matches Ok(rom) ==> {
            &&& rom.prg() == image_prg(raw@, trainer_flag(raw@))
            &&& rom.chr() == image_chr(raw@, trainer_flag(raw@))
            &&& prg_banks(raw@) == 1 ==> rom is Nrom128
            &&& prg_banks(raw@) == 2 ==> rom is Nrom256
        },
{
    if raw.len() < HEADER_LEN {
        return Err(RomError::ShortHeader);
    }
    if raw[0] != 0x4E || raw[1] != 0x45 || raw[2] != 0x53 || raw[3] != 0x1A {
        return Err(RomError::BadMagic);
    }
    proof {
        lemma_header_bits(raw[6], raw[7]);
    }
    let prg_count: u8 = raw[4];
    let trainer: bool = raw[6] & 0b0000_0100 != 0;
    let mapper: u8 = ((raw[6] & 0b1111_0000) >> 4) | (raw[7] & 0b1111_0000);
    let version: u8 = if raw[7] & 0b0000_0110 == 0b0000_0010 {
        2
    } else {
        1
    };
    if version != 1 {
        return Err(RomError::UnsupportedVersion);
    }
    if mapper != 0 {
        return Err(RomError::UnsupportedMapper(mapper));
    }
    let mut rom = if prg_count == 1 {
        Cartridge::Nrom128(Nrom128::new())
    } else if prg_count == 2 {
        Cartridge::Nrom256(Nrom256::new())
    } else {
        return Err(RomError::UnsupportedPrgBanks(prg_count));
    };
    match rom.load(raw, trainer) {
        Ok(()) => Ok(rom),
        Err(e) => Err(e),
    }
}


} // verus!
