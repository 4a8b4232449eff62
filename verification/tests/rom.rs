use nes_core::rom::{rom_reader, Cartridge, EmptyRom, Nrom128, Nrom256, Rom, RomError};

fn header(prg: u8, chr: u8, flags6: u8, flags7: u8) -> Vec<u8> {
    let mut raw = vec![0u8; 16];
    raw[0] = b'N';
    raw[1] = b'E';
    raw[2] = b'S';
    raw[3] = 0x1A;
    raw[4] = prg;
    raw[5] = chr;
    raw[6] = flags6;
    raw[7] = flags7;
    raw
}

/// An image whose data bytes count up from 1, wrapping at 251.
fn image(prg: u8, chr: u8, flags6: u8, flags7: u8) -> Vec<u8> {
    let mut raw = header(prg, chr, flags6, flags7);
    let trainer = if flags6 & 0b100 != 0 { 512 } else { 0 };
    let len = trainer + prg as usize * 0x4000 + chr as usize * 0x2000;
    for i in 0..len {
        raw.push((i % 251) as u8 + 1);
    }
    raw
}

fn error_of(raw: &Vec<u8>) -> RomError {
    match rom_reader(raw) {
        Ok(_) => panic!("the image was taken"),
        Err(e) => e,
    }
}

#[test]
fn short_image_is_refused() {
    assert_eq!(error_of(&vec![]), RomError::ShortHeader);
    assert_eq!(error_of(&b"NES\x1a".to_vec()), RomError::ShortHeader);
    assert_eq!(error_of(&image(1, 1, 0, 0)[..15].to_vec()), RomError::ShortHeader);
}

#[test]
fn wrong_magic_is_refused() {
    for i in 0..4 {
        let mut raw = image(1, 1, 0, 0);
        raw[i] ^= 0x20;
        assert_eq!(error_of(&raw), RomError::BadMagic);
    }
}

#[test]
fn version_two_is_refused() {
    assert_eq!(error_of(&image(1, 1, 0, 0b0000_0010)), RomError::UnsupportedVersion);
    assert!(rom_reader(&image(1, 1, 0, 0b0000_0100)).is_ok());
    assert!(rom_reader(&image(1, 1, 0, 0b0000_0110)).is_ok());
    assert!(rom_reader(&image(1, 1, 0, 0b0000_1000)).is_ok());
}

#[test]
fn other_mappers_are_refused() {
    assert_eq!(error_of(&image(1, 1, 0x10, 0x00)), RomError::UnsupportedMapper(0x01));
    assert_eq!(error_of(&image(1, 1, 0x00, 0x10)), RomError::UnsupportedMapper(0x10));
    assert_eq!(error_of(&image(1, 1, 0xA0, 0x40)), RomError::UnsupportedMapper(0x4A));
    // the low nibble of byte 6 holds flags, not the mapper
    assert!(rom_reader(&image(1, 1, 0x0B, 0x00)).is_ok());
}

#[test]
fn other_bank_counts_are_refused() {
    assert_eq!(error_of(&image(0, 1, 0, 0)), RomError::UnsupportedPrgBanks(0));
    assert_eq!(error_of(&image(3, 1, 0, 0)), RomError::UnsupportedPrgBanks(3));
    assert_eq!(error_of(&image(1, 2, 0, 0)), RomError::UnsupportedChrBanks(2));
    assert_eq!(error_of(&image(2, 5, 0, 0)), RomError::UnsupportedChrBanks(5));
}

#[test]
fn wrong_length_is_refused() {
    let mut raw = image(1, 1, 0, 0);
    raw.push(0);
    assert_eq!(error_of(&raw), RomError::SizeMismatch);
    raw.pop();
    raw.pop();
    assert_eq!(error_of(&raw), RomError::SizeMismatch);
    // the header announces a trainer that the image does not hold
    let mut raw = image(1, 1, 0, 0);
    raw[6] = 0b100;
    assert_eq!(error_of(&raw), RomError::SizeMismatch);
    // two banks announced, one held
    let mut raw = image(1, 1, 0, 0);
    raw[4] = 2;
    assert_eq!(error_of(&raw), RomError::SizeMismatch);
}

#[test]
fn one_bank_makes_nrom128() {
    let raw = image(1, 1, 0, 0);
    let rom = rom_reader(&raw).unwrap();
    assert!(matches!(rom, Cartridge::Nrom128(_)));
    assert_eq!(rom.prg_read(0x8000), Some(raw[16]));
    assert_eq!(rom.prg_read(0x8001), Some(raw[17]));
    assert_eq!(rom.prg_read(0xBFFF), Some(raw[16 + 0x3FFF]));
    assert_eq!(rom.prg_read(0xC000), Some(raw[16]));
    assert_eq!(rom.prg_read(0xFFFF), Some(raw[16 + 0x3FFF]));
    assert_eq!(rom.prg_read(0x7FFF), None);
    assert_eq!(rom.prg_read(0x0000), None);
    assert_eq!(rom.chr_read(0x0000), Some(raw[16 + 0x4000]));
    assert_eq!(rom.chr_read(0x1FFF), Some(raw[16 + 0x5FFF]));
    assert_eq!(rom.chr_read(0x2000), None);
}

#[test]
fn two_banks_make_nrom256() {
    let raw = image(2, 1, 0, 0);
    let rom = rom_reader(&raw).unwrap();
    assert!(matches!(rom, Cartridge::Nrom256(_)));
    assert_eq!(rom.prg_read(0x8000), Some(raw[16]));
    assert_eq!(rom.prg_read(0xBFFF), Some(raw[16 + 0x3FFF]));
    assert_eq!(rom.prg_read(0xC000), Some(raw[16 + 0x4000]));
    assert_eq!(rom.prg_read(0xFFFF), Some(raw[16 + 0x7FFF]));
    assert_ne!(rom.prg_read(0x8000), rom.prg_read(0xC000));
    assert_eq!(rom.prg_read(0x7FFF), None);
    assert_eq!(rom.chr_read(0x0000), Some(raw[16 + 0x8000]));
    assert_eq!(rom.chr_read(0x1FFF), Some(raw[16 + 0x9FFF]));
    assert_eq!(rom.chr_read(0x2000), None);
}

#[test]
fn trainer_is_skipped() {
    let raw = image(1, 1, 0b0000_0100, 0);
    assert_eq!(raw.len(), 16 + 512 + 0x4000 + 0x2000);
    let rom = rom_reader(&raw).unwrap();
    assert_eq!(rom.prg_read(0x8000), Some(raw[16 + 512]));
    assert_eq!(rom.prg_read(0xBFFF), Some(raw[16 + 512 + 0x3FFF]));
    assert_eq!(rom.chr_read(0x0000), Some(raw[16 + 512 + 0x4000]));
}

#[test]
fn no_character_bank_reads_as_zeros() {
    let raw = image(1, 0, 0, 0);
    assert_eq!(raw.len(), 16 + 0x4000);
    let rom = rom_reader(&raw).unwrap();
    assert_eq!(rom.prg_read(0x8000), Some(raw[16]));
    assert_eq!(rom.chr_read(0x0000), Some(0));
    assert_eq!(rom.chr_read(0x1FFF), Some(0));
}

#[test]
fn load_checks_the_variant() {
    let mut rom = Nrom128::new();
    assert_eq!(rom.prg_read(0x8000), Some(0));
    assert_eq!(rom.load(&image(2, 1, 0, 0), false), Err(RomError::UnsupportedPrgBanks(2)));
    assert_eq!(rom.load(&vec![0u8; 3], false), Err(RomError::ShortHeader));
    assert_eq!(rom.load(&image(1, 1, 0, 0), true), Err(RomError::SizeMismatch));
    assert_eq!(rom.prg_read(0x8000), Some(0));
    let raw = image(1, 1, 0, 0);
    assert_eq!(rom.load(&raw, false), Ok(()));
    assert_eq!(rom.prg_read(0x8005), Some(raw[16 + 5]));
    // a refused image leaves the cartridge as it was
    assert_eq!(rom.load(&image(1, 3, 0, 0), false), Err(RomError::UnsupportedChrBanks(3)));
    assert_eq!(rom.prg_read(0x8005), Some(raw[16 + 5]));

    let mut rom = Nrom256::new();
    assert_eq!(rom.load(&image(1, 1, 0, 0), false), Err(RomError::UnsupportedPrgBanks(1)));
    let raw = image(2, 0, 0b100, 0);
    assert_eq!(rom.load(&raw, true), Ok(()));
    assert_eq!(rom.prg_read(0xFFFF), Some(raw[16 + 512 + 0x7FFF]));
    assert_eq!(rom.chr_read(0x0010), Some(0));
}

#[test]
fn load_does_not_ask_for_the_magic() {
    let mut raw = image(1, 1, 0, 0);
    raw[0] = 0;
    let mut rom = Nrom128::new();
    assert_eq!(rom.load(&raw, false), Ok(()));
}

#[test]
fn empty_slot_holds_nothing() {
    let mut rom = EmptyRom::new();
    assert_eq!(rom.prg_read(0x8000), None);
    assert_eq!(rom.prg_read(0xFFFC), None);
    assert_eq!(rom.chr_read(0x0000), None);
    assert_eq!(rom.load(&image(1, 1, 0, 0), false), Err(RomError::Empty));

    let mut slot = Cartridge::Empty(EmptyRom::new());
    assert_eq!(slot.load(&image(1, 1, 0, 0), false), Err(RomError::Empty));
    assert_eq!(slot.prg_read(0x8000), None);
    assert_eq!(slot.chr_read(0), None);
}
