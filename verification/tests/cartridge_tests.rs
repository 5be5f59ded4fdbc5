use nes_core::cartridge::Cartridge;
use nes_core::cartridge::Mirroring;
use nes_core::cartridge::RomError;

/// A minimal iNES image: header, one 16 KiB program ROM bank, one 8 KiB
/// character ROM bank.
fn test_image(byte6: u8, byte7: u8) -> Vec<u8> {
    let mut raw = vec![0x4e, 0x45, 0x53, 0x1a, 0x01, 0x01, byte6, byte7];
    raw.extend(vec![0u8; 8]);
    raw.extend(vec![0u8; 16384]);
    raw.extend(vec![0u8; 8192]);
    raw
}

#[test]
fn loads_plain_image() {
    let raw = test_image(0x00, 0x00);
    let cart = Cartridge::from_ines(&raw).unwrap();
    assert_eq!(cart.prg_rom.len(), 16384);
    assert_eq!(cart.chr_rom.len(), 8192);
    assert_eq!(cart.mapper_id, 0);
    assert!(matches!(cart.mirroring, Mirroring::Horizontal));
}

#[test]
fn loads_32k_image() {
    let mut raw = vec![0x4e, 0x45, 0x53, 0x1a, 0x02, 0x00, 0x00, 0x00];
    raw.extend(vec![0u8; 8]);
    raw.extend(vec![7u8; 32768]);
    let cart = Cartridge::from_ines(&raw).unwrap();
    assert_eq!(cart.prg_rom.len(), 32768);
    assert_eq!(cart.chr_rom.len(), 0);
    assert_eq!(cart.prg_rom[0], 7);
}

#[test]
fn mirroring_tags() {
    let vertical = Cartridge::from_ines(&test_image(0x01, 0x00)).unwrap();
    assert!(matches!(vertical.mirroring, Mirroring::Vertical));
    let four = Cartridge::from_ines(&test_image(0x08, 0x00)).unwrap();
    assert!(matches!(four.mirroring, Mirroring::FourScreen));
    let four_wins = Cartridge::from_ines(&test_image(0x09, 0x00)).unwrap();
    assert!(matches!(four_wins.mirroring, Mirroring::FourScreen));
}

#[test]
fn trainer_is_skipped() {
    let mut raw = vec![0x4e, 0x45, 0x53, 0x1a, 0x01, 0x00, 0x04, 0x00];
    raw.extend(vec![0u8; 8]);
    raw.extend(vec![0xaau8; 512]);
    let mut prg = vec![0u8; 16384];
    prg[0] = 0x5d;
    raw.extend(prg);
    let cart = Cartridge::from_ines(&raw).unwrap();
    assert_eq!(cart.prg_rom[0], 0x5d);
}

#[test]
fn rejects_bad_magic() {
    let mut raw = test_image(0x00, 0x00);
    raw[0] = 0x4f;
    assert_eq!(Cartridge::from_ines(&raw).unwrap_err(), RomError::InvalidMagic);
    let short = vec![0x4e, 0x45];
    assert_eq!(Cartridge::from_ines(&short).unwrap_err(), RomError::InvalidMagic);
}

#[test]
fn rejects_wrong_version() {
    let raw = test_image(0x00, 0x08);
    assert_eq!(Cartridge::from_ines(&raw).unwrap_err(), RomError::UnsupportedVersion);
}

#[test]
fn rejects_nonzero_mapper() {
    let raw = test_image(0x10, 0x00);
    assert_eq!(Cartridge::from_ines(&raw).unwrap_err(), RomError::UnsupportedMapper);
    let raw_hi = test_image(0x00, 0x10);
    assert_eq!(Cartridge::from_ines(&raw_hi).unwrap_err(), RomError::UnsupportedMapper);
}

#[test]
fn rejects_odd_prg_size() {
    let mut raw = test_image(0x00, 0x00);
    raw[4] = 3;
    assert_eq!(Cartridge::from_ines(&raw).unwrap_err(), RomError::UnsupportedPrgSize);
    raw[4] = 0;
    assert_eq!(Cartridge::from_ines(&raw).unwrap_err(), RomError::UnsupportedPrgSize);
}

#[test]
fn rejects_truncated_image() {
    let mut raw = test_image(0x00, 0x00);
    raw.truncate(5000);
    assert_eq!(Cartridge::from_ines(&raw).unwrap_err(), RomError::Truncated);
}
