use nes_core::bus::Bus;
use nes_core::cartridge::Cartridge;

/// A bus over a cartridge with one 16 KiB program ROM bank whose bytes
/// are supplied by the caller (padded or cut to 16 KiB).
fn test_bus(prg: &[u8]) -> Bus {
    let mut raw = vec![0x4e, 0x45, 0x53, 0x1a, 0x01, 0x01, 0x00, 0x00];
    raw.extend(vec![0u8; 8]);
    let mut bank = prg.to_vec();
    bank.resize(16384, 0);
    raw.extend(bank);
    raw.extend(vec![0u8; 8192]);
    Bus::new(Cartridge::from_ines(&raw).unwrap())
}

#[test]
fn ram_starts_zeroed() {
    let bus = test_bus(&[]);
    assert_eq!(bus.mem_read(0x0000), 0);
    assert_eq!(bus.mem_read(0x07ff), 0);
}

#[test]
fn ram_reads_are_mirrored() {
    let mut bus = test_bus(&[]);
    assert!(bus.mem_write(0x0005, 0x42));
    assert_eq!(bus.mem_read(0x0005), 0x42);
    assert_eq!(bus.mem_read(0x0805), 0x42);
    assert_eq!(bus.mem_read(0x1005), 0x42);
    assert_eq!(bus.mem_read(0x1805), 0x42);
    assert_eq!(bus.mem_read(0x0005), bus.mem_read(0x0005 & 0x07ff));
    assert_eq!(bus.mem_read(0x1805), bus.mem_read(0x1805 & 0x07ff));
}

#[test]
fn ram_writes_are_mirrored() {
    let mut bus = test_bus(&[]);
    assert!(bus.mem_write(0x1805, 0x99));
    assert_eq!(bus.mem_read(0x0005), 0x99);
}

#[test]
fn rom_window_is_read_only() {
    let mut bus = test_bus(&[0x11]);
    assert!(!bus.mem_write(0x8000, 0x55));
    assert!(!bus.mem_write(0xffff, 0x55));
    assert_eq!(bus.mem_read(0x8000), 0x11);
}

#[test]
fn rom_reads_come_from_prg() {
    let mut prg = vec![0u8; 16384];
    prg[0] = 0xab;
    prg[0x2000] = 0xcd;
    let bus = test_bus(&prg);
    assert_eq!(bus.mem_read(0x8000), 0xab);
    assert_eq!(bus.mem_read(0xa000), 0xcd);
}

#[test]
fn small_prg_is_mirrored() {
    let mut prg = vec![0u8; 16384];
    prg[5] = 0x77;
    let bus = test_bus(&prg);
    assert_eq!(bus.mem_read(0x8005), 0x77);
    assert_eq!(bus.mem_read(0xc005), 0x77);
}

#[test]
fn open_region_reads_zero_and_swallows_writes() {
    let mut bus = test_bus(&[]);
    assert!(bus.mem_write(0x2100, 0x12));
    assert_eq!(bus.mem_read(0x2100), 0);
    assert!(bus.mem_write(0x5000, 0x34));
    assert_eq!(bus.mem_read(0x5000), 0);
}

#[test]
fn u16_round_trip_in_ram() {
    let mut bus = test_bus(&[]);
    assert!(bus.mem_write_u16(0x0600, 0xbeef));
    assert_eq!(bus.mem_read_u16(0x0600), 0xbeef);
    assert!(bus.mem_write_u16(0x07ff, 0x1234));
    assert_eq!(bus.mem_read_u16(0x07ff), 0x1234);
}

#[test]
fn u16_is_little_endian() {
    let mut bus = test_bus(&[]);
    assert!(bus.mem_write_u16(0x0010, 0x8040));
    assert_eq!(bus.mem_read(0x0010), 0x40);
    assert_eq!(bus.mem_read(0x0011), 0x80);
}
