use nes_core::cartridge::Mirroring;
use nes_core::ppu::AddrRegister;
use nes_core::ppu::ControlRegister;
use nes_core::ppu::CTRL_VRAM_ADD_INCREMENT;
use nes_core::ppu::PPU;

fn test_ppu(mirroring: Mirroring) -> PPU {
    PPU::new(vec![0u8; 8192], mirroring)
}

#[test]
fn addr_register_takes_high_byte_first() {
    let mut addr = AddrRegister::new();
    addr.update(0x23);
    addr.update(0x05);
    assert_eq!(addr.get(), 0x2305);
}

#[test]
fn addr_register_masks_to_14_bits() {
    let mut addr = AddrRegister::new();
    addr.update(0x7f);
    addr.update(0xff);
    assert_eq!(addr.get(), 0x3fff);
}

#[test]
fn addr_register_latch_toggles_and_resets() {
    let mut addr = AddrRegister::new();
    addr.update(0x21);
    addr.update(0x08);
    // The toggle is back at the high byte: the next write replaces it.
    addr.update(0x23);
    assert_eq!(addr.get(), 0x2308);
    addr.reset_latch();
    addr.update(0x3f);
    assert_eq!(addr.get(), 0x3f08);
}

#[test]
fn addr_register_increment_carries() {
    let mut addr = AddrRegister::new();
    addr.update(0x21);
    addr.update(0xff);
    addr.increment(1);
    assert_eq!(addr.get(), 0x2200);
}

#[test]
fn addr_register_increment_wraps_at_14_bits() {
    let mut addr = AddrRegister::new();
    addr.update(0x3f);
    addr.update(0xff);
    addr.increment(1);
    assert_eq!(addr.get(), 0x0000);
}

#[test]
fn control_register_selects_increment() {
    let mut ctrl = ControlRegister::new();
    assert_eq!(ctrl.vram_addr_increment(), 1);
    ctrl.update(CTRL_VRAM_ADD_INCREMENT);
    assert_eq!(ctrl.vram_addr_increment(), 32);
}

#[test]
fn mirror_vram_addr_horizontal() {
    let ppu = test_ppu(Mirroring::Horizontal);
    assert_eq!(ppu.mirror_vram_addr(0x2005), 0x005);
    assert_eq!(ppu.mirror_vram_addr(0x2405), 0x005);
    assert_eq!(ppu.mirror_vram_addr(0x2805), 0x405);
    assert_eq!(ppu.mirror_vram_addr(0x2c05), 0x405);
    assert_eq!(ppu.mirror_vram_addr(0x3eff), 0x6ff);
}

#[test]
fn mirror_vram_addr_vertical() {
    let ppu = test_ppu(Mirroring::Vertical);
    assert_eq!(ppu.mirror_vram_addr(0x2005), 0x005);
    assert_eq!(ppu.mirror_vram_addr(0x2405), 0x405);
    assert_eq!(ppu.mirror_vram_addr(0x2805), 0x005);
    assert_eq!(ppu.mirror_vram_addr(0x2c05), 0x405);
}

#[test]
fn vram_write_then_buffered_read() {
    let mut ppu = test_ppu(Mirroring::Horizontal);
    ppu.write_to_ppu_addr(0x23);
    ppu.write_to_ppu_addr(0x05);
    assert!(ppu.write_to_data(0x66));
    ppu.write_to_ppu_addr(0x23);
    ppu.write_to_ppu_addr(0x05);
    let first = ppu.read_data();
    let second = ppu.read_data();
    assert_eq!(first, 0);
    assert_eq!(second, 0x66);
}

#[test]
fn chr_reads_are_buffered() {
    let mut chr = vec![0u8; 8192];
    chr[0x0005] = 0xab;
    let mut ppu = PPU::new(chr, Mirroring::Horizontal);
    ppu.write_to_ppu_addr(0x00);
    ppu.write_to_ppu_addr(0x05);
    let first = ppu.read_data();
    let second = ppu.read_data();
    assert_eq!(first, 0);
    assert_eq!(second, 0xab);
}

#[test]
fn palette_reads_are_direct() {
    let mut ppu = test_ppu(Mirroring::Horizontal);
    ppu.write_to_ppu_addr(0x3f);
    ppu.write_to_ppu_addr(0x01);
    assert!(ppu.write_to_data(0x07));
    ppu.write_to_ppu_addr(0x3f);
    ppu.write_to_ppu_addr(0x01);
    assert_eq!(ppu.read_data(), 0x07);
}

#[test]
fn palette_mirrors_fold_back() {
    let mut ppu = test_ppu(Mirroring::Horizontal);
    ppu.write_to_ppu_addr(0x3f);
    ppu.write_to_ppu_addr(0x10);
    assert!(ppu.write_to_data(0x09));
    assert_eq!(ppu.palette_table[0], 0x09);
}

#[test]
fn chr_space_rejects_writes() {
    let mut ppu = test_ppu(Mirroring::Horizontal);
    ppu.write_to_ppu_addr(0x00);
    ppu.write_to_ppu_addr(0x05);
    assert!(!ppu.write_to_data(0x66));
    assert_eq!(ppu.chr_rom[5], 0);
}

#[test]
fn data_access_steps_address_by_configured_increment() {
    let mut ppu = test_ppu(Mirroring::Horizontal);
    ppu.write_to_ctrl(CTRL_VRAM_ADD_INCREMENT);
    ppu.write_to_ppu_addr(0x21);
    ppu.write_to_ppu_addr(0x00);
    ppu.read_data();
    assert_eq!(ppu.addr.get(), 0x2120);
}

#[test]
fn four_screen_upper_tables_fall_outside_the_2k() {
    let ppu = test_ppu(Mirroring::FourScreen);
    assert_eq!(ppu.mirror_vram_addr(0x2005), 0x005);
    assert_eq!(ppu.mirror_vram_addr(0x2805), 0x805);
    let mut ppu = test_ppu(Mirroring::FourScreen);
    ppu.write_to_ppu_addr(0x28);
    ppu.write_to_ppu_addr(0x05);
    // The upper name-table pair has no backing memory here: the write
    // is rejected and the 2 KiB stay untouched.
    assert!(!ppu.write_to_data(0x44));
    assert!(ppu.vram.iter().all(|&b| b == 0));
}
