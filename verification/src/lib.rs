//! Core of an NES emulator: the MOS 6502 CPU interpreter, the memory bus
//! that couples it to cartridge ROM and system RAM, the iNES cartridge
//! loader, and the PPU address/control register boundary.

pub mod bus;
pub mod cartridge;
pub mod cpu;
pub mod opcodes;
pub mod ppu;
