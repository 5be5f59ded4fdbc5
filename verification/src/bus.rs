//! The bus: a uniform 16-bit address-space multiplexer. Reads and writes
//! are routed to the 2 KiB of CPU RAM (mirrored over 0x0000..0x2000), the
//! PPU register window (unimplemented here: reads yield 0, writes are
//! accepted and ignored), the cartridge program ROM window (read-only,
//! mirrored when the cartridge holds 16 KiB), or an ignored open region.

use vstd::prelude::*;

use crate::cartridge::Cartridge;

verus! {

/// What one read returns, given the RAM and program ROM contents.
pub open spec fn spec_read_at(ram: Seq<u8>, prg: Seq<u8>, addr: u16) -> u8 {
    if addr < 0x2000 {
        ram[(addr % 0x800) as int]
    } else if addr < 0x8000 {
        0
    } else {
        let i = (addr - 0x8000) as int;
        if prg.len() == 0x4000 {
            prg[i % 0x4000]
        } else {
            prg[i]
        }
    }
}

/// The RAM contents after one write: only the mirrored RAM region is
/// backed by memory; every other region leaves RAM as it is.
pub open spec fn spec_write_at(ram: Seq<u8>, addr: u16, data: u8) -> Seq<u8> {
    if addr < 0x2000 {
        ram.update((addr % 0x800) as int, data)
    } else {
        ram
    }
}

/// A write succeeds everywhere but in the read-only program ROM window.
pub open spec fn spec_write_ok(addr: u16) -> bool {
    addr < 0x8000
}

/// A 16-bit little-endian read: low byte first, wrapping at the end of
/// the address space.
pub open spec fn spec_read16_at(ram: Seq<u8>, prg: Seq<u8>, pos: u16) -> u16 {
    (spec_read_at(ram, prg, pos) + 256 * spec_read_at(ram, prg, pos.wrapping_add(1))) as u16
}

/// The RAM contents after a 16-bit little-endian write.
pub open spec fn spec_write16_at(ram: Seq<u8>, pos: u16, data: u16) -> Seq<u8> {
    spec_write_at(spec_write_at(ram, pos, (data % 256) as u8), pos.wrapping_add(1), (data / 256) as u8)
}

pub struct Bus {
    pub cpu_ram: Vec<u8>,
    pub rom: Cartridge,
}

impl Bus {
    /// The bus owns exactly 2 KiB of RAM and a loaded cartridge.
    pub open spec fn wf(self) -> bool {
        self.cpu_ram@.len() == 0x800 && self.rom.wf()
    }

    /// What a read at `addr` returns on this bus.
    pub open spec fn spec_read(self, addr: u16) -> u8 {
        spec_read_at(self.cpu_ram@, self.rom.prg_rom@, addr)
    }

    /// What a 16-bit read at `pos` returns on this bus.
    pub open spec fn spec_read16(self, pos: u16) -> u16 {
        spec_read16_at(self.cpu_ram@, self.rom.prg_rom@, pos)
    }

    pub fn new(rom: Cartridge) -> (r: Bus)
        requires
            rom.wf(),
        ensures
            r.wf(),
            r.cpu_ram@ == Seq::new(0x800, |i: int| 0u8),
            r.rom == rom,
    {
        let mut ram: Vec<u8> = Vec::new();
        let mut i: usize = 0;
        while i < 0x800
            invariant
                i <= 0x800,
                ram@ == Seq::new(i as nat, |j: int| 0u8),
            decreases 0x800 - i,
        {
            ram.push(0);
            proof {
                assert(ram@ =~= Seq::new((i + 1) as nat, |j: int| 0u8));
            }
            i = i + 1;
        }
        Bus { cpu_ram: ram, rom }
    }

    /// A read in the program ROM window, mirrored modulo 0x4000 when
    /// the cartridge holds a single 16 KiB bank.
    fn read_prg_rom(&self, addr: u16) -> (r: u8)
        requires
            self.wf(),
            addr >= 0x8000,
        ensures
            r == self.spec_read(addr),
    {
        let mut idx: usize = (addr - 0x8000) as usize;
        if self.rom.prg_rom.len() == 0x4000 {
            idx = idx % 0x4000;
        }
        self.rom.prg_rom[idx]
    }

    /// Routes a read: RAM mirrored modulo 0x800, PPU window and open
    /// regions yield 0, program ROM handed to the cartridge window.
    pub fn mem_read(&self, addr: u16) -> (r: u8)
        requires
            self.wf(),
        ensures
            r == self.spec_read(addr),
    {
        if addr < 0x2000 {
            self.cpu_ram[(addr % 0x800) as usize]
        } else if addr < 0x8000 {
            0
        } else {
            self.read_prg_rom(addr)
        }
    }

    /// Routes a write. Returns whether the write was performed or
    /// accepted: a write into the program ROM window fails and changes
    /// nothing.
    pub fn mem_write(&mut self, addr: u16, data: u8) -> (ok: bool)
        requires
            old(self).wf(),
        ensures
            final(self).wf(),
            final(self).cpu_ram@ == spec_write_at(old(self).cpu_ram@, addr, data),
            final(self).rom == old(self).rom,
            ok == spec_write_ok(addr),
    {
        if addr < 0x2000 {
            self.cpu_ram.set((addr % 0x800) as usize, data);
            true
        } else if addr < 0x8000 {
            true
        } else {
            false
        }
    }

    /// Reads a 16-bit little-endian value: low byte at `pos`, high byte
    /// at the following address.
    pub fn mem_read_u16(&self, pos: u16) -> (r: u16)
        requires
            self.wf(),
        ensures
            r == self.spec_read16(pos),
    {
        let lo = self.mem_read(pos) as u16;
        let hi = self.mem_read(pos.wrapping_add(1)) as u16;
        lo + 256 * hi
    }

    /// Writes a 16-bit little-endian value: low byte at `pos`, high byte
    /// at the following address. Returns whether both writes succeeded.
    pub fn mem_write_u16(&mut self, pos: u16, data: u16) -> (ok: bool)
        requires
            old(self).wf(),
        ensures
            final(self).wf(),
            final(self).cpu_ram@ == spec_write16_at(old(self).cpu_ram@, pos, data),
            final(self).rom == old(self).rom,
            ok == (spec_write_ok(pos) && spec_write_ok(pos.wrapping_add(1))),
    {
        let lo = (data % 256) as u8;
        let hi = (data / 256) as u8;
        let ok1 = self.mem_write(pos, lo);
        let ok2 = self.mem_write(pos.wrapping_add(1), hi);
        ok1 && ok2
    }
}

/// Reads below 0x2000 are mirrored: a read at `addr` and a read at
/// `addr & 0x07FF` return the same byte.
pub proof fn lemma_ram_mirroring(b: Bus, addr: u16)
    requires
        addr < 0x2000,
    ensures
        b.spec_read(addr) == b.spec_read(addr & 0x07ff),
{
    assert(addr & 0x07ff == addr % 0x800) by (bit_vector);
}

/// The program ROM window is read-only: a write at or above 0x8000 fails
/// and leaves both RAM and ROM unchanged.
pub proof fn lemma_rom_read_only(ram: Seq<u8>, addr: u16, data: u8)
    requires
        addr >= 0x8000,
    ensures
        !spec_write_ok(addr),
        spec_write_at(ram, addr, data) == ram,
{
}

/// A 16-bit write into RAM followed by a 16-bit read at the same place
/// returns the value written, as long as both touched bytes lie in the
/// mirrored RAM region.
pub proof fn lemma_mem_u16_round_trip(b1: Bus, b2: Bus, pos: u16, data: u16)
    requires
        b1.wf(),
        pos < 0x1fff,
        b2.cpu_ram@ == spec_write16_at(b1.cpu_ram@, pos, data),
        b2.rom == b1.rom,
    ensures
        b2.spec_read16(pos) == data,
{
    let i = (pos % 0x800) as int;
    let j = (pos.wrapping_add(1) % 0x800) as int;
    assert(pos.wrapping_add(1) == pos + 1);
    assert(i != j) by {
        if pos % 0x800 == 0x7ff {
            assert((pos + 1) % 0x800 == 0) by {
                lemma_mod_step(pos as int, 0x800);
            };
        } else {
            assert((pos + 1) % 0x800 == pos % 0x800 + 1) by {
                lemma_mod_step(pos as int, 0x800);
            };
        }
    };
    assert(b2.cpu_ram@[j] == (data / 256) as u8);
    assert(b2.cpu_ram@[i] == (data % 256) as u8);
    assert(data % 256 + 256 * (data / 256) == data) by (nonlinear_arith);
}

/// Stepping an index by one either steps its remainder or wraps it to 0.
proof fn lemma_mod_step(p: int, m: int)
    requires
        p >= 0,
        m > 0,
    ensures
        p % m == m - 1 ==> (p + 1) % m == 0,
        p % m < m - 1 ==> (p + 1) % m == p % m + 1,
{
    assert(p == m * (p / m) + p % m) by (nonlinear_arith)
        requires
            p >= 0 && m > 0,
    ;
    if p % m == m - 1 {
        assert((p + 1) % m == 0) by (nonlinear_arith)
            requires
                p + 1 == m * (p / m) + m && m > 0,
        ;
    } else {
        assert((p + 1) % m == p % m + 1) by (nonlinear_arith)
            requires
                p + 1 == m * (p / m) + p % m + 1 && m > 0 && 0 <= p % m < m - 1,
        ;
    }
}

} // verus!
