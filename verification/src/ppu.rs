//! The PPU boundary: the address register (a 14-bit latch written as two
//! 8-bit halves, high first), the control register, and the data port
//! with its buffered reads. Only the address-space mapping is modelled;
//! rendering is out of scope. Accesses the hardware leaves undefined
//! (writes into character ROM, the 0x3000..0x3EFF gap, name tables
//! beyond the mirrored 2 KiB) are rejected or yield 0 instead of
//! failing.

use vstd::prelude::*;

use crate::cartridge::Mirroring;

verus! {

/// Control register bit: base name table, low bit.
pub const CTRL_NAMETABLE1: u8 = 0x01;

/// Control register bit: base name table, high bit.
pub const CTRL_NAMETABLE2: u8 = 0x02;

/// Control register bit: VRAM address increment per data access,
/// 1 (clear, going across) or 32 (set, going down).
pub const CTRL_VRAM_ADD_INCREMENT: u8 = 0x04;

/// Control register bit: sprite pattern table address.
pub const CTRL_SPRITE_PATTERN_ADDR: u8 = 0x08;

/// Control register bit: background pattern table address.
pub const CTRL_BACKGROUND_PATTERN_ADDR: u8 = 0x10;

/// Control register bit: sprite size.
pub const CTRL_SPRITE_SIZE: u8 = 0x20;

/// Control register bit: PPU master/slave select.
pub const CTRL_MASTER_SLAVE_SELECT: u8 = 0x40;

/// Control register bit: generate an NMI at the start of vertical blank.
pub const CTRL_GENERATE_NMI: u8 = 0x80;

/// The PPU control register (PPUCTRL, 0x2000).
pub struct ControlRegister {
    pub bits: u8,
}

/// The VRAM step the control register selects.
pub open spec fn spec_vram_increment(bits: u8) -> u8 {
    if bits & CTRL_VRAM_ADD_INCREMENT == 0 {
        1
    } else {
        32
    }
}

impl ControlRegister {
    pub fn new() -> (r: ControlRegister)
        ensures
            r.bits == 0,
    {
        ControlRegister { bits: 0 }
    }

    /// The VRAM auto-increment: 1, or 32 when bit 2 is set.
    pub fn vram_addr_increment(&self) -> (r: u8)
        ensures
            r == spec_vram_increment(self.bits),
    {
        if self.bits & CTRL_VRAM_ADD_INCREMENT == 0 {
            1
        } else {
            32
        }
    }

    /// Replaces the register contents.
    pub fn update(&mut self, data: u8)
        ensures
            final(self).bits == data,
    {
        self.bits = data;
    }
}

/// The PPU address register (PPUADDR, 0x2006): a 14-bit latch written
/// high byte first, with a toggle remembering which half comes next.
pub struct AddrRegister {
    pub hi: u8,
    pub lo: u8,
    pub hi_ptr: bool,
}

/// The combined 14-bit address in the latch.
pub open spec fn spec_addr_get(r: AddrRegister) -> u16 {
    (r.hi * 256 + r.lo) as u16
}

/// One half written into the latch: the masked combined value and the
/// flipped toggle.
pub open spec fn spec_addr_update(r: AddrRegister, data: u8) -> AddrRegister {
    let r1 = if r.hi_ptr {
        AddrRegister { hi: data, lo: r.lo, hi_ptr: r.hi_ptr }
    } else {
        AddrRegister { hi: r.hi, lo: data, hi_ptr: r.hi_ptr }
    };
    let r2 = if spec_addr_get(r1) > 0x3fff {
        let m = spec_addr_get(r1) % 0x4000;
        AddrRegister { hi: (m / 256) as u8, lo: (m % 256) as u8, hi_ptr: r1.hi_ptr }
    } else {
        r1
    };
    AddrRegister { hi: r2.hi, lo: r2.lo, hi_ptr: !r2.hi_ptr }
}

/// The latch stepped by `inc` with 8-bit carry into the high byte, then
/// masked to 14 bits.
pub open spec fn spec_addr_increment(r: AddrRegister, inc: u8) -> AddrRegister {
    let lo1 = r.lo.wrapping_add(inc);
    let hi1 = if r.lo > lo1 {
        r.hi.wrapping_add(1)
    } else {
        r.hi
    };
    let r1 = AddrRegister { hi: hi1, lo: lo1, hi_ptr: r.hi_ptr };
    if spec_addr_get(r1) > 0x3fff {
        let m = spec_addr_get(r1) % 0x4000;
        AddrRegister { hi: (m / 256) as u8, lo: (m % 256) as u8, hi_ptr: r1.hi_ptr }
    } else {
        r1
    }
}

impl AddrRegister {
    /// The latch never holds more than 14 bits.
    pub open spec fn wf(self) -> bool {
        self.hi < 0x40
    }

    pub fn new() -> (r: AddrRegister)
        ensures
            r.hi == 0,
            r.lo == 0,
            r.hi_ptr == true,
            r.wf(),
    {
        AddrRegister { hi: 0, lo: 0, hi_ptr: true }
    }

    /// The combined 14-bit address.
    pub fn get(&self) -> (r: u16)
        ensures
            r == spec_addr_get(*self),
            self.wf() ==> r < 0x4000,
    {
        (self.hi as u16) * 256 + self.lo as u16
    }

    /// Replaces the combined value; the caller masks it to 14 bits.
    fn set(&mut self, data: u16)
        requires
            data < 0x4000,
        ensures
            final(self).hi == (data / 256) as u8,
            final(self).lo == (data % 256) as u8,
            final(self).hi_ptr == old(self).hi_ptr,
            final(self).wf(),
    {
        self.hi = (data / 256) as u8;
        self.lo = (data % 256) as u8;
    }

    /// Writes one half of the latch (high byte first after a reset of
    /// the toggle), masks the combined value to 14 bits, and flips the
    /// toggle.
    pub fn update(&mut self, data: u8)
        ensures
            *final(self) == spec_addr_update(*old(self), data),
            final(self).wf(),
    {
        if self.hi_ptr {
            self.hi = data;
        } else {
            self.lo = data;
        }
        let v = self.get();
        if v > 0x3fff {
            self.set(v % 0x4000);
        }
        self.hi_ptr = !self.hi_ptr;
    }

    /// Adds `inc` with 8-bit carry into the high byte, then masks to 14
    /// bits.
    pub fn increment(&mut self, inc: u8)
        ensures
            *final(self) == spec_addr_increment(*old(self), inc),
            final(self).wf(),
    {
        let lo = self.lo;
        self.lo = self.lo.wrapping_add(inc);
        if lo > self.lo {
            self.hi = self.hi.wrapping_add(1);
        }
        let v = self.get();
        if v > 0x3fff {
            self.set(v % 0x4000);
        }
    }

    /// Points the latch back at the high byte.
    pub fn reset_latch(&mut self)
        ensures
            final(self).hi == old(self).hi,
            final(self).lo == old(self).lo,
            final(self).hi_ptr == true,
    {
        self.hi_ptr = true;
    }
}

/// Where a name-table address lands in the PPU's 2 KiB of VRAM: the
/// address is folded into 0x2000..0x3000, made relative, and the selected
/// name table is aliased according to the cartridge's mirroring.
/// Four-screen addresses in the upper pair fall outside the 2 KiB and
/// are reported as indices of 0x800 and above.
pub open spec fn spec_mirror_vram(m: Mirroring, addr: u16) -> u16 {
    let folded = if addr >= 0x3000 {
        (addr - 0x1000) as u16
    } else {
        addr
    };
    let idx = (folded - 0x2000) as u16;
    let nt = idx / 0x400;
    if m == Mirroring::Vertical && (nt == 2 || nt == 3) {
        (idx - 0x800) as u16
    } else if m == Mirroring::Horizontal && (nt == 1 || nt == 2) {
        (idx - 0x400) as u16
    } else if m == Mirroring::Horizontal && nt == 3 {
        (idx - 0x800) as u16
    } else {
        idx
    }
}

/// Index into the 32-byte palette table for an address in
/// 0x3F00..0x4000: mirrored modulo 0x20, with 0x10/0x14/0x18/0x1C
/// aliasing 0x00/0x04/0x08/0x0C.
pub open spec fn spec_palette_index(addr: u16) -> u16 {
    let pi = ((addr - 0x3f00) as u16) % 0x20;
    if pi == 0x10 || pi == 0x14 || pi == 0x18 || pi == 0x1c {
        (pi - 0x10) as u16
    } else {
        pi
    }
}

pub struct PPU {
    pub chr_rom: Vec<u8>,
    pub palette_table: Vec<u8>,
    pub vram: Vec<u8>,
    pub oam_data: Vec<u8>,
    pub mirroring: Mirroring,
    pub addr: AddrRegister,
    pub ctrl: ControlRegister,
    pub internal_data_buf: u8,
}

/// A vector of `n` zero bytes.
fn zero_vec(n: usize) -> (r: Vec<u8>)
    ensures
        r@ == Seq::new(n as nat, |i: int| 0u8),
{
    let mut out: Vec<u8> = Vec::new();
    let mut i: usize = 0;
    while i < n
        invariant
            i <= n,
            out@ == Seq::new(i as nat, |j: int| 0u8),
        decreases n - i,
    {
        out.push(0);
        proof {
            assert(out@ =~= Seq::new((i + 1) as nat, |j: int| 0u8));
        }
        i = i + 1;
    }
    out
}

impl PPU {
    pub open spec fn wf(self) -> bool {
        &&& self.palette_table@.len() == 32
        &&& self.vram@.len() == 0x800
        &&& self.oam_data@.len() == 256
        &&& self.addr.wf()
    }

    pub fn new(chr_rom: Vec<u8>, mirroring: Mirroring) -> (r: PPU)
        ensures
            r.wf(),
            r.chr_rom == chr_rom,
            r.mirroring == mirroring,
            r.palette_table@ == Seq::new(32, |i: int| 0u8),
            r.vram@ == Seq::new(0x800, |i: int| 0u8),
            r.oam_data@ == Seq::new(256, |i: int| 0u8),
            r.addr == (AddrRegister { hi: 0, lo: 0, hi_ptr: true }),
            r.ctrl.bits == 0,
            r.internal_data_buf == 0,
    {
        PPU {
            chr_rom,
            palette_table: zero_vec(32),
            vram: zero_vec(0x800),
            oam_data: zero_vec(256),
            mirroring,
            addr: AddrRegister::new(),
            ctrl: ControlRegister::new(),
            internal_data_buf: 0,
        }
    }

    /// One write into the address register (PPUADDR).
    pub fn write_to_ppu_addr(&mut self, value: u8)
        requires
            old(self).wf(),
        ensures
            final(self).wf(),
            final(self).addr == spec_addr_update(old(self).addr, value),
            final(self).chr_rom == old(self).chr_rom,
            final(self).palette_table == old(self).palette_table,
            final(self).vram == old(self).vram,
            final(self).oam_data == old(self).oam_data,
            final(self).mirroring == old(self).mirroring,
            final(self).ctrl == old(self).ctrl,
            final(self).internal_data_buf == old(self).internal_data_buf,
    {
        self.addr.update(value);
    }

    /// One write into the control register (PPUCTRL).
    pub fn write_to_ctrl(&mut self, value: u8)
        requires
            old(self).wf(),
        ensures
            final(self).wf(),
            final(self).ctrl.bits == value,
            final(self).chr_rom == old(self).chr_rom,
            final(self).palette_table == old(self).palette_table,
            final(self).vram == old(self).vram,
            final(self).oam_data == old(self).oam_data,
            final(self).mirroring == old(self).mirroring,
            final(self).addr == old(self).addr,
            final(self).internal_data_buf == old(self).internal_data_buf,
    {
        self.ctrl.update(value);
    }

    /// Steps the address register by the increment the control register
    /// selects.
    fn increment_vram_addr(&mut self)
        requires
            old(self).wf(),
        ensures
            final(self).wf(),
            final(self).addr == spec_addr_increment(
                old(self).addr,
                spec_vram_increment(old(self).ctrl.bits),
            ),
            final(self).chr_rom == old(self).chr_rom,
            final(self).palette_table == old(self).palette_table,
            final(self).vram == old(self).vram,
            final(self).oam_data == old(self).oam_data,
            final(self).mirroring == old(self).mirroring,
            final(self).ctrl == old(self).ctrl,
            final(self).internal_data_buf == old(self).internal_data_buf,
    {
        let inc = self.ctrl.vram_addr_increment();
        self.addr.increment(inc);
    }

    /// Folds a name-table address into an index of the PPU's 2 KiB of
    /// VRAM according to the cartridge's mirroring.
    pub fn mirror_vram_addr(&self, addr: u16) -> (r: u16)
        requires
            0x2000 <= addr < 0x4000,
        ensures
            r == spec_mirror_vram(self.mirroring, addr),
            r < 0x1000,
            self.mirroring != Mirroring::FourScreen ==> r < 0x800,
    {
        let folded = if addr >= 0x3000 {
            addr - 0x1000
        } else {
            addr
        };
        let idx = folded - 0x2000;
        let nt = idx / 0x400;
        match (&self.mirroring, nt) {
            (Mirroring::Vertical, 2) | (Mirroring::Vertical, 3) => idx - 0x800,
            (Mirroring::Horizontal, 1) | (Mirroring::Horizontal, 2) => idx - 0x400,
            (Mirroring::Horizontal, 3) => idx - 0x800,
            _ => idx,
        }
    }

    /// One write through the data port (PPUDATA) at the latched
    /// address; the address register then steps by the configured
    /// increment. Returns whether the byte was stored: writes into the
    /// character ROM space, the 0x3000..0x3F00 gap, and name tables
    /// outside the mirrored 2 KiB are rejected.
    pub fn write_to_data(&mut self, value: u8) -> (stored: bool)
        requires
            old(self).wf(),
        ensures
            final(self).wf(),
            ({
                let a = spec_addr_get(old(self).addr);
                let vi = spec_mirror_vram(old(self).mirroring, a);
                &&& final(self).vram@ == if 0x2000 <= a < 0x3000 && vi < 0x800 {
                    old(self).vram@.update(vi as int, value)
                } else {
                    old(self).vram@
                }
                &&& final(self).palette_table@ == if 0x3f00 <= a < 0x4000 {
                    old(self).palette_table@.update(spec_palette_index(a) as int, value)
                } else {
                    old(self).palette_table@
                }
                &&& stored == ((0x2000 <= a < 0x3000 && vi < 0x800) || 0x3f00 <= a < 0x4000)
            }),
            final(self).addr == spec_addr_increment(
                old(self).addr,
                spec_vram_increment(old(self).ctrl.bits),
            ),
            final(self).chr_rom == old(self).chr_rom,
            final(self).oam_data == old(self).oam_data,
            final(self).mirroring == old(self).mirroring,
            final(self).ctrl == old(self).ctrl,
            final(self).internal_data_buf == old(self).internal_data_buf,
    {
        let a = self.addr.get();
        let stored: bool;
        if a < 0x2000 {
            stored = false;
        } else if a < 0x3000 {
            let vi = self.mirror_vram_addr(a);
            if vi < 0x800 {
                self.vram.set(vi as usize, value);
                stored = true;
            } else {
                stored = false;
            }
        } else if a < 0x3f00 {
            stored = false;
        } else {
            let pi = (a - 0x3f00) % 0x20;
            let pi2 = if pi == 0x10 || pi == 0x14 || pi == 0x18 || pi == 0x1c {
                pi - 0x10
            } else {
                pi
            };
            self.palette_table.set(pi2 as usize, value);
            stored = true;
        }
        self.increment_vram_addr();
        stored
    }

    /// One read through the data port (PPUDATA) at the latched address;
    /// the address register then steps by the configured increment.
    /// Character ROM and name-table reads are buffered: they return the
    /// previous buffer contents and refill the buffer. Palette reads are
    /// direct. Reads from the 0x3000..0x3F00 gap, past the end of
    /// character ROM, or from name tables outside the mirrored 2 KiB
    /// yield 0 into the buffer.
    pub fn read_data(&mut self) -> (r: u8)
        requires
            old(self).wf(),
        ensures
            final(self).wf(),
            ({
                let a = spec_addr_get(old(self).addr);
                let vi = spec_mirror_vram(old(self).mirroring, a);
                &&& r == if a < 0x3000 {
                    old(self).internal_data_buf
                } else if 0x3f00 <= a < 0x4000 {
                    old(self).palette_table@[spec_palette_index(a) as int]
                } else {
                    0
                }
                &&& final(self).internal_data_buf == if a < 0x2000 {
                    if a < old(self).chr_rom@.len() {
                        old(self).chr_rom@[a as int]
                    } else {
                        0
                    }
                } else if a < 0x3000 {
                    if vi < 0x800 {
                        old(self).vram@[vi as int]
                    } else {
                        0
                    }
                } else {
                    old(self).internal_data_buf
                }
            }),
            final(self).addr == spec_addr_increment(
                old(self).addr,
                spec_vram_increment(old(self).ctrl.bits),
            ),
            final(self).chr_rom == old(self).chr_rom,
            final(self).palette_table == old(self).palette_table,
            final(self).vram == old(self).vram,
            final(self).oam_data == old(self).oam_data,
            final(self).mirroring == old(self).mirroring,
            final(self).ctrl == old(self).ctrl,
    {
        let a = self.addr.get();
        let r: u8;
        if a < 0x2000 {
            r = self.internal_data_buf;
            self.internal_data_buf = if (a as usize) < self.chr_rom.len() {
                self.chr_rom[a as usize]
            } else {
                0
            };
        } else if a < 0x3000 {
            r = self.internal_data_buf;
            let vi = self.mirror_vram_addr(a);
            self.internal_data_buf = if vi < 0x800 {
                self.vram[vi as usize]
            } else {
                0
            };
        } else if a < 0x3f00 {
            r = 0;
        } else {
            let pi = (a - 0x3f00) % 0x20;
            let pi2 = if pi == 0x10 || pi == 0x14 || pi == 0x18 || pi == 0x1c {
                pi - 0x10
            } else {
                pi
            };
            r = self.palette_table[pi2 as usize];
        }
        self.increment_vram_addr();
        r
    }
}

} // verus!
