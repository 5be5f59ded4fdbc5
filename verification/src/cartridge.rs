//! The cartridge: program ROM, character ROM, a mirroring tag and a mapper
//! id, loaded from an iNES image. Immutable once loaded.

use vstd::prelude::*;

verus! {

/// Name-table mirroring arrangement selected by the cartridge.
#[derive(Clone, Copy, PartialEq, Eq, Structural, Debug)]
pub enum Mirroring {
    Horizontal,
    Vertical,
    FourScreen,
}

/// Why an iNES image was rejected.
#[derive(Clone, Copy, PartialEq, Eq, Structural, Debug)]
pub enum RomError {
    /// The four magic bytes at the start of the header are wrong or missing.
    InvalidMagic,
    /// The header's version bits name a format other than iNES v1.
    UnsupportedVersion,
    /// The mapper id is not 0 (only NROM is honoured).
    UnsupportedMapper,
    /// The program ROM size is not 16 KiB or 32 KiB.
    UnsupportedPrgSize,
    /// The image is shorter than the sizes in its header claim.
    Truncated,
}

#[derive(Debug)]
pub struct Cartridge {
    pub prg_rom: Vec<u8>,
    pub chr_rom: Vec<u8>,
    pub mirroring: Mirroring,
    pub mapper_id: u8,
}

/// The iNES header starts with these magic bytes.
pub open spec fn ines_magic_ok(b: Seq<u8>) -> bool {
    b.len() >= 16 && b[0] == 0x4e && b[1] == 0x45 && b[2] == 0x53 && b[3] == 0x1a
}

/// Bits 2-3 of header byte 7: 0 names iNES v1.
pub open spec fn ines_version(b: Seq<u8>) -> int {
    ((b[7] / 4) % 4) as int
}

/// Mapper id: high nibble from byte 7, low nibble from byte 6.
pub open spec fn ines_mapper(b: Seq<u8>) -> int {
    (b[7] / 16) * 16 + b[6] / 16
}

/// Bit 2 of byte 6: a 512-byte trainer precedes the program ROM.
pub open spec fn ines_has_trainer(b: Seq<u8>) -> bool {
    (b[6] / 4) % 2 == 1
}

/// Mirroring tag: byte 6 bit 3 selects four-screen, else bit 0 selects
/// vertical over horizontal.
pub open spec fn ines_mirroring(b: Seq<u8>) -> Mirroring {
    if (b[6] / 8) % 2 == 1 {
        Mirroring::FourScreen
    } else if b[6] % 2 == 1 {
        Mirroring::Vertical
    } else {
        Mirroring::Horizontal
    }
}

/// Offset of the program ROM within the image.
pub open spec fn ines_prg_start(b: Seq<u8>) -> int {
    16 + if ines_has_trainer(b) { 512int } else { 0int }
}

/// Program ROM length in bytes: byte 4 counts 16 KiB units.
pub open spec fn ines_prg_len(b: Seq<u8>) -> int {
    b[4] * 0x4000
}

/// Character ROM length in bytes: byte 5 counts 8 KiB units.
pub open spec fn ines_chr_len(b: Seq<u8>) -> int {
    b[5] * 0x2000
}

/// The image holds as many bytes as its header claims.
pub open spec fn ines_complete(b: Seq<u8>) -> bool {
    b.len() >= ines_prg_start(b) + ines_prg_len(b) + ines_chr_len(b)
}

/// Every check the loader makes, in the order it makes them.
pub open spec fn ines_ok(b: Seq<u8>) -> bool {
    &&& ines_magic_ok(b)
    &&& ines_version(b) == 0
    &&& ines_mapper(b) == 0
    &&& (b[4] == 1 || b[4] == 2)
    &&& ines_complete(b)
}

impl Cartridge {
    /// A loaded cartridge holds 16 KiB or 32 KiB of program ROM.
    pub open spec fn wf(self) -> bool {
        self.prg_rom@.len() == 0x4000 || self.prg_rom@.len() == 0x8000
    }

    /// Parses an iNES image. Fails on a bad magic, a version other than
    /// iNES v1, a mapper other than 0 (NROM), a program ROM size other
    /// than 16 KiB or 32 KiB, or an image shorter than its header claims.
    pub fn from_ines(raw: &Vec<u8>) -> (r: Result<Cartridge, RomError>)
        ensures
            !ines_magic_ok(raw@) ==> r == Err::<Cartridge, RomError>(RomError::InvalidMagic),
            ines_magic_ok(raw@) && ines_version(raw@) != 0 ==> r == Err::<Cartridge, RomError>(
                RomError::UnsupportedVersion,
            ),
            ines_magic_ok(raw@) && ines_version(raw@) == 0 && ines_mapper(raw@) != 0 ==> r
                == Err::<Cartridge, RomError>(RomError::UnsupportedMapper),
            ines_magic_ok(raw@) && ines_version(raw@) == 0 && ines_mapper(raw@) == 0 && !(raw@[4]
                == 1 || raw@[4] == 2) ==> r == Err::<Cartridge, RomError>(
                RomError::UnsupportedPrgSize,
            ),
            ines_magic_ok(raw@) && ines_version(raw@) == 0 && ines_mapper(raw@) == 0 && (raw@[4]
                == 1 || raw@[4] == 2) && !ines_complete(raw@) ==> r == Err::<Cartridge, RomError>(
                RomError::Truncated,
            ),
            ines_ok(raw@) ==> (r matches Ok(c) && {
                let prg_start = ines_prg_start(raw@);
                let prg_len = ines_prg_len(raw@);
                &&& c.prg_rom@ == raw@.subrange(prg_start, prg_start + prg_len)
                &&& c.chr_rom@ == raw@.subrange(
                    prg_start + prg_len,
                    prg_start + prg_len + ines_chr_len(raw@),
                )
                &&& c.mirroring == ines_mirroring(raw@)
                &&& c.mapper_id == 0
                &&& c.wf()
            }),
    {
        if raw.len() < 16 || raw[0] != 0x4e || raw[1] != 0x45 || raw[2] != 0x53 || raw[3] != 0x1a {
            return Err(RomError::InvalidMagic);
        }
        let b4 = raw[4];
        let b5 = raw[5];
        let b6 = raw[6];
        let b7 = raw[7];
        if (b7 / 4) % 4 != 0 {
            return Err(RomError::UnsupportedVersion);
        }
        if (b7 / 16) * 16 + b6 / 16 != 0 {
            return Err(RomError::UnsupportedMapper);
        }
        if !(b4 == 1 || b4 == 2) {
            return Err(RomError::UnsupportedPrgSize);
        }
        let prg_start: usize = if (b6 / 4) % 2 == 1 {
            16 + 512
        } else {
            16
        };
        let prg_len: usize = (b4 as usize) * 0x4000;
        let chr_len: usize = (b5 as usize) * 0x2000;
        if raw.len() < prg_start + prg_len + chr_len {
            return Err(RomError::Truncated);
        }
        let mirroring = if (b6 / 8) % 2 == 1 {
            Mirroring::FourScreen
        } else if b6 % 2 == 1 {
            Mirroring::Vertical
        } else {
            Mirroring::Horizontal
        };
        let prg_rom = copy_range(raw, prg_start, prg_len);
        let chr_rom = copy_range(raw, prg_start + prg_len, chr_len);
        Ok(Cartridge { prg_rom, chr_rom, mirroring, mapper_id: 0 })
    }
}

/// Copies `len` bytes of `src` starting at `start` into a fresh vector.
fn copy_range(src: &Vec<u8>, start: usize, len: usize) -> (r: Vec<u8>)
    requires
        start + len <= src@.len(),
    ensures
        r@ == src@.subrange(start as int, start + len),
{
    let total = src.len();
    let mut out: Vec<u8> = Vec::new();
    let mut i: usize = 0;
    while i < len
        invariant
            i <= len,
            start + len <= total == src@.len(),
            out@ == src@.subrange(start as int, start + i),
        decreases len - i,
    {
        out.push(src[start + i]);
        proof {
            assert(out@ =~= src@.subrange(start as int, start + i + 1));
        }
        i = i + 1;
    }
    out
}

} // verus!
