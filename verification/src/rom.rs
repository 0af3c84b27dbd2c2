//! Cartridge images in the iNES format, version 1.
//!
//! An image is a 16-byte header, an optional 512-byte trainer, the program
//! memory and the character memory, in this order.

use crate::Mirroring;
use vstd::prelude::*;

verus! {

/// Bytes in one page of program memory.
pub const PRG_ROM_PAGE_SIZE: usize = 16384;

/// Bytes in one page of character memory.
pub const CHR_ROM_PAGE_SIZE: usize = 8192;

/// Bytes in the header.
pub const HEADER_SIZE: usize = 16;

/// Bytes in a trainer.
pub const TRAINER_SIZE: usize = 512;

/// Why an image without the tag is refused.
pub const NOT_INES: &'static str = "File is not in the iNES file format";

/// Why an image of a later version of the format is refused.
pub const INES2_UNSUPPORTED: &'static str = "iNES2.0 format is not supported";

/// Why an image that ends before its header, or before the memory that its
/// header announces, is refused.
pub const TRUNCATED: &'static str = "File is shorter than its header declares";

/// Whether `raw` starts with the tag `N`, `E`, `S`, end-of-file.
pub open spec fn has_tag(raw: Seq<u8>) -> bool {
    &&& raw.len() >= 4
    &&& raw[0] == 0x4E
    &&& raw[1] == 0x45
    &&& raw[2] == 0x53
    &&& raw[3] == 0x1A
}

/// The format version, bits 2 and 3 of the second control byte.
pub open spec fn format_version(raw: Seq<u8>) -> int {
    (raw[7] as int / 4) % 4
}

/// Whether a trainer stands between header and program memory: bit 2 of the
/// first control byte.
pub open spec fn has_trainer(raw: Seq<u8>) -> bool {
    (raw[6] as int / 4) % 2 == 1
}

/// Where program memory starts.
pub open spec fn prg_start(raw: Seq<u8>) -> int {
    HEADER_SIZE as int + if has_trainer(raw) {
        TRAINER_SIZE as int
    } else {
        0
    }
}

/// Bytes of program memory: byte 4 counts its pages.
pub open spec fn prg_size(raw: Seq<u8>) -> int {
    raw[4] as int * PRG_ROM_PAGE_SIZE as int
}

/// Bytes of character memory: byte 5 counts its pages.
pub open spec fn chr_size(raw: Seq<u8>) -> int {
    raw[5] as int * CHR_ROM_PAGE_SIZE as int
}

/// The mapper number: its high digit is the high digit of the second control
/// byte, its low digit the high digit of the first.
pub open spec fn mapper_number(raw: Seq<u8>) -> u8 {
    ((raw[7] as int / 16) * 16 + raw[6] as int / 16) as u8
}

/// The nametable arrangement: four screens when bit 3 of the first control
/// byte is set, else vertical when bit 0 is set, else horizontal.
pub open spec fn screen_mirroring(raw: Seq<u8>) -> Mirroring {
    if (raw[6] as int / 8) % 2 == 1 {
        Mirroring::FourScreen
    } else if raw[6] as int % 2 == 1 {
        Mirroring::Vertical
    } else {
        Mirroring::Horizontal
    }
}

/// Why `raw` is refused, or `None` where it is a complete version 1 image.
pub open spec fn refusal(raw: Seq<u8>) -> Option<Seq<char>> {
    if !has_tag(raw) {
        Some(NOT_INES@)
    } else if raw.len() < 8 {
        Some(TRUNCATED@)
    } else if format_version(raw) != 0 {
        Some(INES2_UNSUPPORTED@)
    } else if raw.len() < prg_start(raw) + prg_size(raw) + chr_size(raw) {
        Some(TRUNCATED@)
    } else {
        None
    }
}

/// What a cartridge holds.
pub struct RomModel {
    pub prg: Seq<u8>,
    pub chr: Seq<u8>,
    pub mapper: u8,
    pub mirroring: Mirroring,
}

/// The cartridge that a complete image `raw` describes.
pub open spec fn cartridge(raw: Seq<u8>) -> RomModel {
    RomModel {
        prg: raw.subrange(prg_start(raw), prg_start(raw) + prg_size(raw)),
        chr: raw.subrange(
            prg_start(raw) + prg_size(raw),
            prg_start(raw) + prg_size(raw) + chr_size(raw),
        ),
        mapper: mapper_number(raw),
        mirroring: screen_mirroring(raw),
    }
}

/// A cartridge: program memory, character memory, mapper number and nametable
/// arrangement.
pub struct Rom {
    pub prg_rom: Vec<u8>,
    pub chr_rom: Vec<u8>,
    pub mapper: u8,
    pub screen_mirroring: Mirroring,
}

impl View for Rom {
    type V = RomModel;

    open spec fn view(&self) -> RomModel {
        RomModel {
            prg: self.prg_rom@,
            chr: self.chr_rom@,
            mapper: self.mapper,
            mirroring: self.screen_mirroring,
        }
    }
}

/// The byte that a memory chip of `mem.len()` bytes returns for `offset`:
/// the chip repeats through whatever window it is mapped into, and an empty
/// chip returns zero.
pub open spec fn mirrored_byte(mem: Seq<u8>, offset: int) -> u8 {
    if mem.len() == 0 {
        0
    } else {
        mem[offset % mem.len() as int]
    }
}

/// Reads `mem` at `offset`, repeating it as often as needed.
pub fn read_mirrored(mem: &Vec<u8>, offset: usize) -> (b: u8)
    ensures
        b == mirrored_byte(mem@, offset as int),
{
    if mem.len() == 0 {
        0
    } else {
        mem[offset % mem.len()]
    }
}

/// The bytes of `raw` from `start` up to `start + len`.
fn copy_range(raw: &Vec<u8>, start: usize, len: usize) -> (out: Vec<u8>)
    requires
        start + len <= raw.len(),
    ensures
        out@ == raw@.subrange(start as int, start + len),
{
    let mut out: Vec<u8> = Vec::with_capacity(len);
    let mut i: usize = 0;
    while i < len
        invariant
            i <= len,
            start + len <= raw.len(),
            out@ == raw@.subrange(start as int, start + i),
        decreases len - i,
    {
        out.push(raw[start + i]);
        i += 1;
        assert(out@ =~= raw@.subrange(start as int, start + i));
    }
    out
}

impl Rom {
    /// Reads a cartridge from the bytes of an image.
    ///
    /// The image is refused, with the reason as the error, when it lacks the
    /// tag, when its header asks for version 2 of the format, and when it is
    /// shorter than the header, trainer and memory pages that it announces.
    /// Otherwise the cartridge holds the announced pages. Bytes behind them
    /// are ignored.
    pub fn new(raw: &Vec<u8>) -> (r: Result<Rom, String>)
        ensures
            match refusal(raw@) {
                Some(reason) => r is Err && r->Err_0@ == reason,
                None => r is Ok && r->Ok_0@ == cartridge(raw@),
            },
    {
        if raw.len() < 4 || raw[0] != 0x4E || raw[1] != 0x45 || raw[2] != 0x53 || raw[3] != 0x1A {
            return Err(NOT_INES.to_owned());
        }
        if raw.len() < 8 {
            return Err(TRUNCATED.to_owned());
        }
        let control_1 = raw[6];
        let control_2 = raw[7];
        let mapper = (control_2 & 0b1111_0000) | (control_1 >> 4);
        let ines_ver = (control_2 >> 2) & 0b11;
        let four_screen = control_1 & 0b0000_1000 != 0;
        let vertical_mirroring = control_1 & 0b0000_0001 != 0;
        let skip_trainer = control_1 & 0b0000_0100 != 0;
        assert(mapper == (control_2 as int / 16) * 16 + control_1 as int / 16) by (bit_vector)
            requires
                mapper == (control_2 & 0b1111_0000) | (control_1 >> 4),
        ;
        assert(ines_ver == (control_2 as int / 4) % 4) by (bit_vector)
            requires
                ines_ver == (control_2 >> 2) & 0b11,
        ;
        assert({
            &&& four_screen == ((control_1 as int / 8) % 2 == 1)
            &&& vertical_mirroring == (control_1 as int % 2 == 1)
            &&& skip_trainer == ((control_1 as int / 4) % 2 == 1)
        }) by (bit_vector)
            requires
                four_screen == (control_1 & 0b0000_1000 != 0),
                vertical_mirroring == (control_1 & 0b0000_0001 != 0),
                skip_trainer == (control_1 & 0b0000_0100 != 0),
        ;
        if ines_ver != 0 {
            return Err(INES2_UNSUPPORTED.to_owned());
        }
        let screen_mirroring = if four_screen {
            Mirroring::FourScreen
        } else if vertical_mirroring {
            Mirroring::Vertical
        } else {
            Mirroring::Horizontal
        };
        let prg_rom_size = raw[4] as usize * PRG_ROM_PAGE_SIZE;
        let chr_rom_size = raw[5] as usize * CHR_ROM_PAGE_SIZE;
        let prg_rom_start = HEADER_SIZE + if skip_trainer {
            TRAINER_SIZE
        } else {
            0
        };
        let chr_rom_start = prg_rom_start + prg_rom_size;
        if raw.len() < chr_rom_start + chr_rom_size {
            return Err(TRUNCATED.to_owned());
        }
        Ok(
            Rom {
                prg_rom: copy_range(raw, prg_rom_start, prg_rom_size),
                chr_rom: copy_range(raw, chr_rom_start, chr_rom_size),
                mapper,
                screen_mirroring,
            },
        )
    }
}

} // verus!
