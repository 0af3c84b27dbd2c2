//! The picture processor, as far as the bus reaches into it: the control
//! register, the address latch and the buffered data port.
//!
//! Its address space has 14 bits. `$0000-$1FFF` is the cartridge's pattern
//! memory, `$2000-$2FFF` the four nametables, which share two kilobytes of
//! video memory, `$3000-$3EFF` is not used, and `$3F00-$3FFF` is the palette,
//! whose 32 entries repeat.

use crate::Mirroring;
use crate::bits::zeros;
use crate::rom::{mirrored_byte, read_mirrored, Rom};
use vstd::prelude::*;

pub mod addr_register;
pub mod control_register;

use addr_register::{latch_advance, AddrLatch, AddrRegister};
use control_register::{vram_increment, ControlRegister};

verus! {

/// First address of the nametables.
pub const NAMETABLES_START: u16 = 0x2000;

/// First address of the unused range.
pub const UNUSED_START: u16 = 0x3000;

/// First address of the palette.
pub const PALETTE_START: u16 = 0x3F00;

/// What the picture processor holds.
pub struct PpuModel {
    pub chr: Seq<u8>,
    pub palette: Seq<u8>,
    pub vram: Seq<u8>,
    pub oam: Seq<u8>,
    pub mirroring: Mirroring,
    pub latch: AddrLatch,
    pub control: u8,
    pub buffer: u8,
}

/// A picture processor just built around pattern memory `chr`: every memory
/// zero, the latch at zero and expecting a high byte, the buffer empty.
pub open spec fn power_on(chr: Seq<u8>, mirroring: Mirroring) -> PpuModel {
    PpuModel {
        chr,
        palette: zeros(32),
        vram: zeros(2048),
        oam: zeros(256),
        mirroring,
        latch: AddrLatch { address: 0, high_next: true },
        control: 0,
        buffer: 0,
    }
}

/// The cell of video memory behind the nametable address `addr`.
///
/// The address selects one of four tables of 1024 cells; the arrangement
/// decides which of the two banks of video memory a table lives in. Tables
/// 0 and 1 share the first bank under horizontal mirroring, tables 0 and 2
/// under vertical mirroring. Four screens do not fit into two banks: table 0
/// keeps the first, the other three share the second.
pub open spec fn nametable_cell(mirroring: Mirroring, addr: u16) -> int {
    let index = addr as int % 0x1000;
    let table = index / 0x400;
    let bank = match mirroring {
        Mirroring::Horizontal => table / 2,
        Mirroring::Vertical => table % 2,
        Mirroring::FourScreen => if table == 0 {
            0
        } else {
            1
        },
    };
    bank * 0x400 + index % 0x400
}

/// The palette entry behind the palette address `addr`.
pub open spec fn palette_entry(addr: u16) -> int {
    (addr - PALETTE_START) % 32
}

/// `p` after its latch moved on by the step that the control byte selects.
pub open spec fn advanced(p: PpuModel) -> PpuModel {
    PpuModel { latch: latch_advance(p.latch, vram_increment(p.control)), ..p }
}

/// A read of the data port: the processor afterwards, and the byte read, or
/// `None` where the latch points into the unused range.
///
/// The latch moves on in every case. A read of pattern memory or of a
/// nametable returns what the buffer held and refills the buffer from the
/// address read; a read of the palette returns the entry at once and leaves
/// the buffer alone.
pub open spec fn data_port_read(p: PpuModel) -> (PpuModel, Option<u8>) {
    let addr = p.latch.address;
    if addr < NAMETABLES_START {
        (PpuModel { buffer: mirrored_byte(p.chr, addr as int), ..advanced(p) }, Some(p.buffer))
    } else if addr < UNUSED_START {
        (
            PpuModel { buffer: p.vram[nametable_cell(p.mirroring, addr)], ..advanced(p) },
            Some(p.buffer),
        )
    } else if PALETTE_START <= addr < 0x4000 {
        (advanced(p), Some(p.palette[palette_entry(addr)]))
    } else {
        (advanced(p), None)
    }
}

/// A write of `value` to the data port: the processor afterwards, and whether
/// the byte was stored.
///
/// The latch moves on in every case. Nametables and palette take the byte;
/// pattern memory is read-only and the unused range holds nothing.
pub open spec fn data_port_write(p: PpuModel, value: u8) -> (PpuModel, bool) {
    let addr = p.latch.address;
    if NAMETABLES_START <= addr < UNUSED_START {
        (
            PpuModel {
                vram: p.vram.update(nametable_cell(p.mirroring, addr), value),
                ..advanced(p)
            },
            true,
        )
    } else if PALETTE_START <= addr < 0x4000 {
        (PpuModel { palette: p.palette.update(palette_entry(addr), value), ..advanced(p) }, true)
    } else {
        (advanced(p), false)
    }
}

/// The picture processor's memories and the registers that the bus reaches.
pub struct PPU {
    pub chr_rom: Vec<u8>,
    pub palette_table: [u8; 32],
    pub vram: [u8; 2048],
    pub oam_data: [u8; 256],
    pub mirroring: Mirroring,
    pub addr_register: AddrRegister,
    pub control_register: ControlRegister,
    pub internal_data_buffer: u8,
}

impl View for PPU {
    type V = PpuModel;

    open spec fn view(&self) -> PpuModel {
        PpuModel {
            chr: self.chr_rom@,
            palette: self.palette_table@,
            vram: self.vram@,
            oam: self.oam_data@,
            mirroring: self.mirroring,
            latch: self.addr_register@,
            control: self.control_register.0,
            buffer: self.internal_data_buffer,
        }
    }
}

impl PPU {
    /// A picture processor around the pattern memory and nametable
    /// arrangement of `rom`.
    pub fn from_rom(rom: &Rom) -> (ppu: Self)
        ensures
            ppu@ == power_on(rom.chr_rom@, rom.screen_mirroring),
    {
        let ppu = PPU {
            chr_rom: rom.chr_rom.clone(),
            mirroring: rom.screen_mirroring,
            vram: [0;2048],
            oam_data: [0;256],
            palette_table: [0;32],
            addr_register: AddrRegister::new(),
            control_register: ControlRegister::new(),
            internal_data_buffer: 0,
        };
        assert(ppu@.chr =~= rom.chr_rom@);
        assert(ppu@.vram =~= zeros(2048));
        assert(ppu@.oam =~= zeros(256));
        assert(ppu@.palette =~= zeros(32));
        ppu
    }

    /// Takes one byte written to `$2006` into the address latch.
    pub fn write_to_ppu_addr(&mut self, addr: u8)
        ensures
            final(self)@ == (PpuModel {
                latch: addr_register::latch_write(old(self)@.latch, addr),
                ..old(self)@
            }),
    {
        self.addr_register.update(addr);
    }

    /// Replaces the control byte, as a write to `$2000` does.
    pub fn write_to_control_register(&mut self, value: u8)
        ensures
            final(self)@ == (PpuModel { control: value, ..old(self)@ }),
    {
        self.control_register.update(value);
    }

    /// Moves the latch on by the step that the control byte selects.
    fn increment_vram_addr(&mut self)
        ensures
            final(self)@ == advanced(old(self)@),
    {
        let increment_amount = self.control_register.get_vram_increment_size();
        self.addr_register.increment(increment_amount);
    }

    /// Reads the data port, `$2007`.
    ///
    /// Returns `None`, with the latch moved on and nothing else changed,
    /// exactly when the latch pointed into `$3000-$3EFF`.
    pub fn read_data(&mut self) -> (r: Option<u8>)
        ensures
            final(self)@ == data_port_read(old(self)@).0,
            r == data_port_read(old(self)@).1,
            r is None <==> UNUSED_START <= old(self)@.latch.address < PALETTE_START,
    {
        let addr = self.addr_register.get();
        self.increment_vram_addr();
        if addr < NAMETABLES_START {
            let result = self.internal_data_buffer;
            self.internal_data_buffer = read_mirrored(&self.chr_rom, addr as usize);
            Some(result)
        } else if addr < UNUSED_START {
            let result = self.internal_data_buffer;
            let mirrored_addr = self.mirror_vram_addr(addr);
            self.internal_data_buffer = self.vram[mirrored_addr as usize];
            Some(result)
        } else if addr < PALETTE_START {
            None
        } else {
            Some(self.palette_table[((addr - PALETTE_START) % 32) as usize])
        }
    }

    /// What a read of the data port would return, without reading it.
    pub fn peek_data(&self) -> (r: Option<u8>)
        ensures
            r == data_port_read(self@).1,
    {
        let addr = self.addr_register.get();
        if addr < UNUSED_START {
            Some(self.internal_data_buffer)
        } else if addr < PALETTE_START {
            None
        } else {
            Some(self.palette_table[((addr - PALETTE_START) % 32) as usize])
        }
    }

    /// Writes `value` to the data port, `$2007`.
    ///
    /// Returns whether the byte was stored: it is not, with the latch moved
    /// on and nothing else changed, exactly when the latch pointed into
    /// pattern memory or into `$3000-$3EFF`.
    pub fn write_to_ppu_data(&mut self, value: u8) -> (stored: bool)
        ensures
            final(self)@ == data_port_write(old(self)@, value).0,
            stored == data_port_write(old(self)@, value).1,
            stored <==> (NAMETABLES_START <= old(self)@.latch.address < UNUSED_START
                || PALETTE_START <= old(self)@.latch.address),
    {
        let addr = self.addr_register.get();
        self.increment_vram_addr();
        if addr < NAMETABLES_START {
            false
        } else if addr < UNUSED_START {
            let mirrored_addr = self.mirror_vram_addr(addr);
            self.vram[mirrored_addr as usize] = value;
            true
        } else if addr < PALETTE_START {
            false
        } else {
            self.palette_table[((addr - PALETTE_START) % 32) as usize] = value;
            true
        }
    }

    /// The cell of video memory behind the nametable address `addr`, under
    /// this processor's nametable arrangement.
    pub fn mirror_vram_addr(&self, addr: u16) -> (cell: u16)
        ensures
            cell == nametable_cell(self.mirroring, addr),
            cell < 2048,
    {
        let index = addr % 0x1000;
        let table = index / 0x400;
        let bank = match self.mirroring {
            Mirroring::Horizontal => table / 2,
            Mirroring::Vertical => table % 2,
            Mirroring::FourScreen => if table == 0 {
                0
            } else {
                1
            },
        };
        bank * 0x400 + index % 0x400
    }
}

/// The data port is buffered: with the latch at `$0100`, the first read of
/// the port returns what the buffer held before, and the second returns the
/// byte of pattern memory at `$0100`.
pub proof fn lemma_buffered_read(p: PpuModel)
    requires
        p.latch.address == 0x0100,
        p.chr.len() > 0x0100,
    ensures
        ({
            let (once, first) = data_port_read(p);
            let (twice, second) = data_port_read(once);
            &&& first == Some(p.buffer)
            &&& second == Some(p.chr[0x0100])
        }),
{
    vstd::arithmetic::div_mod::lemma_small_mod(0x0100, p.chr.len());
}

} // verus!
