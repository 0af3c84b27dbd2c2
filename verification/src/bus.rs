//! The bus: what the processor sees at each of its 65536 addresses.
//!
//! | Addresses     | Behind them                                        |
//! |---------------|----------------------------------------------------|
//! | `$0000-$1FFF` | two kilobytes of memory, repeated four times       |
//! | `$2000-$3FFF` | the eight picture processor registers, repeated    |
//! | `$4014`       | the sprite memory transfer register                |
//! | `$8000-$FFFF` | the cartridge's program memory, repeated to fit    |
//!
//! Nothing is mapped anywhere else: reads return zero and writes are lost.
//!
//! An access that the hardware does not allow does not stop the caller. It
//! reads as zero or stores nothing, and the bus keeps the first such access
//! as its fault, which the processor's run loop takes as its cue to stop.

use crate::MemAccess;
use crate::Mirroring;
use crate::bits::{high, low, word, zeros};
use crate::ppu::addr_register::latch_write;
use crate::ppu::{data_port_read, data_port_write, power_on, PpuModel, PPU};
use crate::rom::{mirrored_byte, read_mirrored, Rom, RomModel};
use vstd::prelude::*;

verus! {

/// Bytes of memory inside the console.
pub const RAM_SIZE: u16 = 0x0800;

/// First address of the picture processor's registers.
pub const PPU_START: u16 = 0x2000;

/// First address behind the picture processor's registers.
pub const PPU_END: u16 = 0x4000;

/// First address of program memory.
pub const ROM_START: u16 = 0x8000;

/// The control register, write-only.
pub const PPU_CONTROL: u16 = 0x2000;

/// The mask register, write-only.
pub const PPU_MASK: u16 = 0x2001;

/// The status register, read-only.
pub const PPU_STATUS: u16 = 0x2002;

/// The sprite memory address register, write-only.
pub const OAM_ADDRESS: u16 = 0x2003;

/// The sprite memory data register.
pub const OAM_DATA: u16 = 0x2004;

/// The scroll register, write-only.
pub const PPU_SCROLL: u16 = 0x2005;

/// The address latch, write-only.
pub const PPU_ADDRESS: u16 = 0x2006;

/// The data port.
pub const PPU_DATA: u16 = 0x2007;

/// The sprite memory transfer register, write-only.
pub const OAM_DMA: u16 = 0x4014;

/// An access that the hardware does not allow, with the address it went to.
/// For the repeated picture processor registers this is the register's own
/// address, `$2000-$2007`.
#[derive(Clone, Copy, Debug, PartialEq, Eq, Structural)]
pub enum Fault {
    /// A read of a write-only register, or of the data port while the latch
    /// points into the unused range of the picture processor.
    IllegalRead(u16),
    /// A write to a read-only register, to read-only program memory, or to
    /// the data port while the latch points at something that stores nothing.
    IllegalWrite(u16),
}

/// What the bus holds.
pub struct BusModel {
    pub ram: Seq<u8>,
    pub rom: RomModel,
    pub prg_writable: bool,
    pub ppu: PpuModel,
    pub fault: Option<Fault>,
}

/// The sizes that the memories of every bus have.
pub open spec fn well_formed(b: BusModel) -> bool {
    &&& b.ram.len() == RAM_SIZE
    &&& b.ppu.vram.len() == 2048
    &&& b.ppu.palette.len() == 32
    &&& b.ppu.oam.len() == 256
}

/// A bus just built around `rom`.
pub open spec fn power_on_bus(rom: RomModel, prg_writable: bool) -> BusModel {
    BusModel {
        ram: zeros(RAM_SIZE as nat),
        rom,
        prg_writable,
        ppu: power_on(rom.chr, rom.mirroring),
        fault: None,
    }
}

/// The cartridge of an empty bus: 32 kilobytes of program memory and one
/// kilobyte of pattern memory, all zero.
pub open spec fn blank_cartridge() -> RomModel {
    RomModel { prg: zeros(0x8000), chr: zeros(1024), mapper: 0, mirroring: Mirroring::Horizontal }
}

/// `b` with `f` as its fault, unless it already has one.
pub open spec fn raise(b: BusModel, f: Fault) -> BusModel {
    BusModel {
        fault: if b.fault is None {
            Some(f)
        } else {
            b.fault
        },
        ..b
    }
}

/// The register that an address in `$2000-$3FFF` selects.
pub open spec fn register_of(addr: u16) -> u16 {
    (PPU_START + addr % 8) as u16
}

/// A read of `addr`: the bus afterwards, and the byte read.
#[verifier::opaque]
pub open spec fn bus_read(b: BusModel, addr: u16) -> (BusModel, u8) {
    if addr < PPU_START {
        (b, b.ram[(addr % RAM_SIZE) as int])
    } else if addr < PPU_END {
        let reg = register_of(addr);
        if reg == PPU_DATA {
            let (ppu, value) = data_port_read(b.ppu);
            let after = BusModel { ppu, ..b };
            match value {
                Some(v) => (after, v),
                None => (raise(after, Fault::IllegalRead(reg)), 0),
            }
        } else if reg == PPU_STATUS || reg == OAM_DATA {
            (b, 0)
        } else {
            (raise(b, Fault::IllegalRead(reg)), 0)
        }
    } else if addr == OAM_DMA {
        (raise(b, Fault::IllegalRead(addr)), 0)
    } else if addr < ROM_START {
        (b, 0)
    } else {
        (b, mirrored_byte(b.rom.prg, addr - ROM_START))
    }
}

/// What a read of `addr` would return. Nothing is read, and nothing changes.
pub open spec fn peek(b: BusModel, addr: u16) -> u8 {
    bus_read(b, addr).1
}

/// The bus after `data` is written to `addr`.
#[verifier::opaque]
pub open spec fn bus_write(b: BusModel, addr: u16, data: u8) -> BusModel {
    if addr < PPU_START {
        BusModel { ram: b.ram.update((addr % RAM_SIZE) as int, data), ..b }
    } else if addr < PPU_END {
        let reg = register_of(addr);
        if reg == PPU_CONTROL {
            BusModel { ppu: PpuModel { control: data, ..b.ppu }, ..b }
        } else if reg == PPU_STATUS {
            raise(b, Fault::IllegalWrite(reg))
        } else if reg == PPU_ADDRESS {
            BusModel { ppu: PpuModel { latch: latch_write(b.ppu.latch, data), ..b.ppu }, ..b }
        } else if reg == PPU_DATA {
            let (ppu, stored) = data_port_write(b.ppu, data);
            let after = BusModel { ppu, ..b };
            if stored {
                after
            } else {
                raise(after, Fault::IllegalWrite(reg))
            }
        } else {
            b
        }
    } else if addr < ROM_START {
        b
    } else if !b.prg_writable {
        raise(b, Fault::IllegalWrite(addr))
    } else if b.rom.prg.len() == 0 {
        b
    } else {
        BusModel {
            rom: RomModel {
                prg: b.rom.prg.update((addr - ROM_START) % (b.rom.prg.len() as int), data),
                ..b.rom
            },
            ..b
        }
    }
}

/// A read of the little-endian word at `addr`: the low byte is read first,
/// the high byte from the next address, which after `$FFFF` is `$0000`.
pub open spec fn read_word(b: BusModel, addr: u16) -> (BusModel, u16) {
    let (b1, lo) = bus_read(b, addr);
    let (b2, hi) = bus_read(b1, addr.wrapping_add(1));
    (b2, word(lo, hi))
}

/// The bus after the little-endian word `data` is written at `addr`, low
/// byte first.
pub open spec fn write_word(b: BusModel, addr: u16, data: u16) -> BusModel {
    bus_write(bus_write(b, addr, low(data)), addr.wrapping_add(1), high(data))
}

/// The bus after the bytes of `bytes` are written to successive addresses
/// from `start` on, wrapping after `$FFFF`.
pub open spec fn write_bytes(b: BusModel, start: u16, bytes: Seq<u8>) -> BusModel
    decreases bytes.len(),
{
    if bytes.len() == 0 {
        b
    } else {
        write_bytes(bus_write(b, start, bytes[0]), start.wrapping_add(1), bytes.drop_first())
    }
}

/// The console's memory, the cartridge and the picture processor, and the
/// decoder that routes each access to one of them.
pub struct Bus {
    pub cpu_vram: [u8; 2048],
    pub rom: Rom,
    pub ppu: PPU,
    /// Whether writes to `$8000-$FFFF` change program memory. A bus with a
    /// cartridge treats them as faults; the empty bus, which serves as
    /// scratch memory for hand-written programs, stores them.
    pub prg_writable: bool,
    /// The first access that the hardware does not allow, if there was one.
    pub fault: Option<Fault>,
}

impl View for Bus {
    type V = BusModel;

    open spec fn view(&self) -> BusModel {
        BusModel {
            ram: self.cpu_vram@,
            rom: self.rom@,
            prg_writable: self.prg_writable,
            ppu: self.ppu@,
            fault: self.fault,
        }
    }
}

impl Bus {
    /// A bus around the cartridge `rom`, whose program memory is read-only.
    pub fn new(rom: Rom) -> (bus: Self)
        ensures
            bus@ == power_on_bus(rom@, false),
            well_formed(bus@),
    {
        let bus = Bus {
            cpu_vram: [0;2048],
            ppu: PPU::from_rom(&rom),
            rom,
            prg_writable: false,
            fault: None,
        };
        assert(bus@.ram =~= zeros(RAM_SIZE as nat));
        bus
    }

    /// A bus around a blank cartridge whose program memory can be written.
    pub fn empty() -> (bus: Self)
        ensures
            bus@ == power_on_bus(blank_cartridge(), true),
            well_formed(bus@),
    {
        let rom = Rom {
            prg_rom: vec![0u8; 0x8000],
            chr_rom: vec![0u8; 1024],
            mapper: 0x0,
            screen_mirroring: Mirroring::Horizontal,
        };
        assert(rom@.prg =~= zeros(0x8000));
        assert(rom@.chr =~= zeros(1024));
        let mut bus = Self::new(rom);
        bus.prg_writable = true;
        bus
    }

    /// Puts the cartridge `rom` in place of the present one, read-only. The
    /// picture processor keeps the pattern memory it was built with.
    pub fn load_rom(&mut self, rom: Rom)
        ensures
            final(self)@ == (BusModel { rom: rom@, prg_writable: false, ..old(self)@ }),
    {
        self.rom = rom;
        self.prg_writable = false;
    }

    /// The byte of program memory behind `addr`.
    pub fn read_prg_rom(&self, addr: u16) -> (value: u8)
        requires
            addr >= ROM_START,
        ensures
            value == mirrored_byte(self@.rom.prg, addr - ROM_START),
    {
        read_mirrored(&self.rom.prg_rom, (addr - ROM_START) as usize)
    }

    /// What a read of `addr` would return. Nothing is read: what a read would
    /// do to the bus, and the fault that it might be, do not happen.
    pub fn peek(&self, addr: u16) -> (value: u8)
        ensures
            value == peek(self@, addr),
    {
        reveal(bus_read);
        if addr < PPU_START {
            self.cpu_vram[(addr % RAM_SIZE) as usize]
        } else if addr < PPU_END {
            if addr % 8 == 7 {
                match self.ppu.peek_data() {
                    Some(v) => v,
                    None => 0,
                }
            } else {
                0
            }
        } else if addr < ROM_START {
            0
        } else {
            self.read_prg_rom(addr)
        }
    }

    /// The first access that the hardware does not allow, if there was one.
    pub fn fault(&self) -> (f: Option<Fault>)
        ensures
            f == self@.fault,
    {
        self.fault
    }

    /// Records `f` as the fault unless there is one already.
    fn raise(&mut self, f: Fault)
        ensures
            final(self)@ == raise(old(self)@, f),
    {
        if self.fault.is_none() {
            self.fault = Some(f);
        }
    }

    /// The memories of a bus have their fixed sizes.
    pub proof fn lemma_well_formed(&self)
        ensures
            well_formed(self@),
    {
    }
}

impl MemAccess for Bus {
    open spec fn memory(&self) -> BusModel {
        self@
    }

    fn mem_read(&mut self, addr: u16) -> (value: u8) {
        reveal(bus_read);
        if addr < PPU_START {
            let mapped_addr = addr & 0b0000_0111_1111_1111;
            assert(mapped_addr == addr % RAM_SIZE) by (bit_vector)
                requires
                    mapped_addr == addr & 0b0000_0111_1111_1111,
            ;
            self.cpu_vram[mapped_addr as usize]
        } else if addr < PPU_END {
            let reg = addr & 0b0010_0000_0000_0111;
            assert(reg == PPU_START + addr % 8) by (bit_vector)
                requires
                    reg == addr & 0b0010_0000_0000_0111,
                    PPU_START <= addr < PPU_END,
            ;
            if reg == PPU_DATA {
                match self.ppu.read_data() {
                    Some(v) => v,
                    None => {
                        self.raise(Fault::IllegalRead(reg));
                        0
                    },
                }
            } else if reg == PPU_STATUS || reg == OAM_DATA {
                0
            } else {
                self.raise(Fault::IllegalRead(reg));
                0
            }
        } else if addr == OAM_DMA {
            self.raise(Fault::IllegalRead(addr));
            0
        } else if addr < ROM_START {
            0
        } else {
            self.read_prg_rom(addr)
        }
    }

    fn mem_write(&mut self, addr: u16, data: u8) {
        reveal(bus_write);
        if addr < PPU_START {
            let mapped_addr = addr & 0b0000_0111_1111_1111;
            assert(mapped_addr == addr % RAM_SIZE) by (bit_vector)
                requires
                    mapped_addr == addr & 0b0000_0111_1111_1111,
            ;
            self.cpu_vram[mapped_addr as usize] = data;
        } else if addr < PPU_END {
            let reg = addr & 0b0010_0000_0000_0111;
            assert(reg == PPU_START + addr % 8) by (bit_vector)
                requires
                    reg == addr & 0b0010_0000_0000_0111,
                    PPU_START <= addr < PPU_END,
            ;
            if reg == PPU_CONTROL {
                self.ppu.write_to_control_register(data);
            } else if reg == PPU_STATUS {
                self.raise(Fault::IllegalWrite(reg));
            } else if reg == PPU_ADDRESS {
                self.ppu.write_to_ppu_addr(data);
            } else if reg == PPU_DATA {
                let stored = self.ppu.write_to_ppu_data(data);
                if !stored {
                    self.raise(Fault::IllegalWrite(reg));
                }
            }
        } else if addr < ROM_START {
        } else if !self.prg_writable {
            self.raise(Fault::IllegalWrite(addr));
        } else if self.rom.prg_rom.len() != 0 {
            let index = (addr - ROM_START) as usize % self.rom.prg_rom.len();
            self.rom.prg_rom[index] = data;
        }
    }
}

/// The console's memory repeats: an address below `$2000` reads and writes
/// the same cell as the address made of its low eleven bits.
pub proof fn lemma_ram_mirrors(b: BusModel, addr: u16, data: u8)
    requires
        addr < PPU_START,
    ensures
        bus_read(b, addr) == bus_read(b, addr & 0x07FF),
        bus_write(b, addr, data) == bus_write(b, addr & 0x07FF, data),
{
    reveal(bus_read);
    reveal(bus_write);
    let low = addr & 0x07FF;
    assert(low == addr % RAM_SIZE) by (bit_vector)
        requires
            low == addr & 0x07FF,
    ;
}

/// The picture processor's registers repeat: an address from `$2008` up to
/// `$3FFF` reads and writes as the register that its low three bits select.
pub proof fn lemma_registers_mirror(b: BusModel, addr: u16, data: u8)
    requires
        0x2008 <= addr < PPU_END,
    ensures
        bus_read(b, addr) == bus_read(b, 0x2000 | (addr & 0x0007)),
        bus_write(b, addr, data) == bus_write(b, 0x2000 | (addr & 0x0007), data),
{
    reveal(bus_read);
    reveal(bus_write);
    let reg = 0x2000 | (addr & 0x0007);
    assert(reg == PPU_START + addr % 8 && PPU_START <= reg < PPU_END) by (bit_vector)
        requires
            reg == 0x2000 | (addr & 0x0007),
    ;
}

/// A read of the console's memory changes nothing and returns the cell.
pub proof fn lemma_ram_read(b: BusModel, addr: u16)
    requires
        addr < PPU_START,
    ensures
        bus_read(b, addr) == (b, b.ram[(addr % RAM_SIZE) as int]),
{
    reveal(bus_read);
}

/// A write to the console's memory changes the cell and nothing else.
pub proof fn lemma_ram_write(b: BusModel, addr: u16, data: u8)
    requires
        addr < PPU_START,
    ensures
        bus_write(b, addr, data) == (BusModel {
            ram: b.ram.update((addr % RAM_SIZE) as int, data),
            ..b
        }),
{
    reveal(bus_write);
}

/// A read of program memory changes nothing.
pub proof fn lemma_rom_read(b: BusModel, addr: u16)
    requires
        addr >= ROM_START,
    ensures
        bus_read(b, addr) == (b, mirrored_byte(b.rom.prg, addr - ROM_START)),
{
    reveal(bus_read);
}

/// A word written to the console's memory reads back as written: for every
/// address whose two bytes both lie below `$2000`, reading the word at the
/// address where it was just written returns it and changes nothing.
pub proof fn lemma_word_round_trip(b: BusModel, addr: u16, data: u16)
    requires
        well_formed(b),
        addr < PPU_START - 1,
    ensures
        read_word(write_word(b, addr, data), addr) == (write_word(b, addr, data), data),
{
    let next = addr.wrapping_add(1);
    let b1 = bus_write(b, addr, low(data));
    let b2 = bus_write(b1, next, high(data));
    lemma_ram_write(b, addr, low(data));
    lemma_ram_write(b1, next, high(data));
    lemma_ram_read(b2, addr);
    lemma_ram_read(b2, next);
    crate::bits::lemma_word_of_parts(data);
}

/// Nothing is mapped from `$4000` up to `$7FFF` but the sprite memory
/// transfer register: a word written there is lost, and reading it back
/// returns zero and changes nothing.
pub proof fn lemma_unmapped_word(b: BusModel, addr: u16, data: u16)
    requires
        PPU_END <= addr < ROM_START - 1,
        addr != OAM_DMA,
        addr + 1 != OAM_DMA,
    ensures
        write_word(b, addr, data) == b,
        read_word(b, addr) == (b, 0u16),
{
    reveal(bus_read);
    reveal(bus_write);
}

/// Memory is quiet: a read below `$2000` or from `$8000` on changes nothing.
pub open spec fn quiet(addr: u16) -> bool {
    addr < PPU_START || addr >= ROM_START
}

/// A read of quiet memory changes nothing and returns what a peek returns.
pub proof fn lemma_quiet_read(b: BusModel, addr: u16)
    requires
        quiet(addr),
    ensures
        bus_read(b, addr) == (b, peek(b, addr)),
{
    reveal(bus_read);
}

} // verus!
