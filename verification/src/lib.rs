//! A MOS 6502 core as found in the Nintendo Entertainment System: the
//! processor, the bus that maps its address space, the part of the picture
//! processor that the bus exposes, and the cartridge image format.

use vstd::prelude::*;

pub mod bits;
pub mod bus;
pub mod cpu;
pub mod ppu;
pub mod rom;
pub mod trace;

use bits::{high_byte, low_byte, make_word};
use bus::{bus_read, bus_write, read_word, write_word, BusModel};

verus! {

/// How the four logical nametables of the picture processor share its two
/// kilobytes of video memory.
#[derive(Clone, Copy, Debug, PartialEq, Eq, Structural)]
pub enum Mirroring {
    Vertical,
    Horizontal,
    FourScreen,
}

/// Access to the processor's address space, a byte or a little-endian word
/// at a time. Every access goes through the bus, so a read can change what
/// is behind it.
pub trait MemAccess {
    /// The bus behind this accessor.
    spec fn memory(&self) -> BusModel;

    /// Reads the byte at `addr`.
    fn mem_read(&mut self, addr: u16) -> (value: u8)
        ensures
            final(self).memory() == bus_read(old(self).memory(), addr).0,
            value == bus_read(old(self).memory(), addr).1,
    ;

    /// Writes `data` to `addr`.
    fn mem_write(&mut self, addr: u16, data: u8)
        ensures
            final(self).memory() == bus_write(old(self).memory(), addr, data),
    ;

    /// Reads the word whose low byte is at `addr` and whose high byte is at
    /// the address after it.
    fn mem_read_u16(&mut self, addr: u16) -> (value: u16)
        ensures
            final(self).memory() == read_word(old(self).memory(), addr).0,
            value == read_word(old(self).memory(), addr).1,
    {
        let lo = self.mem_read(addr);
        let hi = self.mem_read(addr.wrapping_add(1));
        make_word(lo, hi)
    }

    /// Writes the low byte of `data` to `addr` and its high byte to the
    /// address after it.
    fn mem_write_u16(&mut self, addr: u16, data: u16)
        ensures
            final(self).memory() == write_word(old(self).memory(), addr, data),
    {
        let lo = low_byte(data);
        let hi = high_byte(data);
        self.mem_write(addr, lo);
        self.mem_write(addr.wrapping_add(1), hi);
    }
}

} // verus!
