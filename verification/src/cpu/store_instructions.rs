//! Stores to memory. No store changes a flag.

use crate::MemAccess;
use crate::bus::bus_write;
use super::addressing_modes::{operand_address, AddressingMode};
use super::opcodes::{suits, Mnemonic};
use super::{Machine, CPU};
use vstd::prelude::*;

verus! {

/// `m` after `value` is stored at the operand's address. The operand is not
/// read.
pub open spec fn stored(m: Machine, mode: AddressingMode, value: u8) -> Machine {
    let (bus, addr) = operand_address(m, mode);
    Machine { bus: bus_write(bus, addr, value), ..m }
}

/// `STA`: stores the accumulator.
pub open spec fn sta(m: Machine, mode: AddressingMode) -> Machine {
    stored(m, mode, m.a)
}

/// `STX`: stores X.
pub open spec fn stx(m: Machine, mode: AddressingMode) -> Machine {
    stored(m, mode, m.x)
}

/// `STY`: stores Y.
pub open spec fn sty(m: Machine, mode: AddressingMode) -> Machine {
    stored(m, mode, m.y)
}

/// `SAX`: stores the bitwise and of the accumulator and X.
pub open spec fn sax(m: Machine, mode: AddressingMode) -> Machine {
    stored(m, mode, m.a & m.x)
}

impl CPU {
    /// `STA`.
    pub fn store_register_a(&mut self, mode: &AddressingMode)
        requires
            mode.has_address(),
        ensures
            final(self)@ == sta(old(self)@, *mode),
    {
        let addr = self.get_operand_address(mode);
        self.mem_write(addr, self.register_a);
    }

    /// `STX`.
    pub fn store_register_x(&mut self, mode: &AddressingMode)
        requires
            mode.has_address(),
        ensures
            final(self)@ == stx(old(self)@, *mode),
    {
        let addr = self.get_operand_address(mode);
        self.mem_write(addr, self.register_x);
    }

    /// `STY`.
    pub fn store_register_y(&mut self, mode: &AddressingMode)
        requires
            mode.has_address(),
        ensures
            final(self)@ == sty(old(self)@, *mode),
    {
        let addr = self.get_operand_address(mode);
        self.mem_write(addr, self.register_y);
    }

    /// `SAX`.
    pub fn store_a_anded_x(&mut self, mode: &AddressingMode)
        requires
            mode.has_address(),
        ensures
            final(self)@ == sax(old(self)@, *mode),
    {
        let addr = self.get_operand_address(mode);
        let val = self.register_a & self.register_x;
        self.mem_write(addr, val);
    }
}

/// `m` after the store `instruction`, before the program counter moves on.
/// Other instructions leave `m` as it is.
pub open spec fn store_register(
    m: Machine,
    instruction: Mnemonic,
    mode: AddressingMode,
) -> Machine {
    match instruction {
        Mnemonic::Sax => sax(m, mode),
        Mnemonic::Sta => sta(m, mode),
        Mnemonic::Stx => stx(m, mode),
        Mnemonic::Sty => sty(m, mode),
        _ => m,
    }
}

impl CPU {
    /// Executes `instruction` if it is a store.
    pub fn execute_store(&mut self, instruction: Mnemonic, mode: &AddressingMode)
        requires
            suits(instruction, *mode),
        ensures
            final(self)@ == store_register(old(self)@, instruction, *mode),
    {
        match instruction {
            Mnemonic::Sax => {
                self.store_a_anded_x(mode);
            },
            Mnemonic::Sta => {
                self.store_register_a(mode);
            },
            Mnemonic::Stx => {
                self.store_register_x(mode);
            },
            Mnemonic::Sty => {
                self.store_register_y(mode);
            },
            _ => {},
        }
    }
}

} // verus!
