//! The unofficial instructions that read a cell of memory, change it, write
//! it back and then combine it with the accumulator.

use crate::MemAccess;
use crate::bits::{
    complement, invert, is_negative, is_odd, rol1, ror1, rotate_left, rotate_right, shift_left,
    shift_right, shl1, shr1, with_flag,
};
use crate::bus::bus_write;
use super::addressing_modes::{operand, AddressingMode};
use super::arithmetic_instructions::{accumulate, compared};
use super::opcodes::{suits, Mnemonic};
use super::status_flags::{lemma_carry_zero_negative, with_zero_negative, CARRY};
use super::{Machine, CPU};
use vstd::prelude::*;

verus! {

/// `m` after the operand was read and `result` written in its place.
pub open spec fn rewritten(m: Machine, mode: AddressingMode, result: u8) -> Machine {
    let found = operand(m, mode);
    Machine { bus: bus_write(found.after.bus, found.addr, result), ..found.after }
}

/// `DCP`: the operand minus one is written back, and the accumulator is
/// compared with it.
pub open spec fn dcp(m: Machine, mode: AddressingMode) -> Machine {
    let result = operand(m, mode).value.wrapping_sub(1);
    Machine { p: compared(m.p, m.a, result), ..rewritten(m, mode, result) }
}

/// `ISC`: the operand plus one is written back and subtracted, with the
/// borrow, from the accumulator.
pub open spec fn isc(m: Machine, mode: AddressingMode) -> Machine {
    let result = operand(m, mode).value.wrapping_add(1);
    accumulate(rewritten(m, mode, result), complement(result))
}

/// `SLO`: the operand shifted left is written back and or-ed into the
/// accumulator. Carry is the bit that left; Z and N are taken from the
/// accumulator.
pub open spec fn slo(m: Machine, mode: AddressingMode) -> Machine {
    let value = operand(m, mode).value;
    let result = shl1(value);
    let a = m.a | result;
    Machine {
        a,
        p: with_zero_negative(with_flag(m.p, CARRY, value >= 128), a),
        ..rewritten(m, mode, result)
    }
}

/// `SRE`: the operand shifted right is written back and exclusive-or-ed
/// into the accumulator. Carry is the bit that left; Z and N are taken from
/// the accumulator.
pub open spec fn sre(m: Machine, mode: AddressingMode) -> Machine {
    let value = operand(m, mode).value;
    let result = shr1(value);
    let a = m.a ^ result;
    Machine {
        a,
        p: with_zero_negative(with_flag(m.p, CARRY, value % 2 == 1), a),
        ..rewritten(m, mode, result)
    }
}

/// `RLA`: the operand rotated left through carry is written back and and-ed
/// into the accumulator. Carry is the bit that left; Z and N are taken from
/// the accumulator.
pub open spec fn rla(m: Machine, mode: AddressingMode) -> Machine {
    let value = operand(m, mode).value;
    let result = rol1(value, m.carry());
    let a = m.a & result;
    Machine {
        a,
        p: with_zero_negative(with_flag(m.p, CARRY, value >= 128), a),
        ..rewritten(m, mode, result)
    }
}

/// `RRA`: the operand rotated right through carry is written back; then it
/// is added to the accumulator, with the bit that left as the carry.
pub open spec fn rra(m: Machine, mode: AddressingMode) -> Machine {
    let value = operand(m, mode).value;
    let result = ror1(value, m.carry());
    let written = rewritten(m, mode, result);
    accumulate(Machine { p: with_flag(m.p, CARRY, value % 2 == 1), ..written }, result)
}

impl CPU {
    /// `DCP`.
    pub fn decrement_compare_a(&mut self, mode: &AddressingMode)
        requires
            mode.has_address(),
        ensures
            final(self)@ == dcp(old(self)@, *mode),
            final(self)@.carry() == (old(self)@.a >= operand(old(self)@, *mode).value.wrapping_sub(
                1,
            )),
            final(self)@.zero() == (old(self)@.a == operand(old(self)@, *mode).value.wrapping_sub(
                1,
            )),
    {
        let (addr, param) = self.read_operand(mode);
        let result = param.wrapping_sub(1);
        self.mem_write(addr, result);
        proof {
            lemma_carry_zero_negative(
                self.status.0,
                self.register_a >= result,
                self.register_a.wrapping_sub(result),
            );
        }
        self.status.set_carry_flag(self.register_a >= result);
        self.status.set_negative_and_zero_flag(self.register_a.wrapping_sub(result));
    }

    /// `ISC`.
    pub fn increment_subtract_carry(&mut self, mode: &AddressingMode)
        requires
            mode.has_address(),
        ensures
            final(self)@ == isc(old(self)@, *mode),
            final(self)@.zero() == (final(self)@.a == 0),
            final(self)@.negative() == (final(self)@.a >= 128),
    {
        let (addr, value) = self.read_operand(mode);
        let param = value.wrapping_add(1);
        self.mem_write(addr, param);
        self.add_to_accumulator(invert(param));
    }

    /// `SLO`.
    pub fn shift_left_or_a(&mut self, mode: &AddressingMode)
        requires
            mode.has_address(),
        ensures
            final(self)@ == slo(old(self)@, *mode),
            final(self)@.carry() == (operand(old(self)@, *mode).value >= 128),
            final(self)@.zero() == (final(self)@.a == 0),
            final(self)@.negative() == (final(self)@.a >= 128),
    {
        let (addr, val) = self.read_operand(mode);
        let shifted = shift_left(val);
        let ored = self.register_a | shifted;
        self.mem_write(addr, shifted);
        self.register_a = ored;
        proof {
            lemma_carry_zero_negative(self.status.0, val >= 128, ored);
        }
        self.status.set_carry_flag(is_negative(val));
        self.status.set_negative_and_zero_flag(ored);
    }

    /// `SRE`.
    pub fn shift_right_eor_a(&mut self, mode: &AddressingMode)
        requires
            mode.has_address(),
        ensures
            final(self)@ == sre(old(self)@, *mode),
            final(self)@.carry() == (operand(old(self)@, *mode).value % 2 == 1),
            final(self)@.zero() == (final(self)@.a == 0),
            final(self)@.negative() == (final(self)@.a >= 128),
    {
        let (addr, val) = self.read_operand(mode);
        let shifted = shift_right(val);
        let eored = self.register_a ^ shifted;
        self.mem_write(addr, shifted);
        self.register_a = eored;
        proof {
            lemma_carry_zero_negative(self.status.0, val % 2 == 1, eored);
        }
        self.status.set_carry_flag(is_odd(val));
        self.status.set_negative_and_zero_flag(eored);
    }

    /// `RLA`.
    pub fn rotate_left_and_a(&mut self, mode: &AddressingMode)
        requires
            mode.has_address(),
        ensures
            final(self)@ == rla(old(self)@, *mode),
            final(self)@.carry() == (operand(old(self)@, *mode).value >= 128),
            final(self)@.zero() == (final(self)@.a == 0),
            final(self)@.negative() == (final(self)@.a >= 128),
    {
        let (addr, val) = self.read_operand(mode);
        let shifted = rotate_left(val, self.status.is_carry_set());
        let anded = self.register_a & shifted;
        self.mem_write(addr, shifted);
        self.register_a = anded;
        proof {
            lemma_carry_zero_negative(self.status.0, val >= 128, anded);
        }
        self.status.set_carry_flag(is_negative(val));
        self.status.set_negative_and_zero_flag(anded);
    }

    /// `RRA`.
    pub fn rotate_right_add_a(&mut self, mode: &AddressingMode)
        requires
            mode.has_address(),
        ensures
            final(self)@ == rra(old(self)@, *mode),
            final(self)@.zero() == (final(self)@.a == 0),
            final(self)@.negative() == (final(self)@.a >= 128),
    {
        let (addr, val) = self.read_operand(mode);
        let shifted = rotate_right(val, self.status.is_carry_set());
        self.status.set_carry_flag(is_odd(val));
        self.mem_write(addr, shifted);
        self.add_to_accumulator(shifted);
    }
}

/// `m` after the unofficial read-modify-write instruction `instruction`,
/// before the program counter moves on. Other instructions leave `m` as it
/// is.
pub open spec fn combined(m: Machine, instruction: Mnemonic, mode: AddressingMode) -> Machine {
    match instruction {
        Mnemonic::Dcp => dcp(m, mode),
        Mnemonic::Isc => isc(m, mode),
        Mnemonic::Rla => rla(m, mode),
        Mnemonic::Rra => rra(m, mode),
        Mnemonic::Slo => slo(m, mode),
        Mnemonic::Sre => sre(m, mode),
        _ => m,
    }
}

impl CPU {
    /// Executes `instruction` if it is an unofficial read-modify-write
    /// instruction.
    pub fn execute_combined(&mut self, instruction: Mnemonic, mode: &AddressingMode)
        requires
            suits(instruction, *mode),
        ensures
            final(self)@ == combined(old(self)@, instruction, *mode),
    {
        match instruction {
            Mnemonic::Dcp => {
                self.decrement_compare_a(mode);
            },
            Mnemonic::Isc => {
                self.increment_subtract_carry(mode);
            },
            Mnemonic::Rla => {
                self.rotate_left_and_a(mode);
            },
            Mnemonic::Rra => {
                self.rotate_right_add_a(mode);
            },
            Mnemonic::Slo => {
                self.shift_left_or_a(mode);
            },
            Mnemonic::Sre => {
                self.shift_right_eor_a(mode);
            },
            _ => {},
        }
    }
}

} // verus!
