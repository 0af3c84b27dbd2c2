//! The logical instructions, and the shifts and rotates that work on the
//! accumulator or on memory.

use crate::bits::{
    has_flag, is_negative, is_odd, lemma_with_flag, rol1, ror1, rotate_left, rotate_right,
    shift_left, shift_right, shl1, shr1, with_flag,
};
use super::addressing_modes::{locate, operand, store, AddressingMode};
use super::opcodes::{suits, Mnemonic};
use super::status_flags::{
    lemma_carry_zero_negative, with_zero_negative, CARRY, NEGATIVE, OVERFLOW, ZERO,
};
use super::{Machine, CPU};
use vstd::prelude::*;

verus! {

/// `AND`: the accumulator becomes its bitwise and with the operand; Z and N
/// are taken from it.
pub open spec fn and(m: Machine, mode: AddressingMode) -> Machine {
    let found = operand(m, mode);
    let result = m.a & found.value;
    Machine { a: result, p: with_zero_negative(m.p, result), ..found.after }
}

/// `EOR`: the accumulator becomes its bitwise exclusive or with the operand;
/// Z and N are taken from it.
pub open spec fn eor(m: Machine, mode: AddressingMode) -> Machine {
    let found = operand(m, mode);
    let result = m.a ^ found.value;
    Machine { a: result, p: with_zero_negative(m.p, result), ..found.after }
}

/// `ORA`: the accumulator becomes its bitwise or with the operand; Z and N
/// are taken from it.
pub open spec fn ora(m: Machine, mode: AddressingMode) -> Machine {
    let found = operand(m, mode);
    let result = m.a | found.value;
    Machine { a: result, p: with_zero_negative(m.p, result), ..found.after }
}

/// `p` after a bit test of the accumulator `a` against `value`: Z says
/// whether they share no bit, V is bit 6 of `value`, N is bit 7 of `value`.
pub open spec fn bit_tested(p: u8, a: u8, value: u8) -> u8 {
    with_flag(
        with_flag(with_flag(p, ZERO, value & a == 0), OVERFLOW, has_flag(value, OVERFLOW)),
        NEGATIVE,
        value >= 128,
    )
}

/// `BIT`: tests the operand against the accumulator, which it leaves alone.
pub open spec fn bit(m: Machine, mode: AddressingMode) -> Machine {
    let found = operand(m, mode);
    Machine { p: bit_tested(m.p, m.a, found.value), ..found.after }
}

/// The four ways to move the bits of a byte by one place.
#[derive(Clone, Copy, Debug, PartialEq, Eq, Structural)]
pub enum Shift {
    /// `ASL`: to the left, zero enters.
    Left,
    /// `LSR`: to the right, zero enters.
    Right,
    /// `ROL`: to the left, carry enters.
    RotateLeft,
    /// `ROR`: to the right, carry enters.
    RotateRight,
}

/// `value` moved as `op` says, with `carry` entering where the move takes
/// one in.
pub open spec fn shifted(op: Shift, value: u8, carry: bool) -> u8 {
    match op {
        Shift::Left => shl1(value),
        Shift::Right => shr1(value),
        Shift::RotateLeft => rol1(value, carry),
        Shift::RotateRight => ror1(value, carry),
    }
}

/// The bit of `value` that leaves when it is moved as `op` says: bit 7 to the
/// left, bit 0 to the right.
pub open spec fn shifted_out(op: Shift, value: u8) -> bool {
    match op {
        Shift::Left | Shift::RotateLeft => value >= 128,
        Shift::Right | Shift::RotateRight => value % 2 == 1,
    }
}

/// A shift or rotate: the target's value is moved by one place and stored
/// back, the bit that left becomes carry, and Z and N are taken from the
/// result.
pub open spec fn shift(m: Machine, mode: AddressingMode, op: Shift) -> Machine {
    let found = locate(m, mode);
    let result = shifted(op, found.value, m.carry());
    let stored = store(found.after, found.target, result);
    Machine {
        p: with_zero_negative(with_flag(m.p, CARRY, shifted_out(op, found.value)), result),
        ..stored
    }
}

/// `LSR`.
pub open spec fn lsr(m: Machine, mode: AddressingMode) -> Machine {
    shift(m, mode, Shift::Right)
}

/// `ROL`.
pub open spec fn rol(m: Machine, mode: AddressingMode) -> Machine {
    shift(m, mode, Shift::RotateLeft)
}

/// `ROR`.
pub open spec fn ror(m: Machine, mode: AddressingMode) -> Machine {
    shift(m, mode, Shift::RotateRight)
}

impl CPU {
    /// `AND`.
    pub fn and(&mut self, mode: &AddressingMode)
        requires
            mode.has_address(),
        ensures
            final(self)@ == and(old(self)@, *mode),
            final(self)@.zero() == (final(self)@.a == 0),
            final(self)@.negative() == (final(self)@.a >= 128),
    {
        let (_, param) = self.read_operand(mode);
        self.register_a = self.register_a & param;
        self.status.set_negative_and_zero_flag(self.register_a);
    }

    /// `BIT`.
    pub fn bit_test(&mut self, mode: &AddressingMode)
        requires
            mode.has_address(),
        ensures
            final(self)@ == bit(old(self)@, *mode),
            final(self)@.zero() == (operand(old(self)@, *mode).value & old(self)@.a == 0),
            final(self)@.overflow() == has_flag(operand(old(self)@, *mode).value, OVERFLOW),
            final(self)@.negative() == (operand(old(self)@, *mode).value >= 128),
    {
        let (_, param) = self.read_operand(mode);
        let result = param & self.register_a;
        proof {
            let start = self.status.0;
            let zero_set = with_flag(start, ZERO, result == 0);
            let overflow_set = with_flag(zero_set, OVERFLOW, has_flag(param, OVERFLOW));
            lemma_with_flag(start, ZERO, ZERO, result == 0);
            lemma_with_flag(zero_set, OVERFLOW, ZERO, has_flag(param, OVERFLOW));
            lemma_with_flag(zero_set, OVERFLOW, OVERFLOW, has_flag(param, OVERFLOW));
            lemma_with_flag(overflow_set, NEGATIVE, ZERO, param >= 128);
            lemma_with_flag(overflow_set, NEGATIVE, OVERFLOW, param >= 128);
            lemma_with_flag(overflow_set, NEGATIVE, NEGATIVE, param >= 128);
        }
        self.status.set_zero_flag(result);
        self.status.set_overflow_flag(param);
        self.status.set_negative_flag(param);
    }

    /// `EOR`.
    pub fn exclusive_or(&mut self, mode: &AddressingMode)
        requires
            mode.has_address(),
        ensures
            final(self)@ == eor(old(self)@, *mode),
            final(self)@.zero() == (final(self)@.a == 0),
            final(self)@.negative() == (final(self)@.a >= 128),
    {
        let (_, param) = self.read_operand(mode);
        let result = self.register_a ^ param;
        self.register_a = result;
        self.status.set_negative_and_zero_flag(result);
    }

    /// `ORA`.
    pub fn inclusive_or(&mut self, mode: &AddressingMode)
        requires
            mode.has_address(),
        ensures
            final(self)@ == ora(old(self)@, *mode),
            final(self)@.zero() == (final(self)@.a == 0),
            final(self)@.negative() == (final(self)@.a >= 128),
    {
        let (_, param) = self.read_operand(mode);
        self.register_a = self.register_a | param;
        self.status.set_negative_and_zero_flag(self.register_a);
    }

    /// Moves the target's value by one place as `op` says and stores it
    /// back. Returns the value found and the value stored.
    pub fn perform_op_on_mem(&mut self, mode: &AddressingMode, op: Shift) -> (values: (u8, u8))
        requires
            mode.has_address() || *mode is Accumulator,
        ensures
            values.0 == locate(old(self)@, *mode).value,
            values.1 == shifted(op, values.0, old(self)@.carry()),
            final(self)@ == store(
                locate(old(self)@, *mode).after,
                locate(old(self)@, *mode).target,
                values.1,
            ),
    {
        let carry = self.status.is_carry_set();
        let (old_val, target) = self.get_val_and_mem_ptr(mode);
        let new_val = match op {
            Shift::Left => shift_left(old_val),
            Shift::Right => shift_right(old_val),
            Shift::RotateLeft => rotate_left(old_val, carry),
            Shift::RotateRight => rotate_right(old_val, carry),
        };
        self.write_target(target, new_val);
        (old_val, new_val)
    }

    /// Performs the shift or rotate `op` and sets the flags from it.
    pub fn shift_target(&mut self, mode: &AddressingMode, op: Shift)
        requires
            mode.has_address() || *mode is Accumulator,
        ensures
            final(self)@ == shift(old(self)@, *mode, op),
            final(self)@.carry() == shifted_out(op, locate(old(self)@, *mode).value),
            final(self)@.zero() == (shifted(
                op,
                locate(old(self)@, *mode).value,
                old(self)@.carry(),
            ) == 0),
            final(self)@.negative() == (shifted(
                op,
                locate(old(self)@, *mode).value,
                old(self)@.carry(),
            ) >= 128),
    {
        let (old_val, new_val) = self.perform_op_on_mem(mode, op);
        let carry_out = match op {
            Shift::Left | Shift::RotateLeft => is_negative(old_val),
            Shift::Right | Shift::RotateRight => is_odd(old_val),
        };
        proof {
            lemma_carry_zero_negative(self.status.0, carry_out, new_val);
        }
        self.status.set_carry_flag(carry_out);
        self.status.set_negative_and_zero_flag(new_val);
    }

    /// `LSR`.
    pub fn logical_shift_right(&mut self, mode: &AddressingMode)
        requires
            mode.has_address() || *mode is Accumulator,
        ensures
            final(self)@ == lsr(old(self)@, *mode),
            final(self)@.carry() == (locate(old(self)@, *mode).value % 2 == 1),
            final(self)@.zero() == (shr1(locate(old(self)@, *mode).value) == 0),
            !final(self)@.negative(),
    {
        self.shift_target(mode, Shift::Right);
    }

    /// `ROL`.
    pub fn rotate_left(&mut self, mode: &AddressingMode)
        requires
            mode.has_address() || *mode is Accumulator,
        ensures
            final(self)@ == rol(old(self)@, *mode),
            final(self)@.carry() == (locate(old(self)@, *mode).value >= 128),
            final(self)@.zero() == (rol1(locate(old(self)@, *mode).value, old(self)@.carry()) == 0),
            final(self)@.negative() == (rol1(locate(old(self)@, *mode).value, old(self)@.carry())
                >= 128),
    {
        self.shift_target(mode, Shift::RotateLeft);
    }

    /// `ROR`.
    pub fn rotate_right(&mut self, mode: &AddressingMode)
        requires
            mode.has_address() || *mode is Accumulator,
        ensures
            final(self)@ == ror(old(self)@, *mode),
            final(self)@.carry() == (locate(old(self)@, *mode).value % 2 == 1),
            final(self)@.zero() == (ror1(locate(old(self)@, *mode).value, old(self)@.carry()) == 0),
            final(self)@.negative() == old(self)@.carry(),
    {
        self.shift_target(mode, Shift::RotateRight);
    }
}

/// `m` after the logical instruction, shift or rotate `instruction`, before
/// the program counter moves on. Other instructions leave `m` as it is.
pub open spec fn logical(m: Machine, instruction: Mnemonic, mode: AddressingMode) -> Machine {
    match instruction {
        Mnemonic::And => and(m, mode),
        Mnemonic::Bit => bit(m, mode),
        Mnemonic::Eor => eor(m, mode),
        Mnemonic::Lsr => lsr(m, mode),
        Mnemonic::Ora => ora(m, mode),
        Mnemonic::Rol => rol(m, mode),
        Mnemonic::Ror => ror(m, mode),
        _ => m,
    }
}

impl CPU {
    /// Executes `instruction` if it is a logical instruction, a shift or a
    /// rotate other than `ASL`.
    pub fn execute_logical(&mut self, instruction: Mnemonic, mode: &AddressingMode)
        requires
            suits(instruction, *mode),
        ensures
            final(self)@ == logical(old(self)@, instruction, *mode),
    {
        match instruction {
            Mnemonic::And => {
                self.and(mode);
            },
            Mnemonic::Bit => {
                self.bit_test(mode);
            },
            Mnemonic::Eor => {
                self.exclusive_or(mode);
            },
            Mnemonic::Lsr => {
                self.logical_shift_right(mode);
            },
            Mnemonic::Ora => {
                self.inclusive_or(mode);
            },
            Mnemonic::Rol => {
                self.rotate_left(mode);
            },
            Mnemonic::Ror => {
                self.rotate_right(mode);
            },
            _ => {},
        }
    }
}

} // verus!
