//! Addition and subtraction with carry, increments and decrements, the
//! arithmetic shift and the comparisons.
//!
//! The decimal flag does not change the arithmetic: it is always binary.

use crate::MemAccess;
use crate::bits::{complement, has_flag, invert, lemma_with_flag, put_flag, shl1, with_flag};
use crate::bus::bus_write;
use super::addressing_modes::{locate, operand, AddressingMode};
use super::logical_instructions::{shift, Shift};
use super::opcodes::{suits, Mnemonic};
use super::status_flags::{
    lemma_carry_zero_negative, lemma_zero_negative, with_zero_negative, CARRY, OVERFLOW,
};
use super::{Machine, CPU};
use vstd::prelude::*;

verus! {

/// What the carry flag of `p` adds to a sum.
pub open spec fn carry_in(p: u8) -> int {
    if has_flag(p, CARRY) {
        1
    } else {
        0
    }
}

/// Whether the sum `r` of `a` and `v` has the wrong sign: whether `a` and `v`
/// both differ from it in bit 7.
pub open spec fn sign_overflow(a: u8, v: u8, r: u8) -> bool {
    (a ^ r) & (v ^ r) & 0x80 != 0
}

/// The sum of two bytes and a carry has the wrong sign exactly when the
/// sum of the two bytes read as signed numbers, and the carry, is not a
/// signed byte.
pub proof fn lemma_sign_overflow(a: u8, v: u8, c: u8)
    by (bit_vector)
    requires
        c == 0 || c == 1,
    ensures
        sign_overflow(a, v, ((a as int + v as int + c as int) % 256) as u8) == ({
            let signed_sum = (if a < 128 {
                a as int
            } else {
                a as int - 256
            }) + (if v < 128 {
                v as int
            } else {
                v as int - 256
            }) + c as int;
            signed_sum < -128 || signed_sum > 127
        }),
{
}

/// `m` after `v` and the carry are added to the accumulator. Carry says
/// whether the sum passed 255, V whether it has the wrong sign, and Z and N
/// are taken from the new accumulator.
pub open spec fn accumulate(m: Machine, v: u8) -> Machine {
    let sum = m.a + v + carry_in(m.p);
    let result = (sum % 256) as u8;
    Machine {
        a: result,
        p: with_zero_negative(
            with_flag(with_flag(m.p, CARRY, sum > 255), OVERFLOW, sign_overflow(m.a, v, result)),
            result,
        ),
        ..m
    }
}

/// The flags after an addition.
pub proof fn lemma_accumulate_flags(m: Machine, v: u8)
    ensures
        accumulate(m, v).a == (m.a + v + carry_in(m.p)) % 256,
        accumulate(m, v).carry() == (m.a + v + carry_in(m.p) > 255),
        accumulate(m, v).overflow() == sign_overflow(m.a, v, accumulate(m, v).a),
        accumulate(m, v).zero() == (accumulate(m, v).a == 0),
        accumulate(m, v).negative() == (accumulate(m, v).a >= 128),
{
    let sum = m.a + v + carry_in(m.p);
    let result = (sum % 256) as u8;
    let carry_set = with_flag(m.p, CARRY, sum > 255);
    let overflow_set = with_flag(carry_set, OVERFLOW, sign_overflow(m.a, v, result));
    lemma_with_flag(m.p, CARRY, CARRY, sum > 255);
    lemma_with_flag(carry_set, OVERFLOW, CARRY, sign_overflow(m.a, v, result));
    lemma_with_flag(carry_set, OVERFLOW, OVERFLOW, sign_overflow(m.a, v, result));
    lemma_zero_negative(overflow_set, result);
}

/// `ADC`: adds the operand and the carry to the accumulator.
pub open spec fn adc(m: Machine, mode: AddressingMode) -> Machine {
    let found = operand(m, mode);
    accumulate(found.after, found.value)
}

/// `SBC`: adds the one's complement of the operand and the carry to the
/// accumulator, which subtracts the operand and the borrow.
pub open spec fn sbc(m: Machine, mode: AddressingMode) -> Machine {
    let found = operand(m, mode);
    accumulate(found.after, complement(found.value))
}

/// `INX`: X plus one, modulo 256; Z and N are taken from it.
pub open spec fn inx(m: Machine) -> Machine {
    let result = m.x.wrapping_add(1);
    Machine { x: result, p: with_zero_negative(m.p, result), ..m }
}

/// `DEX`: X minus one, modulo 256; Z and N are taken from it.
pub open spec fn dex(m: Machine) -> Machine {
    let result = m.x.wrapping_sub(1);
    Machine { x: result, p: with_zero_negative(m.p, result), ..m }
}

/// `INY`: Y plus one, modulo 256; Z and N are taken from it.
pub open spec fn iny(m: Machine) -> Machine {
    let result = m.y.wrapping_add(1);
    Machine { y: result, p: with_zero_negative(m.p, result), ..m }
}

/// `DEY`: Y minus one, modulo 256; Z and N are taken from it.
pub open spec fn dey(m: Machine) -> Machine {
    let result = m.y.wrapping_sub(1);
    Machine { y: result, p: with_zero_negative(m.p, result), ..m }
}

/// `INC`: the operand plus one, modulo 256, is stored back; Z and N are
/// taken from it.
pub open spec fn inc(m: Machine, mode: AddressingMode) -> Machine {
    let found = operand(m, mode);
    let result = found.value.wrapping_add(1);
    Machine {
        bus: bus_write(found.after.bus, found.addr, result),
        p: with_zero_negative(m.p, result),
        ..found.after
    }
}

/// `DEC`: the operand minus one, modulo 256, is stored back; Z and N are
/// taken from it.
pub open spec fn dec(m: Machine, mode: AddressingMode) -> Machine {
    let found = operand(m, mode);
    let result = found.value.wrapping_sub(1);
    Machine {
        bus: bus_write(found.after.bus, found.addr, result),
        p: with_zero_negative(m.p, result),
        ..found.after
    }
}

/// `ASL`.
pub open spec fn asl(m: Machine, mode: AddressingMode) -> Machine {
    shift(m, mode, Shift::Left)
}

/// `p` after the register value `reg` is compared with `value`: carry says
/// whether `reg` is at least `value`, and Z and N are taken from their
/// difference modulo 256.
pub open spec fn compared(p: u8, reg: u8, value: u8) -> u8 {
    with_zero_negative(with_flag(p, CARRY, reg >= value), reg.wrapping_sub(value))
}

/// `CMP`, `CPX`, `CPY`: compares the register value `reg` with the operand.
pub open spec fn compare(m: Machine, mode: AddressingMode, reg: u8) -> Machine {
    let found = operand(m, mode);
    Machine { p: compared(m.p, reg, found.value), ..found.after }
}

impl CPU {
    /// Adds `value` and the carry to the accumulator.
    pub fn add_to_accumulator(&mut self, value: u8)
        ensures
            final(self)@ == accumulate(old(self)@, value),
            final(self)@.carry() == (old(self)@.a + value + carry_in(old(self)@.p) > 255),
            final(self)@.overflow() == sign_overflow(old(self)@.a, value, final(self)@.a),
            final(self)@.zero() == (final(self)@.a == 0),
            final(self)@.negative() == (final(self)@.a >= 128),
    {
        proof {
            lemma_accumulate_flags(self@, value);
        }
        let carry: u16 = if self.status.is_carry_set() {
            1
        } else {
            0
        };
        let result: u16 = (self.register_a as u16) + (value as u16) + carry;
        let normalized_result = (result % 256) as u8;
        let wrong_sign = (self.register_a ^ normalized_result) & (value ^ normalized_result) & 0x80
            != 0;
        self.register_a = normalized_result;
        self.status.set_carry_flag(result > 255);
        self.status.0 = put_flag(self.status.0, OVERFLOW, wrong_sign);
        self.status.set_negative_and_zero_flag(normalized_result);
    }

    /// `ADC`.
    pub fn add_with_carry(&mut self, mode: &AddressingMode)
        requires
            mode.has_address(),
        ensures
            final(self)@ == adc(old(self)@, *mode),
            final(self)@.carry() == (old(self)@.a + operand(old(self)@, *mode).value + carry_in(
                old(self)@.p,
            ) > 255),
            final(self)@.overflow() == sign_overflow(
                old(self)@.a,
                operand(old(self)@, *mode).value,
                final(self)@.a,
            ),
            final(self)@.zero() == (final(self)@.a == 0),
            final(self)@.negative() == (final(self)@.a >= 128),
    {
        let (_, param) = self.read_operand(mode);
        self.add_to_accumulator(param);
    }

    /// `SBC`.
    pub fn subtract_with_carry(&mut self, mode: &AddressingMode)
        requires
            mode.has_address(),
        ensures
            final(self)@ == sbc(old(self)@, *mode),
            final(self)@.carry() == (old(self)@.a + complement(operand(old(self)@, *mode).value)
                + carry_in(old(self)@.p) > 255),
            final(self)@.overflow() == sign_overflow(
                old(self)@.a,
                complement(operand(old(self)@, *mode).value),
                final(self)@.a,
            ),
            final(self)@.zero() == (final(self)@.a == 0),
            final(self)@.negative() == (final(self)@.a >= 128),
    {
        let (_, param) = self.read_operand(mode);
        self.add_to_accumulator(invert(param));
    }

    /// `INX`.
    pub fn increment_x(&mut self)
        ensures
            final(self)@ == inx(old(self)@),
            final(self)@.zero() == (final(self)@.x == 0),
            final(self)@.negative() == (final(self)@.x >= 128),
    {
        self.register_x = self.register_x.wrapping_add(1);
        self.status.set_negative_and_zero_flag(self.register_x);
    }

    /// `DEX`.
    pub fn decrement_x(&mut self)
        ensures
            final(self)@ == dex(old(self)@),
            final(self)@.zero() == (final(self)@.x == 0),
            final(self)@.negative() == (final(self)@.x >= 128),
    {
        self.register_x = self.register_x.wrapping_sub(1);
        self.status.set_negative_and_zero_flag(self.register_x);
    }

    /// `INY`.
    pub fn increment_y(&mut self)
        ensures
            final(self)@ == iny(old(self)@),
            final(self)@.zero() == (final(self)@.y == 0),
            final(self)@.negative() == (final(self)@.y >= 128),
    {
        self.register_y = self.register_y.wrapping_add(1);
        self.status.set_negative_and_zero_flag(self.register_y);
    }

    /// `DEY`.
    pub fn decrement_y(&mut self)
        ensures
            final(self)@ == dey(old(self)@),
            final(self)@.zero() == (final(self)@.y == 0),
            final(self)@.negative() == (final(self)@.y >= 128),
    {
        self.register_y = self.register_y.wrapping_sub(1);
        self.status.set_negative_and_zero_flag(self.register_y);
    }

    /// `INC`.
    pub fn increment_mem(&mut self, mode: &AddressingMode)
        requires
            mode.has_address(),
        ensures
            final(self)@ == inc(old(self)@, *mode),
            final(self)@.zero() == (operand(old(self)@, *mode).value.wrapping_add(1) == 0),
            final(self)@.negative() == (operand(old(self)@, *mode).value.wrapping_add(1) >= 128),
    {
        let (addr, param) = self.read_operand(mode);
        let result = param.wrapping_add(1);
        self.mem_write(addr, result);
        self.status.set_negative_and_zero_flag(result);
    }

    /// `DEC`.
    pub fn decrement_mem(&mut self, mode: &AddressingMode)
        requires
            mode.has_address(),
        ensures
            final(self)@ == dec(old(self)@, *mode),
            final(self)@.zero() == (operand(old(self)@, *mode).value.wrapping_sub(1) == 0),
            final(self)@.negative() == (operand(old(self)@, *mode).value.wrapping_sub(1) >= 128),
    {
        let (addr, param) = self.read_operand(mode);
        let result = param.wrapping_sub(1);
        self.mem_write(addr, result);
        self.status.set_negative_and_zero_flag(result);
    }

    /// `ASL`.
    pub fn arithmetic_shift_left(&mut self, mode: &AddressingMode)
        requires
            mode.has_address() || *mode is Accumulator,
        ensures
            final(self)@ == asl(old(self)@, *mode),
            final(self)@.carry() == (locate(old(self)@, *mode).value >= 128),
            final(self)@.zero() == (shl1(locate(old(self)@, *mode).value) == 0),
            final(self)@.negative() == (shl1(locate(old(self)@, *mode).value) >= 128),
    {
        self.shift_target(mode, Shift::Left);
    }

    /// `CMP`.
    pub fn compare(&mut self, mode: &AddressingMode)
        requires
            mode.has_address(),
        ensures
            final(self)@ == compare(old(self)@, *mode, old(self)@.a),
            final(self)@.carry() == (old(self)@.a >= operand(old(self)@, *mode).value),
            final(self)@.zero() == (old(self)@.a == operand(old(self)@, *mode).value),
            final(self)@.negative() == (old(self)@.a.wrapping_sub(
                operand(old(self)@, *mode).value,
            ) >= 128),
    {
        self._compare(mode, self.register_a);
    }

    /// `CPX`.
    pub fn compare_x(&mut self, mode: &AddressingMode)
        requires
            mode.has_address(),
        ensures
            final(self)@ == compare(old(self)@, *mode, old(self)@.x),
            final(self)@.carry() == (old(self)@.x >= operand(old(self)@, *mode).value),
            final(self)@.zero() == (old(self)@.x == operand(old(self)@, *mode).value),
            final(self)@.negative() == (old(self)@.x.wrapping_sub(
                operand(old(self)@, *mode).value,
            ) >= 128),
    {
        self._compare(mode, self.register_x);
    }

    /// `CPY`.
    pub fn compare_y(&mut self, mode: &AddressingMode)
        requires
            mode.has_address(),
        ensures
            final(self)@ == compare(old(self)@, *mode, old(self)@.y),
            final(self)@.carry() == (old(self)@.y >= operand(old(self)@, *mode).value),
            final(self)@.zero() == (old(self)@.y == operand(old(self)@, *mode).value),
            final(self)@.negative() == (old(self)@.y.wrapping_sub(
                operand(old(self)@, *mode).value,
            ) >= 128),
    {
        self._compare(mode, self.register_y);
    }

    /// Compares `reg_val` with the operand.
    fn _compare(&mut self, mode: &AddressingMode, reg_val: u8)
        requires
            mode.has_address(),
        ensures
            final(self)@ == compare(old(self)@, *mode, reg_val),
            final(self)@.carry() == (reg_val >= operand(old(self)@, *mode).value),
            final(self)@.zero() == (reg_val == operand(old(self)@, *mode).value),
            final(self)@.negative() == (reg_val.wrapping_sub(operand(old(self)@, *mode).value)
                >= 128),
    {
        let (_, param) = self.read_operand(mode);
        let result = reg_val.wrapping_sub(param);
        proof {
            lemma_carry_zero_negative(self.status.0, reg_val >= param, result);
        }
        self.status.set_carry_flag(reg_val >= param);
        self.status.set_negative_and_zero_flag(result);
    }
}

/// `m` after the arithmetic instruction `instruction`, before the program
/// counter moves on. Other instructions leave `m` as it is.
pub open spec fn arithmetic(m: Machine, instruction: Mnemonic, mode: AddressingMode) -> Machine {
    match instruction {
        Mnemonic::Adc => adc(m, mode),
        Mnemonic::Asl => asl(m, mode),
        Mnemonic::Cmp => compare(m, mode, m.a),
        Mnemonic::Cpx => compare(m, mode, m.x),
        Mnemonic::Cpy => compare(m, mode, m.y),
        Mnemonic::Dec => dec(m, mode),
        Mnemonic::Dex => dex(m),
        Mnemonic::Dey => dey(m),
        Mnemonic::Inc => inc(m, mode),
        Mnemonic::Inx => inx(m),
        Mnemonic::Iny => iny(m),
        Mnemonic::Sbc => sbc(m, mode),
        _ => m,
    }
}

impl CPU {
    /// Executes `instruction` if it is an arithmetic instruction.
    pub fn execute_arithmetic(&mut self, instruction: Mnemonic, mode: &AddressingMode)
        requires
            suits(instruction, *mode),
        ensures
            final(self)@ == arithmetic(old(self)@, instruction, *mode),
    {
        match instruction {
            Mnemonic::Adc => {
                self.add_with_carry(mode);
            },
            Mnemonic::Asl => {
                self.arithmetic_shift_left(mode);
            },
            Mnemonic::Cmp => {
                self.compare(mode);
            },
            Mnemonic::Cpx => {
                self.compare_x(mode);
            },
            Mnemonic::Cpy => {
                self.compare_y(mode);
            },
            Mnemonic::Dec => {
                self.decrement_mem(mode);
            },
            Mnemonic::Dex => {
                self.decrement_x();
            },
            Mnemonic::Dey => {
                self.decrement_y();
            },
            Mnemonic::Inc => {
                self.increment_mem(mode);
            },
            Mnemonic::Inx => {
                self.increment_x();
            },
            Mnemonic::Iny => {
                self.increment_y();
            },
            Mnemonic::Sbc => {
                self.subtract_with_carry(mode);
            },
            _ => {},
        }
    }
}

} // verus!
