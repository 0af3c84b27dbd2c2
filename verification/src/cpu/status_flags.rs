//! The processor status byte `P` and its eight flags.

use crate::bits::{has_flag, lemma_tested_bits, lemma_with_flag, put_flag, test_flag, with_flag};
use super::opcodes::Mnemonic;
use super::{Machine, CPU};
use vstd::prelude::*;

verus! {

/// Carry: bit 0.
pub const CARRY: u8 = 0b0000_0001;

/// Zero: bit 1.
pub const ZERO: u8 = 0b0000_0010;

/// Interrupt disable: bit 2.
pub const INTERRUPT: u8 = 0b0000_0100;

/// Decimal mode: bit 3. The flag is kept, the arithmetic ignores it.
pub const DECIMAL: u8 = 0b0000_1000;

/// Break: bit 4. It exists only in copies of `P` on the stack.
pub const BREAK_1: u8 = 0b0001_0000;

/// Unused: bit 5, which reads as set.
pub const BREAK_2: u8 = 0b0010_0000;

/// Overflow: bit 6.
pub const OVERFLOW: u8 = 0b0100_0000;

/// Negative: bit 7.
pub const NEGATIVE: u8 = 0b1000_0000;

/// `P` after power-on and after a reset: interrupt disable and the unused bit.
pub const POWER_ON_STATUS: u8 = 0b0010_0100;

/// `p` with Z set exactly when `v` is zero and N exactly when `v`, read as a
/// signed byte, is negative.
pub open spec fn with_zero_negative(p: u8, v: u8) -> u8 {
    with_flag(with_flag(p, ZERO, v == 0), NEGATIVE, v >= 128)
}

/// `p` as it stands in a stack copy and after it is pulled back: the break
/// bit clear, the unused bit set.
pub open spec fn stacked(p: u8) -> u8 {
    with_flag(with_flag(p, BREAK_1, false), BREAK_2, true)
}

/// After Z and N are taken from `v`, Z says whether `v` is zero, N whether
/// bit 7 of `v` is set, and the six other flags are those of `p`.
pub proof fn lemma_zero_negative(p: u8, v: u8)
    ensures
        has_flag(with_zero_negative(p, v), ZERO) == (v == 0),
        has_flag(with_zero_negative(p, v), NEGATIVE) == (v >= 128),
        has_flag(with_zero_negative(p, v), CARRY) == has_flag(p, CARRY),
        has_flag(with_zero_negative(p, v), INTERRUPT) == has_flag(p, INTERRUPT),
        has_flag(with_zero_negative(p, v), DECIMAL) == has_flag(p, DECIMAL),
        has_flag(with_zero_negative(p, v), BREAK_1) == has_flag(p, BREAK_1),
        has_flag(with_zero_negative(p, v), BREAK_2) == has_flag(p, BREAK_2),
        has_flag(with_zero_negative(p, v), OVERFLOW) == has_flag(p, OVERFLOW),
{
    let q = with_flag(p, ZERO, v == 0);
    lemma_with_flag(p, ZERO, ZERO, v == 0);
    lemma_with_flag(p, ZERO, NEGATIVE, v == 0);
    lemma_with_flag(p, ZERO, CARRY, v == 0);
    lemma_with_flag(p, ZERO, INTERRUPT, v == 0);
    lemma_with_flag(p, ZERO, DECIMAL, v == 0);
    lemma_with_flag(p, ZERO, BREAK_1, v == 0);
    lemma_with_flag(p, ZERO, BREAK_2, v == 0);
    lemma_with_flag(p, ZERO, OVERFLOW, v == 0);
    lemma_with_flag(q, NEGATIVE, NEGATIVE, v >= 128);
    lemma_with_flag(q, NEGATIVE, ZERO, v >= 128);
    lemma_with_flag(q, NEGATIVE, CARRY, v >= 128);
    lemma_with_flag(q, NEGATIVE, INTERRUPT, v >= 128);
    lemma_with_flag(q, NEGATIVE, DECIMAL, v >= 128);
    lemma_with_flag(q, NEGATIVE, BREAK_1, v >= 128);
    lemma_with_flag(q, NEGATIVE, BREAK_2, v >= 128);
    lemma_with_flag(q, NEGATIVE, OVERFLOW, v >= 128);
}

/// After carry is set to `c` and Z and N are taken from `v`, carry is `c`, Z
/// and N describe `v`, and the five other flags are those of `p`.
pub proof fn lemma_carry_zero_negative(p: u8, c: bool, v: u8)
    ensures
        has_flag(with_zero_negative(with_flag(p, CARRY, c), v), CARRY) == c,
        has_flag(with_zero_negative(with_flag(p, CARRY, c), v), ZERO) == (v == 0),
        has_flag(with_zero_negative(with_flag(p, CARRY, c), v), NEGATIVE) == (v >= 128),
        has_flag(with_zero_negative(with_flag(p, CARRY, c), v), INTERRUPT) == has_flag(
            p,
            INTERRUPT,
        ),
        has_flag(with_zero_negative(with_flag(p, CARRY, c), v), DECIMAL) == has_flag(p, DECIMAL),
        has_flag(with_zero_negative(with_flag(p, CARRY, c), v), BREAK_1) == has_flag(p, BREAK_1),
        has_flag(with_zero_negative(with_flag(p, CARRY, c), v), BREAK_2) == has_flag(p, BREAK_2),
        has_flag(with_zero_negative(with_flag(p, CARRY, c), v), OVERFLOW) == has_flag(
            p,
            OVERFLOW,
        ),
{
    let q = with_flag(p, CARRY, c);
    lemma_zero_negative(q, v);
    lemma_with_flag(p, CARRY, CARRY, c);
    lemma_with_flag(p, CARRY, INTERRUPT, c);
    lemma_with_flag(p, CARRY, DECIMAL, c);
    lemma_with_flag(p, CARRY, BREAK_1, c);
    lemma_with_flag(p, CARRY, BREAK_2, c);
    lemma_with_flag(p, CARRY, OVERFLOW, c);
}

/// The status byte. Bit 0 is carry, then zero, interrupt disable, decimal,
/// break, unused, overflow and, as bit 7, negative.
pub struct StatusFlag(pub u8);

impl core::ops::Deref for StatusFlag {
    type Target = u8;

    /// The byte.
    fn deref(&self) -> (byte: &u8)
        ensures
            *byte == self.0,
    {
        &self.0
    }
}

impl StatusFlag {
    /// The carry flag.
    pub open spec fn carry(&self) -> bool {
        has_flag(self.0, CARRY)
    }

    /// The zero flag.
    pub open spec fn zero(&self) -> bool {
        has_flag(self.0, ZERO)
    }

    /// The interrupt-disable flag.
    pub open spec fn interrupt(&self) -> bool {
        has_flag(self.0, INTERRUPT)
    }

    /// The decimal flag.
    pub open spec fn decimal(&self) -> bool {
        has_flag(self.0, DECIMAL)
    }

    /// The overflow flag.
    pub open spec fn overflow(&self) -> bool {
        has_flag(self.0, OVERFLOW)
    }

    /// The negative flag.
    pub open spec fn negative(&self) -> bool {
        has_flag(self.0, NEGATIVE)
    }

    /// Sets carry to `value`.
    pub fn set_carry_flag(&mut self, value: bool)
        ensures
            final(self).0 == with_flag(old(self).0, CARRY, value),
            final(self).carry() == value,
    {
        proof {
            lemma_with_flag(self.0, CARRY, CARRY, value);
        }
        self.0 = put_flag(self.0, CARRY, value);
    }

    /// Sets zero exactly when `value` is zero.
    pub fn set_zero_flag(&mut self, value: u8)
        ensures
            final(self).0 == with_flag(old(self).0, ZERO, value == 0),
            final(self).zero() == (value == 0),
    {
        proof {
            lemma_with_flag(self.0, ZERO, ZERO, value == 0);
        }
        self.0 = put_flag(self.0, ZERO, value == 0);
    }

    /// Sets interrupt disable to `value`.
    pub fn set_interrupt_flag(&mut self, value: bool)
        ensures
            final(self).0 == with_flag(old(self).0, INTERRUPT, value),
            final(self).interrupt() == value,
    {
        proof {
            lemma_with_flag(self.0, INTERRUPT, INTERRUPT, value);
        }
        self.0 = put_flag(self.0, INTERRUPT, value);
    }

    /// Sets decimal to `value`.
    pub fn set_decimal_flag(&mut self, value: bool)
        ensures
            final(self).0 == with_flag(old(self).0, DECIMAL, value),
            final(self).decimal() == value,
    {
        proof {
            lemma_with_flag(self.0, DECIMAL, DECIMAL, value);
        }
        self.0 = put_flag(self.0, DECIMAL, value);
    }

    /// Sets the break bit to `value`.
    pub fn set_break_flag_1(&mut self, value: bool)
        ensures
            final(self).0 == with_flag(old(self).0, BREAK_1, value),
            has_flag(final(self).0, BREAK_1) == value,
    {
        proof {
            lemma_with_flag(self.0, BREAK_1, BREAK_1, value);
        }
        self.0 = put_flag(self.0, BREAK_1, value);
    }

    /// Sets the unused bit to `value`.
    pub fn set_break_flag_2(&mut self, value: bool)
        ensures
            final(self).0 == with_flag(old(self).0, BREAK_2, value),
            has_flag(final(self).0, BREAK_2) == value,
    {
        proof {
            lemma_with_flag(self.0, BREAK_2, BREAK_2, value);
        }
        self.0 = put_flag(self.0, BREAK_2, value);
    }

    /// Copies bit 6 of `value` into overflow.
    pub fn set_overflow_flag(&mut self, value: u8)
        ensures
            final(self).0 == with_flag(old(self).0, OVERFLOW, has_flag(value, OVERFLOW)),
            final(self).overflow() == has_flag(value, OVERFLOW),
    {
        let on = test_flag(value, OVERFLOW);
        proof {
            lemma_with_flag(self.0, OVERFLOW, OVERFLOW, on);
        }
        self.0 = put_flag(self.0, OVERFLOW, on);
    }

    /// Copies bit 7 of `value` into negative.
    pub fn set_negative_flag(&mut self, value: u8)
        ensures
            final(self).0 == with_flag(old(self).0, NEGATIVE, value >= 128),
            final(self).negative() == (value >= 128),
    {
        let on = test_flag(value, NEGATIVE);
        proof {
            lemma_tested_bits(value);
            lemma_with_flag(self.0, NEGATIVE, NEGATIVE, on);
        }
        self.0 = put_flag(self.0, NEGATIVE, on);
    }

    /// Sets zero exactly when `value` is zero and negative exactly when bit 7
    /// of `value` is set.
    pub fn set_negative_and_zero_flag(&mut self, value: u8)
        ensures
            final(self).0 == with_zero_negative(old(self).0, value),
            final(self).zero() == (value == 0),
            final(self).negative() == (value >= 128),
    {
        proof {
            lemma_zero_negative(self.0, value);
        }
        self.set_zero_flag(value);
        self.set_negative_flag(value);
    }

    /// Whether carry is set.
    pub fn is_carry_set(&self) -> (set: bool)
        ensures
            set == self.carry(),
    {
        test_flag(self.0, CARRY)
    }

    /// Whether zero is set.
    pub fn is_zero_set(&self) -> (set: bool)
        ensures
            set == self.zero(),
    {
        test_flag(self.0, ZERO)
    }

    /// Whether interrupt disable is set.
    pub fn is_interrupt_set(&self) -> (set: bool)
        ensures
            set == self.interrupt(),
    {
        test_flag(self.0, INTERRUPT)
    }

    /// Whether decimal is set.
    pub fn is_decimal_set(&self) -> (set: bool)
        ensures
            set == self.decimal(),
    {
        test_flag(self.0, DECIMAL)
    }

    /// Whether overflow is set.
    pub fn is_overflow_set(&self) -> (set: bool)
        ensures
            set == self.overflow(),
    {
        test_flag(self.0, OVERFLOW)
    }

    /// Whether negative is set.
    pub fn is_negative_set(&self) -> (set: bool)
        ensures
            set == self.negative(),
    {
        test_flag(self.0, NEGATIVE)
    }
}

/// `m` with the flags of `mask` set when `on`, cleared otherwise.
pub open spec fn flagged(m: Machine, mask: u8, on: bool) -> Machine {
    Machine { p: with_flag(m.p, mask, on), ..m }
}

impl CPU {
    /// `SEC`: sets carry.
    pub fn set_carry_flag(&mut self)
        ensures
            final(self)@ == flagged(old(self)@, CARRY, true),
            final(self)@.carry(),
    {
        self.status.set_carry_flag(true);
    }

    /// `SED`: sets decimal.
    pub fn set_decimal_flag(&mut self)
        ensures
            final(self)@ == flagged(old(self)@, DECIMAL, true),
            final(self).status.decimal(),
    {
        self.status.set_decimal_flag(true);
    }

    /// `SEI`: sets interrupt disable.
    pub fn set_interrupt_flag(&mut self)
        ensures
            final(self)@ == flagged(old(self)@, INTERRUPT, true),
            final(self).status.interrupt(),
    {
        self.status.set_interrupt_flag(true);
    }
}

/// `m` after the flag instruction `instruction`, before the program counter
/// moves on. Other instructions leave `m` as it is.
pub open spec fn flag_instruction(m: Machine, instruction: Mnemonic) -> Machine {
    match instruction {
        Mnemonic::Clc => flagged(m, CARRY, false),
        Mnemonic::Cld => flagged(m, DECIMAL, false),
        Mnemonic::Cli => flagged(m, INTERRUPT, false),
        Mnemonic::Clv => flagged(m, OVERFLOW, false),
        Mnemonic::Sec => flagged(m, CARRY, true),
        Mnemonic::Sed => flagged(m, DECIMAL, true),
        Mnemonic::Sei => flagged(m, INTERRUPT, true),
        _ => m,
    }
}

impl CPU {
    /// Executes `instruction` if it sets or clears a flag.
    pub fn execute_flag(&mut self, instruction: Mnemonic)
        ensures
            final(self)@ == flag_instruction(old(self)@, instruction),
    {
        match instruction {
            Mnemonic::Clc => {
                self.status.set_carry_flag(false);
            },
            Mnemonic::Cld => {
                self.status.set_decimal_flag(false);
            },
            Mnemonic::Cli => {
                self.status.set_interrupt_flag(false);
            },
            Mnemonic::Clv => {
                proof {
                    lemma_tested_bits(0);
                }
                self.status.set_overflow_flag(0);
            },
            Mnemonic::Sec => {
                self.set_carry_flag();
            },
            Mnemonic::Sed => {
                self.set_decimal_flag();
            },
            Mnemonic::Sei => {
                self.set_interrupt_flag();
            },
            _ => {},
        }
    }
}

} // verus!
