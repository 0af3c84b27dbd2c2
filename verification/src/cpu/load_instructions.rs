//! Loads from memory and transfers between registers.

use super::addressing_modes::{operand, AddressingMode};
use super::opcodes::{suits, Mnemonic};
use super::status_flags::with_zero_negative;
use super::{Machine, CPU};
use vstd::prelude::*;

verus! {

/// `LDA`: the accumulator becomes the operand; Z and N are taken from it.
pub open spec fn lda(m: Machine, mode: AddressingMode) -> Machine {
    let found = operand(m, mode);
    Machine { a: found.value, p: with_zero_negative(m.p, found.value), ..found.after }
}

/// `LDX`: X becomes the operand; Z and N are taken from it.
pub open spec fn ldx(m: Machine, mode: AddressingMode) -> Machine {
    let found = operand(m, mode);
    Machine { x: found.value, p: with_zero_negative(m.p, found.value), ..found.after }
}

/// `LDY`: Y becomes the operand; Z and N are taken from it.
pub open spec fn ldy(m: Machine, mode: AddressingMode) -> Machine {
    let found = operand(m, mode);
    Machine { y: found.value, p: with_zero_negative(m.p, found.value), ..found.after }
}

/// `LAX`: the accumulator and X both become the operand; Z and N are taken
/// from it.
pub open spec fn lax(m: Machine, mode: AddressingMode) -> Machine {
    let found = operand(m, mode);
    Machine {
        a: found.value,
        x: found.value,
        p: with_zero_negative(m.p, found.value),
        ..found.after
    }
}

/// `TAX`: X becomes the accumulator; Z and N are taken from it.
pub open spec fn tax(m: Machine) -> Machine {
    Machine { x: m.a, p: with_zero_negative(m.p, m.a), ..m }
}

/// `TXA`: the accumulator becomes X; Z and N are taken from it.
pub open spec fn txa(m: Machine) -> Machine {
    Machine { a: m.x, p: with_zero_negative(m.p, m.x), ..m }
}

/// `TAY`: Y becomes the accumulator; Z and N are taken from it.
pub open spec fn tay(m: Machine) -> Machine {
    Machine { y: m.a, p: with_zero_negative(m.p, m.a), ..m }
}

/// `TYA`: the accumulator becomes Y; Z and N are taken from it.
pub open spec fn tya(m: Machine) -> Machine {
    Machine { a: m.y, p: with_zero_negative(m.p, m.y), ..m }
}

/// `TSX`: X becomes the stack pointer; Z and N are taken from it.
pub open spec fn tsx(m: Machine) -> Machine {
    Machine { x: m.sp, p: with_zero_negative(m.p, m.sp), ..m }
}

/// `TXS`: the stack pointer becomes X. No flag changes.
pub open spec fn txs(m: Machine) -> Machine {
    Machine { sp: m.x, ..m }
}

impl CPU {
    /// `LDA`.
    pub fn load_register_a(&mut self, mode: &AddressingMode)
        requires
            mode.has_address(),
        ensures
            final(self)@ == lda(old(self)@, *mode),
            final(self)@.zero() == (final(self)@.a == 0),
            final(self)@.negative() == (final(self)@.a >= 128),
    {
        let (_, param) = self.read_operand(mode);
        self.register_a = param;
        self.status.set_negative_and_zero_flag(param);
    }

    /// `LDX`.
    pub fn load_register_x(&mut self, mode: &AddressingMode)
        requires
            mode.has_address(),
        ensures
            final(self)@ == ldx(old(self)@, *mode),
            final(self)@.zero() == (final(self)@.x == 0),
            final(self)@.negative() == (final(self)@.x >= 128),
    {
        let (_, param) = self.read_operand(mode);
        self.register_x = param;
        self.status.set_negative_and_zero_flag(param);
    }

    /// `LDY`.
    pub fn load_register_y(&mut self, mode: &AddressingMode)
        requires
            mode.has_address(),
        ensures
            final(self)@ == ldy(old(self)@, *mode),
            final(self)@.zero() == (final(self)@.y == 0),
            final(self)@.negative() == (final(self)@.y >= 128),
    {
        let (_, param) = self.read_operand(mode);
        self.register_y = param;
        self.status.set_negative_and_zero_flag(param);
    }

    /// `LAX`.
    pub fn load_a_and_x(&mut self, mode: &AddressingMode)
        requires
            mode.has_address(),
        ensures
            final(self)@ == lax(old(self)@, *mode),
            final(self)@.zero() == (final(self)@.a == 0),
            final(self)@.negative() == (final(self)@.a >= 128),
    {
        let (_, param) = self.read_operand(mode);
        self.register_a = param;
        self.register_x = param;
        self.status.set_negative_and_zero_flag(param);
    }

    /// `TAX`.
    pub fn transfer_a_to_x(&mut self)
        ensures
            final(self)@ == tax(old(self)@),
            final(self)@.zero() == (final(self)@.x == 0),
            final(self)@.negative() == (final(self)@.x >= 128),
    {
        self.register_x = self.register_a;
        self.status.set_negative_and_zero_flag(self.register_a);
    }

    /// `TXA`.
    pub fn transfer_x_to_a(&mut self)
        ensures
            final(self)@ == txa(old(self)@),
            final(self)@.zero() == (final(self)@.a == 0),
            final(self)@.negative() == (final(self)@.a >= 128),
    {
        self.register_a = self.register_x;
        self.status.set_negative_and_zero_flag(self.register_a);
    }

    /// `TAY`.
    pub fn transfer_a_to_y(&mut self)
        ensures
            final(self)@ == tay(old(self)@),
            final(self)@.zero() == (final(self)@.y == 0),
            final(self)@.negative() == (final(self)@.y >= 128),
    {
        self.register_y = self.register_a;
        self.status.set_negative_and_zero_flag(self.register_a);
    }

    /// `TYA`.
    pub fn transfer_y_to_a(&mut self)
        ensures
            final(self)@ == tya(old(self)@),
            final(self)@.zero() == (final(self)@.a == 0),
            final(self)@.negative() == (final(self)@.a >= 128),
    {
        self.register_a = self.register_y;
        self.status.set_negative_and_zero_flag(self.register_a);
    }

    /// `TSX`.
    pub fn transfer_stack_pointer_to_x(&mut self)
        ensures
            final(self)@ == tsx(old(self)@),
            final(self)@.zero() == (final(self)@.x == 0),
            final(self)@.negative() == (final(self)@.x >= 128),
    {
        self.register_x = self.stack_pointer;
        self.status.set_negative_and_zero_flag(self.register_x);
    }

    /// `TXS`.
    pub fn transfer_x_to_stack_pointer(&mut self)
        ensures
            final(self)@ == txs(old(self)@),
    {
        self.stack_pointer = self.register_x;
    }
}

/// `m` after the load or transfer `instruction`, before the program counter
/// moves on. Other instructions leave `m` as it is.
pub open spec fn transfer(m: Machine, instruction: Mnemonic, mode: AddressingMode) -> Machine {
    match instruction {
        Mnemonic::Lax => lax(m, mode),
        Mnemonic::Lda => lda(m, mode),
        Mnemonic::Ldx => ldx(m, mode),
        Mnemonic::Ldy => ldy(m, mode),
        Mnemonic::Tax => tax(m),
        Mnemonic::Tay => tay(m),
        Mnemonic::Tsx => tsx(m),
        Mnemonic::Txa => txa(m),
        Mnemonic::Txs => txs(m),
        Mnemonic::Tya => tya(m),
        _ => m,
    }
}

impl CPU {
    /// Executes `instruction` if it is a load or a transfer.
    pub fn execute_transfer(&mut self, instruction: Mnemonic, mode: &AddressingMode)
        requires
            suits(instruction, *mode),
        ensures
            final(self)@ == transfer(old(self)@, instruction, *mode),
    {
        match instruction {
            Mnemonic::Lax => {
                self.load_a_and_x(mode);
            },
            Mnemonic::Lda => {
                self.load_register_a(mode);
            },
            Mnemonic::Ldx => {
                self.load_register_x(mode);
            },
            Mnemonic::Ldy => {
                self.load_register_y(mode);
            },
            Mnemonic::Tax => {
                self.transfer_a_to_x();
            },
            Mnemonic::Tay => {
                self.transfer_a_to_y();
            },
            Mnemonic::Tsx => {
                self.transfer_stack_pointer_to_x();
            },
            Mnemonic::Txa => {
                self.transfer_x_to_a();
            },
            Mnemonic::Txs => {
                self.transfer_x_to_stack_pointer();
            },
            Mnemonic::Tya => {
                self.transfer_y_to_a();
            },
            _ => {},
        }
    }
}

} // verus!
