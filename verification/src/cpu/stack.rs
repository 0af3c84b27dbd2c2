//! The stack: page one of memory, `$0100-$01FF`, addressed by the 8-bit
//! stack pointer. A push stores at the pointer and then moves it down; a pull
//! moves it up and then reads. Both wrap within the page.

use crate::MemAccess;
use crate::bits::{high, high_byte, low, low_byte, make_word, word};
use crate::bus::{bus_read, bus_write, lemma_ram_read, lemma_ram_write, well_formed};
use super::opcodes::Mnemonic;
use super::status_flags::{stacked, with_zero_negative};
use super::{Machine, CPU};
use vstd::prelude::*;

verus! {

/// First address of the stack page.
pub const MIN_STACK: u16 = 0x0100;

/// The address that the stack pointer `sp` stands for.
pub open spec fn stack_address(sp: u8) -> u16 {
    (MIN_STACK + sp) as u16
}

/// `m` after `value` is pushed.
pub open spec fn push(m: Machine, value: u8) -> Machine {
    Machine {
        bus: bus_write(m.bus, stack_address(m.sp), value),
        sp: m.sp.wrapping_sub(1),
        ..m
    }
}

/// `m` after a word is pushed, high byte first.
pub open spec fn push_word(m: Machine, value: u16) -> Machine {
    push(push(m, high(value)), low(value))
}

/// `m` after a byte is pulled, and that byte.
pub open spec fn pull(m: Machine) -> (Machine, u8) {
    let sp = m.sp.wrapping_add(1);
    let (bus, value) = bus_read(m.bus, stack_address(sp));
    (Machine { bus, sp, ..m }, value)
}

/// `m` after a word is pulled, low byte first, and that word.
pub open spec fn pull_word(m: Machine) -> (Machine, u16) {
    let (m1, lo) = pull(m);
    let (m2, hi) = pull(m1);
    (m2, word(lo, hi))
}

/// `PHA`: pushes the accumulator.
pub open spec fn pha(m: Machine) -> Machine {
    push(m, m.a)
}

/// `PHP`: clears the break bit and sets the unused bit of the status, and
/// pushes the status so changed.
pub open spec fn php(m: Machine) -> Machine {
    push(Machine { p: stacked(m.p), ..m }, stacked(m.p))
}

/// `PLP`: pulls the status, with the break bit clear and the unused bit set.
pub open spec fn plp(m: Machine) -> Machine {
    let (m1, value) = pull(m);
    Machine { p: stacked(value), ..m1 }
}

/// `PLA`: pulls the accumulator and takes Z and N from it.
pub open spec fn pla(m: Machine) -> Machine {
    let (m1, value) = pull(m);
    Machine { a: value, p: with_zero_negative(m1.p, value), ..m1 }
}

impl CPU {
    /// Pushes `new_val`.
    pub fn push_stack(&mut self, new_val: u8)
        ensures
            final(self)@ == push(old(self)@, new_val),
    {
        let stack_addr = MIN_STACK + self.stack_pointer as u16;
        self.mem_write(stack_addr, new_val);
        self.stack_pointer = self.stack_pointer.wrapping_sub(1);
    }

    /// Pushes `new_val`, high byte first.
    pub fn push_stack_u16(&mut self, new_val: u16)
        ensures
            final(self)@ == push_word(old(self)@, new_val),
    {
        let lo_bits = low_byte(new_val);
        let hi_bits = high_byte(new_val);
        self.push_stack(hi_bits);
        self.push_stack(lo_bits);
    }

    /// Pulls a byte.
    pub fn pop_stack(&mut self) -> (value: u8)
        ensures
            final(self)@ == pull(old(self)@).0,
            value == pull(old(self)@).1,
    {
        self.stack_pointer = self.stack_pointer.wrapping_add(1);
        let stack_addr = MIN_STACK + self.stack_pointer as u16;
        self.mem_read(stack_addr)
    }

    /// Pulls a word, low byte first.
    pub fn pop_stack_u16(&mut self) -> (value: u16)
        ensures
            final(self)@ == pull_word(old(self)@).0,
            value == pull_word(old(self)@).1,
    {
        let lo_bits = self.pop_stack();
        let hi_bits = self.pop_stack();
        make_word(lo_bits, hi_bits)
    }

    /// `PHP`.
    pub fn push_processor_status(&mut self)
        ensures
            final(self)@ == php(old(self)@),
    {
        self.status.set_break_flag_1(false);
        self.status.set_break_flag_2(true);
        let status = self.status.0;
        self.push_stack(status);
    }

    /// `PLP`.
    pub fn pull_processor_status(&mut self)
        ensures
            final(self)@ == plp(old(self)@),
    {
        self.status.0 = self.pop_stack();
        self.status.set_break_flag_1(false);
        self.status.set_break_flag_2(true);
    }

    /// `PLA`.
    pub fn pull_accumulator(&mut self)
        ensures
            final(self)@ == pla(old(self)@),
            final(self).status.zero() == (final(self).register_a == 0),
            final(self).status.negative() == (final(self).register_a >= 128),
    {
        self.register_a = self.pop_stack();
        self.status.set_negative_and_zero_flag(self.register_a);
    }
}

/// `m` after the stack instruction `instruction`, before the program counter
/// moves on. Other instructions leave `m` as it is.
pub open spec fn stack_instruction(m: Machine, instruction: Mnemonic) -> Machine {
    match instruction {
        Mnemonic::Pha => pha(m),
        Mnemonic::Php => php(m),
        Mnemonic::Pla => pla(m),
        Mnemonic::Plp => plp(m),
        _ => m,
    }
}

impl CPU {
    /// Executes `instruction` if it is a push or a pull.
    pub fn execute_stack(&mut self, instruction: Mnemonic)
        ensures
            final(self)@ == stack_instruction(old(self)@, instruction),
    {
        match instruction {
            Mnemonic::Pha => {
                self.push_stack(self.register_a);
            },
            Mnemonic::Php => {
                self.push_processor_status();
            },
            Mnemonic::Pla => {
                self.pull_accumulator();
            },
            Mnemonic::Plp => {
                self.pull_processor_status();
            },
            _ => {},
        }
    }
}

/// What is pushed is pulled: after a byte is pushed, a pull returns it and
/// leaves the stack pointer where it was before the push, wherever that was.
pub proof fn lemma_push_pull(m: Machine, value: u8)
    requires
        well_formed(m.bus),
    ensures
        pull(push(m, value)) == (Machine { sp: m.sp, ..push(m, value) }, value),
{
    lemma_ram_write(m.bus, stack_address(m.sp), value);
    lemma_ram_read(push(m, value).bus, stack_address(m.sp));
}

/// What is pushed is pulled: after a word is pushed, pulling a word returns
/// it and leaves the stack pointer where it was before the push, wherever
/// that was.
pub proof fn lemma_push_pull_word(m: Machine, value: u16)
    requires
        well_formed(m.bus),
    ensures
        pull_word(push_word(m, value)) == (Machine { sp: m.sp, ..push_word(m, value) }, value),
{
    let m1 = push(m, high(value));
    let m2 = push(m1, low(value));
    lemma_ram_write(m.bus, stack_address(m.sp), high(value));
    lemma_ram_write(m1.bus, stack_address(m1.sp), low(value));
    lemma_ram_read(m2.bus, stack_address(m1.sp));
    lemma_ram_read(m2.bus, stack_address(m.sp));
    crate::bits::lemma_word_of_parts(value);
}

} // verus!
