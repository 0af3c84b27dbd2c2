//! Branches, jumps, and the calls and returns that go through the stack.

use crate::MemAccess;
use crate::bits::{displace, displacement, wrap16};
use crate::bus::bus_read;
use super::addressing_modes::{operand_address, AddressingMode};
use super::opcodes::{suits, Mnemonic, OpCode};
use super::stack::{plp, pull_word, push_word};
use super::{skip_operand, Machine, CPU};
use vstd::prelude::*;

verus! {

/// `m` after a branch, with the program counter at the branch's operand.
/// A branch that is taken reads its operand, a signed distance, and moves the
/// program counter by it from the address behind the operand. A branch that
/// is not taken changes nothing: the operand is still to be stepped over.
pub open spec fn branch(m: Machine, taken: bool) -> Machine {
    if taken {
        let (bus, distance) = bus_read(m.bus, m.pc);
        Machine { bus, pc: wrap16(m.pc + 1 + displacement(distance)), ..m }
    } else {
        m
    }
}

/// `JMP`: the program counter becomes the operand's address.
pub open spec fn jmp(m: Machine, mode: AddressingMode) -> Machine {
    let (bus, addr) = operand_address(m, mode);
    Machine { bus, pc: addr, ..m }
}

/// `JSR`: pushes the address of the last byte of the instruction, which is
/// the program counter plus one, and jumps to the operand's address.
pub open spec fn jsr(m: Machine) -> Machine {
    let (bus, target) = operand_address(m, AddressingMode::Absolute);
    let pushed = push_word(Machine { bus, ..m }, m.pc.wrapping_add(1));
    Machine { pc: target, ..pushed }
}

/// `RTS`: pulls an address and continues behind it.
pub open spec fn rts(m: Machine) -> Machine {
    let (pulled, addr) = pull_word(m);
    Machine { pc: addr.wrapping_add(1), ..pulled }
}

/// `RTI`: pulls the status as `PLP` does, then pulls the program counter.
pub open spec fn rti(m: Machine) -> Machine {
    let (pulled, addr) = pull_word(plp(m));
    Machine { pc: addr, ..pulled }
}

impl CPU {
    /// `BCC`. Returns whether the branch was taken.
    pub fn branch_if_carry_clear(&mut self) -> (taken: bool)
        ensures
            taken == !old(self)@.carry(),
            final(self)@ == branch(old(self)@, taken),
    {
        if self.status.is_carry_set() {
            return false;
        }
        self.branch()
    }

    /// `BCS`. Returns whether the branch was taken.
    pub fn branch_if_carry_set(&mut self) -> (taken: bool)
        ensures
            taken == old(self)@.carry(),
            final(self)@ == branch(old(self)@, taken),
    {
        if !self.status.is_carry_set() {
            return false;
        }
        self.branch()
    }

    /// `BEQ`. Returns whether the branch was taken.
    pub fn branch_if_equal(&mut self) -> (taken: bool)
        ensures
            taken == old(self)@.zero(),
            final(self)@ == branch(old(self)@, taken),
    {
        if !self.status.is_zero_set() {
            return false;
        }
        self.branch()
    }

    /// `BNE`. Returns whether the branch was taken.
    pub fn branch_if_not_equal(&mut self) -> (taken: bool)
        ensures
            taken == !old(self)@.zero(),
            final(self)@ == branch(old(self)@, taken),
    {
        if self.status.is_zero_set() {
            return false;
        }
        self.branch()
    }

    /// `BMI`. Returns whether the branch was taken.
    pub fn branch_if_minus(&mut self) -> (taken: bool)
        ensures
            taken == old(self)@.negative(),
            final(self)@ == branch(old(self)@, taken),
    {
        if !self.status.is_negative_set() {
            return false;
        }
        self.branch()
    }

    /// `BPL`. Returns whether the branch was taken.
    pub fn branch_if_positive(&mut self) -> (taken: bool)
        ensures
            taken == !old(self)@.negative(),
            final(self)@ == branch(old(self)@, taken),
    {
        if self.status.is_negative_set() {
            return false;
        }
        self.branch()
    }

    /// `BVC`. Returns whether the branch was taken.
    pub fn branch_if_overflow_clear(&mut self) -> (taken: bool)
        ensures
            taken == !old(self)@.overflow(),
            final(self)@ == branch(old(self)@, taken),
    {
        if self.status.is_overflow_set() {
            return false;
        }
        self.branch()
    }

    /// `BVS`. Returns whether the branch was taken.
    pub fn branch_if_overflow_set(&mut self) -> (taken: bool)
        ensures
            taken == old(self)@.overflow(),
            final(self)@ == branch(old(self)@, taken),
    {
        if !self.status.is_overflow_set() {
            return false;
        }
        self.branch()
    }

    /// Takes the branch whose operand is at the program counter.
    fn branch(&mut self) -> (taken: bool)
        ensures
            taken,
            final(self)@ == branch(old(self)@, true),
    {
        let distance = self.mem_read(self.program_counter);
        self.program_counter = displace(self.program_counter.wrapping_add(1), distance);
        true
    }

    /// `JMP`.
    pub fn jump(&mut self, mode: &AddressingMode)
        requires
            mode.has_address(),
        ensures
            final(self)@ == jmp(old(self)@, *mode),
    {
        let addr = self.get_operand_address(mode);
        self.program_counter = addr;
    }

    /// `JSR`.
    pub fn jump_subroutine(&mut self)
        ensures
            final(self)@ == jsr(old(self)@),
    {
        let jmp_target = self.get_operand_address(&AddressingMode::Absolute);
        self.push_stack_u16(self.program_counter.wrapping_add(1));
        self.program_counter = jmp_target;
    }

    /// `RTS`.
    pub fn return_subroutine(&mut self)
        ensures
            final(self)@ == rts(old(self)@),
    {
        let jmp_target = self.pop_stack_u16();
        self.program_counter = jmp_target.wrapping_add(1);
    }

    /// `RTI`.
    pub fn return_from_interrupt(&mut self)
        ensures
            final(self)@ == rti(old(self)@),
    {
        self.pull_processor_status();
        self.program_counter = self.pop_stack_u16();
    }
}

/// `m` after the branch, jump, call or return `op`, with the program counter
/// of `m` at the operand. A branch that is not taken and a return from a
/// subroutine leave the program counter to be moved behind the operand;
/// the others have set it. Other instructions leave `m` as it is.
pub open spec fn flow(m: Machine, op: OpCode) -> Machine {
    match op.instruction {
        Mnemonic::Bcc => branch_or_skip(m, op, !m.carry()),
        Mnemonic::Bcs => branch_or_skip(m, op, m.carry()),
        Mnemonic::Beq => branch_or_skip(m, op, m.zero()),
        Mnemonic::Bmi => branch_or_skip(m, op, m.negative()),
        Mnemonic::Bne => branch_or_skip(m, op, !m.zero()),
        Mnemonic::Bpl => branch_or_skip(m, op, !m.negative()),
        Mnemonic::Bvc => branch_or_skip(m, op, !m.overflow()),
        Mnemonic::Bvs => branch_or_skip(m, op, m.overflow()),
        Mnemonic::Jmp => jmp(m, op.addressing_mode),
        Mnemonic::Jsr => jsr(m),
        Mnemonic::Rti => rti(m),
        Mnemonic::Rts => skip_operand(rts(m), op),
        _ => m,
    }
}

/// `m` after the branch `op`: at its target when `taken`, behind its operand
/// otherwise.
pub open spec fn branch_or_skip(m: Machine, op: OpCode, taken: bool) -> Machine {
    if taken {
        branch(m, true)
    } else {
        skip_operand(m, op)
    }
}

impl CPU {
    /// Moves the program counter behind the operand of `op`.
    pub fn skip_operand(&mut self, op: &OpCode)
        requires
            1 <= op.bytes,
        ensures
            final(self)@ == skip_operand(old(self)@, *op),
    {
        self.program_counter = self.program_counter.wrapping_add(op.bytes - 1);
    }

    /// Executes `op` if it is a branch, a jump, a call or a return.
    pub fn execute_flow(&mut self, op: &OpCode)
        requires
            suits(op.instruction, op.addressing_mode),
            1 <= op.bytes,
        ensures
            final(self)@ == flow(old(self)@, *op),
    {
        match op.instruction {
            Mnemonic::Bcc => {
                if !self.branch_if_carry_clear() {
                    self.skip_operand(op);
                }
            },
            Mnemonic::Bcs => {
                if !self.branch_if_carry_set() {
                    self.skip_operand(op);
                }
            },
            Mnemonic::Beq => {
                if !self.branch_if_equal() {
                    self.skip_operand(op);
                }
            },
            Mnemonic::Bmi => {
                if !self.branch_if_minus() {
                    self.skip_operand(op);
                }
            },
            Mnemonic::Bne => {
                if !self.branch_if_not_equal() {
                    self.skip_operand(op);
                }
            },
            Mnemonic::Bpl => {
                if !self.branch_if_positive() {
                    self.skip_operand(op);
                }
            },
            Mnemonic::Bvc => {
                if !self.branch_if_overflow_clear() {
                    self.skip_operand(op);
                }
            },
            Mnemonic::Bvs => {
                if !self.branch_if_overflow_set() {
                    self.skip_operand(op);
                }
            },
            Mnemonic::Jmp => {
                self.jump(&op.addressing_mode);
            },
            Mnemonic::Jsr => {
                self.jump_subroutine();
            },
            Mnemonic::Rti => {
                self.return_from_interrupt();
            },
            Mnemonic::Rts => {
                self.return_subroutine();
                self.skip_operand(op);
            },
            _ => {},
        }
    }
}

} // verus!
