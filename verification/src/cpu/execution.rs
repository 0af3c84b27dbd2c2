//! The run loop: fetch, decode, execute, until something stops the
//! processor.

use crate::MemAccess;
use crate::bus::{bus_read, BusModel, Fault};
use super::addressing_modes::operand;
use super::arithmetic_instructions::arithmetic;
use super::branching_instructions::flow;
use super::load_instructions::transfer;
use super::logical_instructions::logical;
use super::opcodes::{decode, decoded, lemma_rows_suit, suits, Mnemonic, OpCode};
use super::rmw_instructions::combined;
use super::stack::stack_instruction;
use super::status_flags::flag_instruction;
use super::store_instructions::store_register;
use super::{loaded, skip_operand, started, Machine, CPU, PROGRAM_START, RESET_VECTOR};
use vstd::prelude::*;

verus! {

/// Why the processor stopped.
#[derive(Clone, Copy, Debug, PartialEq, Eq, Structural)]
pub enum Halt {
    /// It executed `BRK`.
    Break,
    /// The bus holds a fault.
    Fault(Fault),
    /// The byte at the program counter is no opcode of the instruction table.
    UnknownOpcode(u8),
    /// It executed as many instructions as it was allowed.
    StepLimit,
}

/// The most instructions that `run` executes.
pub const RUN_LIMIT: u64 = 0xFFFF_FFFF_FFFF_FFFF;

/// `m` after the instruction `op`, with the program counter of `m` behind
/// the opcode, at the operand. Afterwards the program counter is behind the
/// operand, unless the instruction sent it elsewhere: a taken branch, a jump,
/// a call or a return from an interrupt. `BRK` does nothing here: it stops
/// the processor before anything is executed.
pub open spec fn execute(m: Machine, op: OpCode) -> Machine {
    let mode = op.addressing_mode;
    match op.instruction {
        Mnemonic::Adc
        | Mnemonic::Asl
        | Mnemonic::Cmp
        | Mnemonic::Cpx
        | Mnemonic::Cpy
        | Mnemonic::Dec
        | Mnemonic::Dex
        | Mnemonic::Dey
        | Mnemonic::Inc
        | Mnemonic::Inx
        | Mnemonic::Iny
        | Mnemonic::Sbc => skip_operand(arithmetic(m, op.instruction, mode), op),
        Mnemonic::And
        | Mnemonic::Bit
        | Mnemonic::Eor
        | Mnemonic::Lsr
        | Mnemonic::Ora
        | Mnemonic::Rol
        | Mnemonic::Ror => skip_operand(logical(m, op.instruction, mode), op),
        Mnemonic::Bcc
        | Mnemonic::Bcs
        | Mnemonic::Beq
        | Mnemonic::Bmi
        | Mnemonic::Bne
        | Mnemonic::Bpl
        | Mnemonic::Bvc
        | Mnemonic::Bvs
        | Mnemonic::Jmp
        | Mnemonic::Jsr
        | Mnemonic::Rti
        | Mnemonic::Rts => flow(m, op),
        Mnemonic::Brk => m,
        Mnemonic::Clc
        | Mnemonic::Cld
        | Mnemonic::Cli
        | Mnemonic::Clv
        | Mnemonic::Sec
        | Mnemonic::Sed
        | Mnemonic::Sei => skip_operand(flag_instruction(m, op.instruction), op),
        Mnemonic::Dcp
        | Mnemonic::Isc
        | Mnemonic::Rla
        | Mnemonic::Rra
        | Mnemonic::Slo
        | Mnemonic::Sre => skip_operand(combined(m, op.instruction, mode), op),
        Mnemonic::Ign | Mnemonic::Skb => skip_operand(operand(m, mode).after, op),
        Mnemonic::Lax
        | Mnemonic::Lda
        | Mnemonic::Ldx
        | Mnemonic::Ldy
        | Mnemonic::Tax
        | Mnemonic::Tay
        | Mnemonic::Tsx
        | Mnemonic::Txa
        | Mnemonic::Txs
        | Mnemonic::Tya => skip_operand(transfer(m, op.instruction, mode), op),
        Mnemonic::Nop => skip_operand(m, op),
        Mnemonic::Pha | Mnemonic::Php | Mnemonic::Pla | Mnemonic::Plp => skip_operand(
            stack_instruction(m, op.instruction),
            op,
        ),
        Mnemonic::Sax | Mnemonic::Sta | Mnemonic::Stx | Mnemonic::Sty => skip_operand(
            store_register(m, op.instruction, mode),
            op,
        ),
    }
}

/// What stops a machine whose bus is `bus`, as far as the bus can.
pub open spec fn bus_halt(bus: BusModel) -> Option<Halt> {
    match bus.fault {
        Some(f) => Some(Halt::Fault(f)),
        None => None,
    }
}

/// One step of `m`: the machine afterwards, and why it stopped, if it did.
///
/// A machine whose bus holds a fault does nothing. Otherwise it reads the
/// byte at the program counter. If that read is a fault, or the byte is no
/// opcode, it stops there. Otherwise the program counter moves behind the
/// opcode; `BRK` stops the machine at this point, and every other
/// instruction is executed, which stops the machine if it leaves a fault on
/// the bus.
pub open spec fn step(m: Machine) -> (Machine, Option<Halt>) {
    if m.bus.fault is Some {
        (m, bus_halt(m.bus))
    } else {
        let (bus, byte) = bus_read(m.bus, m.pc);
        let fetched = Machine { bus, ..m };
        if bus.fault is Some {
            (fetched, bus_halt(bus))
        } else {
            match decoded(byte) {
                None => (fetched, Some(Halt::UnknownOpcode(byte))),
                Some(op) => {
                    let ready = Machine { pc: m.pc.wrapping_add(1), ..fetched };
                    if op.instruction is Brk {
                        (ready, Some(Halt::Break))
                    } else {
                        let done = execute(ready, op);
                        (done, bus_halt(done.bus))
                    }
                },
            }
        }
    }
}

/// `m` after it ran until it stopped, or for `fuel` instructions if it did
/// not stop before, and why it stopped.
pub open spec fn run(m: Machine, fuel: nat) -> (Machine, Halt)
    decreases fuel,
{
    if fuel == 0 {
        (m, Halt::StepLimit)
    } else {
        let (next, halt) = step(m);
        match halt {
            Some(h) => (next, h),
            None => run(next, (fuel - 1) as nat),
        }
    }
}

impl CPU {
    /// Executes the instruction `op`, whose opcode the program counter has
    /// just passed.
    pub fn execute(&mut self, op: &OpCode)
        requires
            suits(op.instruction, op.addressing_mode),
            1 <= op.bytes <= 3,
        ensures
            final(self)@ == execute(old(self)@, *op),
    {
        let mode = &op.addressing_mode;
        match op.instruction {
            Mnemonic::Adc
            | Mnemonic::Asl
            | Mnemonic::Cmp
            | Mnemonic::Cpx
            | Mnemonic::Cpy
            | Mnemonic::Dec
            | Mnemonic::Dex
            | Mnemonic::Dey
            | Mnemonic::Inc
            | Mnemonic::Inx
            | Mnemonic::Iny
            | Mnemonic::Sbc => {
                self.execute_arithmetic(op.instruction, mode);
                self.skip_operand(op);
            },
            Mnemonic::And
            | Mnemonic::Bit
            | Mnemonic::Eor
            | Mnemonic::Lsr
            | Mnemonic::Ora
            | Mnemonic::Rol
            | Mnemonic::Ror => {
                self.execute_logical(op.instruction, mode);
                self.skip_operand(op);
            },
            Mnemonic::Bcc
            | Mnemonic::Bcs
            | Mnemonic::Beq
            | Mnemonic::Bmi
            | Mnemonic::Bne
            | Mnemonic::Bpl
            | Mnemonic::Bvc
            | Mnemonic::Bvs
            | Mnemonic::Jmp
            | Mnemonic::Jsr
            | Mnemonic::Rti
            | Mnemonic::Rts => {
                self.execute_flow(op);
            },
            Mnemonic::Brk => {},
            Mnemonic::Clc
            | Mnemonic::Cld
            | Mnemonic::Cli
            | Mnemonic::Clv
            | Mnemonic::Sec
            | Mnemonic::Sed
            | Mnemonic::Sei => {
                self.execute_flag(op.instruction);
                self.skip_operand(op);
            },
            Mnemonic::Dcp
            | Mnemonic::Isc
            | Mnemonic::Rla
            | Mnemonic::Rra
            | Mnemonic::Slo
            | Mnemonic::Sre => {
                self.execute_combined(op.instruction, mode);
                self.skip_operand(op);
            },
            Mnemonic::Ign | Mnemonic::Skb => {
                let _ = self.read_operand(mode);
                self.skip_operand(op);
            },
            Mnemonic::Lax
            | Mnemonic::Lda
            | Mnemonic::Ldx
            | Mnemonic::Ldy
            | Mnemonic::Tax
            | Mnemonic::Tay
            | Mnemonic::Tsx
            | Mnemonic::Txa
            | Mnemonic::Txs
            | Mnemonic::Tya => {
                self.execute_transfer(op.instruction, mode);
                self.skip_operand(op);
            },
            Mnemonic::Nop => {
                self.skip_operand(op);
            },
            Mnemonic::Pha | Mnemonic::Php | Mnemonic::Pla | Mnemonic::Plp => {
                self.execute_stack(op.instruction);
                self.skip_operand(op);
            },
            Mnemonic::Sax | Mnemonic::Sta | Mnemonic::Stx | Mnemonic::Sty => {
                self.execute_store(op.instruction, mode);
                self.skip_operand(op);
            },
        }
    }

    /// Executes one instruction, unless the processor has to stop first.
    /// Returns why it stopped, or `None` when it can go on.
    pub fn step(&mut self) -> (halt: Option<Halt>)
        ensures
            final(self)@ == step(old(self)@).0,
            halt == step(old(self)@).1,
    {
        if let Some(f) = self.bus.fault() {
            return Some(Halt::Fault(f));
        }
        let op_code = self.mem_read(self.program_counter);
        if let Some(f) = self.bus.fault() {
            return Some(Halt::Fault(f));
        }
        let op = match decode(op_code) {
            Some(op) => op,
            None => {
                return Some(Halt::UnknownOpcode(op_code));
            },
        };
        proof {
            lemma_rows_suit(op_code);
        }
        self.program_counter = self.program_counter.wrapping_add(1);
        if op.instruction == Mnemonic::Brk {
            return Some(Halt::Break);
        }
        self.execute(&op);
        match self.bus.fault() {
            Some(f) => Some(Halt::Fault(f)),
            None => None,
        }
    }

    /// Runs until the processor stops, but for no more than `max_steps`
    /// instructions. Returns why it stopped.
    pub fn run_for(&mut self, max_steps: u64) -> (halt: Halt)
        ensures
            final(self)@ == run(old(self)@, max_steps as nat).0,
            halt == run(old(self)@, max_steps as nat).1,
    {
        let mut remaining = max_steps;
        while remaining > 0
            invariant
                run(self@, remaining as nat) == run(old(self)@, max_steps as nat),
            decreases remaining,
        {
            match self.step() {
                Some(halt) => {
                    return halt;
                },
                None => {},
            }
            remaining -= 1;
        }
        Halt::StepLimit
    }

    /// Runs until the processor stops: at `BRK`, at a fault on the bus, at a
    /// byte that is no opcode, or after `RUN_LIMIT` instructions. Returns why
    /// it stopped.
    pub fn run(&mut self) -> (halt: Halt)
        ensures
            final(self)@ == run(old(self)@, RUN_LIMIT as nat).0,
            halt == run(old(self)@, RUN_LIMIT as nat).1,
    {
        self.run_for(RUN_LIMIT)
    }

    /// Loads `program` at `$8000` and runs it from there.
    pub fn load_and_run(&mut self, program: Vec<u8>) -> (halt: Halt)
        ensures
            final(self)@ == run(
                started(loaded(old(self)@, program@, PROGRAM_START)),
                RUN_LIMIT as nat,
            ).0,
            halt == run(
                started(loaded(old(self)@, program@, PROGRAM_START)),
                RUN_LIMIT as nat,
            ).1,
    {
        self.load(program);
        self.program_counter = self.mem_read_u16(RESET_VECTOR);
        self.run()
    }
}

} // verus!
