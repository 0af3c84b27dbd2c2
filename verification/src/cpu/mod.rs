//! The processor: registers, addressing modes, instructions and the run loop.

use crate::MemAccess;
use crate::bits::{has_flag, high_byte, low_byte, make_word};
use crate::bus::{
    blank_cartridge, bus_read, bus_write, lemma_rom_read, peek, power_on_bus, read_word,
    write_bytes, write_word, Bus, BusModel, Fault,
};
use crate::rom::Rom;
use vstd::prelude::*;

pub mod addressing_modes;
pub mod arithmetic_instructions;
pub mod branching_instructions;
pub mod execution;
pub mod load_instructions;
pub mod logical_instructions;
pub mod opcodes;
pub mod rmw_instructions;
pub mod snake;
pub mod stack;
pub mod status_flags;
pub mod store_instructions;

use opcodes::OpCode;
use status_flags::{StatusFlag, CARRY, NEGATIVE, OVERFLOW, POWER_ON_STATUS, ZERO};

verus! {

/// Where the processor finds the address at which to start after a reset.
pub const RESET_VECTOR: u16 = 0xFFFC;

/// Where `load` puts a program.
pub const PROGRAM_START: u16 = 0x8000;

/// The stack pointer after power-on and after a reset.
pub const STACK_RESET: u8 = 0xFD;

/// The processor's registers and the bus it drives.
pub struct Machine {
    pub a: u8,
    pub x: u8,
    pub y: u8,
    pub p: u8,
    pub pc: u16,
    pub sp: u8,
    pub indirect_bug: bool,
    pub bus: BusModel,
}

impl Machine {
    /// The carry flag.
    pub open spec fn carry(self) -> bool {
        has_flag(self.p, CARRY)
    }

    /// The zero flag.
    pub open spec fn zero(self) -> bool {
        has_flag(self.p, ZERO)
    }

    /// The overflow flag.
    pub open spec fn overflow(self) -> bool {
        has_flag(self.p, OVERFLOW)
    }

    /// The negative flag.
    pub open spec fn negative(self) -> bool {
        has_flag(self.p, NEGATIVE)
    }
}

/// A processor just built on the bus `bus`.
pub open spec fn power_on_machine(bus: BusModel) -> Machine {
    Machine {
        a: 0,
        x: 0,
        y: 0,
        p: POWER_ON_STATUS,
        pc: 0,
        sp: STACK_RESET,
        indirect_bug: false,
        bus,
    }
}

/// `m` after a reset: the registers cleared, the status and stack pointer
/// at their power-on values, and the program counter taken from the reset
/// vector.
pub open spec fn reset(m: Machine) -> Machine {
    let (bus, start) = read_word(m.bus, RESET_VECTOR);
    Machine { a: 0, x: 0, y: 0, p: POWER_ON_STATUS, pc: start, sp: STACK_RESET, bus, ..m }
}

/// `m` with the program counter moved over the operand bytes of `op`.
pub open spec fn skip_operand(m: Machine, op: OpCode) -> Machine {
    Machine { pc: m.pc.wrapping_add((op.bytes - 1) as u16), ..m }
}

/// `m` with the program counter taken from the reset vector.
pub open spec fn started(m: Machine) -> Machine {
    let (bus, start) = read_word(m.bus, RESET_VECTOR);
    Machine { pc: start, bus, ..m }
}

/// `m` after `program` is loaded at `origin`: the reset vector holds
/// `origin`, and the bytes of the program stand from `origin` on.
pub open spec fn loaded(m: Machine, program: Seq<u8>, origin: u16) -> Machine {
    Machine { bus: write_bytes(write_word(m.bus, RESET_VECTOR, origin), origin, program), ..m }
}

/// The 6502 with its bus.
pub struct CPU {
    pub register_a: u8,
    pub register_x: u8,
    pub register_y: u8,
    pub status: StatusFlag,
    pub program_counter: u16,
    pub stack_pointer: u8,
    pub bus: Bus,
    /// Whether an indirect jump through a pointer at the end of a page takes
    /// the high byte of its target from the start of the same page, as the
    /// chip itself does, instead of from the next page.
    pub indirect_bug_enabled: bool,
}

impl View for CPU {
    type V = Machine;

    open spec fn view(&self) -> Machine {
        Machine {
            a: self.register_a,
            x: self.register_x,
            y: self.register_y,
            p: self.status.0,
            pc: self.program_counter,
            sp: self.stack_pointer,
            indirect_bug: self.indirect_bug_enabled,
            bus: self.bus@,
        }
    }
}

impl MemAccess for CPU {
    open spec fn memory(&self) -> BusModel {
        self.bus@
    }

    fn mem_read(&mut self, addr: u16) -> (value: u8)
        ensures
            final(self)@ == (Machine { bus: bus_read(old(self)@.bus, addr).0, ..old(self)@ }),
    {
        self.bus.mem_read(addr)
    }

    fn mem_write(&mut self, addr: u16, data: u8)
        ensures
            final(self)@ == (Machine { bus: bus_write(old(self)@.bus, addr, data), ..old(self)@ }),
    {
        self.bus.mem_write(addr, data);
    }

    fn mem_read_u16(&mut self, addr: u16) -> (value: u16)
        ensures
            final(self)@ == (Machine { bus: read_word(old(self)@.bus, addr).0, ..old(self)@ }),
    {
        let lo = self.mem_read(addr);
        let hi = self.mem_read(addr.wrapping_add(1));
        make_word(lo, hi)
    }

    fn mem_write_u16(&mut self, addr: u16, data: u16)
        ensures
            final(self)@ == (Machine { bus: write_word(old(self)@.bus, addr, data), ..old(self)@ }),
    {
        let lo = low_byte(data);
        let hi = high_byte(data);
        self.mem_write(addr, lo);
        self.mem_write(addr.wrapping_add(1), hi);
    }
}

impl CPU {
    /// A processor on an empty bus, whose program memory can be written.
    pub fn new() -> (cpu: Self)
        ensures
            cpu@ == power_on_machine(power_on_bus(blank_cartridge(), true)),
    {
        CPU {
            register_a: 0,
            register_x: 0,
            register_y: 0,
            status: StatusFlag(POWER_ON_STATUS),
            program_counter: 0,
            stack_pointer: STACK_RESET,
            indirect_bug_enabled: false,
            bus: Bus::empty(),
        }
    }

    /// A processor on the bus `bus`.
    pub fn new_with_bus(bus: Bus) -> (cpu: Self)
        ensures
            cpu@ == power_on_machine(bus@),
    {
        CPU {
            register_a: 0,
            register_x: 0,
            register_y: 0,
            status: StatusFlag(POWER_ON_STATUS),
            program_counter: 0,
            stack_pointer: STACK_RESET,
            indirect_bug_enabled: false,
            bus,
        }
    }

    /// Loads `program` at `$8000` and points the reset vector there.
    pub fn load(&mut self, program: Vec<u8>)
        ensures
            final(self)@ == loaded(old(self)@, program@, PROGRAM_START),
    {
        self.load_at(program, PROGRAM_START);
    }

    /// Puts the cartridge `rom` on the bus.
    pub fn load_rom(&mut self, rom: Rom)
        ensures
            final(self)@ == (Machine {
                bus: BusModel { rom: rom@, prg_writable: false, ..old(self)@.bus },
                ..old(self)@
            }),
    {
        self.bus.load_rom(rom);
    }

    /// Loads `program` at `origin` and points the reset vector there. The
    /// address after `$FFFF` is `$0000`.
    pub fn load_at(&mut self, program: Vec<u8>, origin: u16)
        ensures
            final(self)@ == loaded(old(self)@, program@, origin),
    {
        self.mem_write_u16(RESET_VECTOR, origin);
        let ghost start = self@.bus;
        let mut addr = origin;
        let mut index: usize = 0;
        assert(program@.subrange(0, program@.len() as int) =~= program@);
        while index < program.len()
            invariant
                index <= program.len(),
                self@ == (Machine { bus: self@.bus, ..old(self)@ }),
                write_bytes(self@.bus, addr, program@.subrange(index as int, program@.len() as int))
                    == write_bytes(start, origin, program@),
            decreases program.len() - index,
        {
            let ghost rest = program@.subrange(index as int, program@.len() as int);
            assert(rest.drop_first() =~= program@.subrange(index + 1, program@.len() as int));
            self.mem_write(addr, program[index]);
            addr = addr.wrapping_add(1);
            index += 1;
        }
    }

    /// Resets the processor.
    pub fn reset(&mut self)
        ensures
            final(self)@ == reset(old(self)@),
    {
        self.register_a = 0;
        self.register_x = 0;
        self.register_y = 0;
        self.status = StatusFlag(POWER_ON_STATUS);
        self.program_counter = self.mem_read_u16(RESET_VECTOR);
        self.stack_pointer = STACK_RESET;
    }

    /// What a read of `addr` would return. Nothing is read, and nothing
    /// changes.
    pub fn peek(&self, addr: u16) -> (value: u8)
        ensures
            value == peek(self@.bus, addr),
    {
        self.bus.peek(addr)
    }

    /// The first access that the hardware does not allow, if there was one.
    pub fn fault(&self) -> (f: Option<Fault>)
        ensures
            f == self@.bus.fault,
    {
        self.bus.fault()
    }
}

/// A second reset changes nothing: resetting a machine that was just reset
/// leaves it as the first reset left it.
pub proof fn lemma_reset_twice(m: Machine)
    ensures
        reset(reset(m)) == reset(m),
{
    lemma_rom_read(m.bus, RESET_VECTOR);
    lemma_rom_read(m.bus, RESET_VECTOR.wrapping_add(1));
}

} // verus!
