//! The ways in which an instruction finds its operand.

use crate::MemAccess;
use crate::bits::{make_word, word};
use crate::bus::{bus_read, bus_write, lemma_ram_read, read_word, BusModel};
use super::{Machine, CPU};
use vstd::prelude::*;

verus! {

/// How an instruction finds its operand. The operand bytes follow the opcode.
#[derive(Clone, Copy, Debug, PartialEq, Eq, Structural)]
pub enum AddressingMode {
    /// The operand is the byte that follows the opcode.
    Immediate,
    /// The operand is the accumulator.
    Accumulator,
    /// The byte that follows is an address in page zero.
    ZeroPage,
    /// The byte that follows, plus X, is an address in page zero.
    ZeroPageX,
    /// The byte that follows, plus Y, is an address in page zero.
    ZeroPageY,
    /// The word that follows is the address.
    Absolute,
    /// The word that follows, plus X, is the address.
    AbsoluteX,
    /// The word that follows, plus Y, is the address.
    AbsoluteY,
    /// The word that follows is the address of the address.
    Indirect,
    /// The byte that follows, plus X, is where in page zero the address is.
    IndirectX,
    /// The byte that follows, plus Y, is where in page zero the address is.
    IndirectY,
    /// There is no operand.
    Implied,
    /// The byte that follows is a signed distance to jump.
    Relative,
}

impl AddressingMode {
    /// Whether the operand is a cell of memory, which has an address.
    pub open spec fn has_address(self) -> bool {
        !(self is Implied || self is Accumulator || self is Relative)
    }

    /// Bytes in an instruction with this mode: the opcode, and one byte of
    /// operand, two for a full address, none where nothing follows.
    pub open spec fn instruction_length(self) -> u16 {
        match self {
            AddressingMode::Implied | AddressingMode::Accumulator => 1,
            AddressingMode::Absolute
            | AddressingMode::AbsoluteX
            | AddressingMode::AbsoluteY
            | AddressingMode::Indirect => 3,
            _ => 2,
        }
    }
}

/// The address of the operand of the instruction whose operand bytes start
/// at the program counter of `m`, and the bus after the reads that finding
/// it takes.
///
/// Indexing in page zero stays in page zero: the sum of the operand byte
/// and the index register is taken modulo 256, and so is the address of the
/// high byte of a pointer that is read from page zero. For both indirect
/// indexed modes the index register is added to the operand byte, before the
/// pointer is read. An indirect jump reads the high byte of its target from
/// the address after the pointer, or, on a machine with the page-wrap defect
/// and a pointer at the last byte of a page, from the first byte of that page.
///
/// Modes without an address give the program counter itself.
#[verifier::opaque]
pub open spec fn operand_address(m: Machine, mode: AddressingMode) -> (BusModel, u16) {
    match mode {
        AddressingMode::ZeroPage => {
            let (bus, base) = bus_read(m.bus, m.pc);
            (bus, base as u16)
        },
        AddressingMode::ZeroPageX => {
            let (bus, base) = bus_read(m.bus, m.pc);
            (bus, base.wrapping_add(m.x) as u16)
        },
        AddressingMode::ZeroPageY => {
            let (bus, base) = bus_read(m.bus, m.pc);
            (bus, base.wrapping_add(m.y) as u16)
        },
        AddressingMode::Absolute => read_word(m.bus, m.pc),
        AddressingMode::AbsoluteX => {
            let (bus, base) = read_word(m.bus, m.pc);
            (bus, base.wrapping_add(m.x as u16))
        },
        AddressingMode::AbsoluteY => {
            let (bus, base) = read_word(m.bus, m.pc);
            (bus, base.wrapping_add(m.y as u16))
        },
        AddressingMode::Indirect => {
            let (bus, ptr) = read_word(m.bus, m.pc);
            let (bus1, lo) = bus_read(bus, ptr);
            let (bus2, hi) = bus_read(bus1, high_byte_address(ptr, m.indirect_bug));
            (bus2, word(lo, hi))
        },
        AddressingMode::IndirectX => {
            let (bus, base) = bus_read(m.bus, m.pc);
            zero_page_pointer(bus, base.wrapping_add(m.x))
        },
        AddressingMode::IndirectY => {
            let (bus, base) = bus_read(m.bus, m.pc);
            zero_page_pointer(bus, base.wrapping_add(m.y))
        },
        _ => (m.bus, m.pc),
    }
}

/// Where an indirect jump through `ptr` reads the high byte of its target.
pub open spec fn high_byte_address(ptr: u16, indirect_bug: bool) -> u16 {
    if indirect_bug && ptr % 256 == 255 {
        (ptr - 255) as u16
    } else {
        ptr.wrapping_add(1)
    }
}

/// A read of the pointer at `ptr` in page zero, whose high byte is at
/// `ptr + 1` modulo 256.
pub open spec fn zero_page_pointer(b: BusModel, ptr: u8) -> (BusModel, u16) {
    let (bus1, lo) = bus_read(b, ptr as u16);
    let (bus2, hi) = bus_read(bus1, ptr.wrapping_add(1) as u16);
    (bus2, word(lo, hi))
}

/// What an instruction works on: the accumulator, or the cell of memory at
/// an address.
#[derive(Clone, Copy, Debug, PartialEq, Eq, Structural)]
pub enum Target {
    Accumulator,
    Memory(u16),
}

/// The operand of an instruction that reads it: the machine after the reads,
/// the operand's address and its value.
pub struct Operand {
    pub after: Machine,
    pub addr: u16,
    pub value: u8,
}

/// The operand of an instruction with mode `mode` on `m`.
pub open spec fn operand(m: Machine, mode: AddressingMode) -> Operand {
    let (bus, addr) = operand_address(m, mode);
    let (bus1, value) = bus_read(bus, addr);
    Operand { after: Machine { bus: bus1, ..m }, addr, value }
}

/// What an instruction with mode `mode` works on, and the value found there.
pub struct Located {
    pub after: Machine,
    pub target: Target,
    pub value: u8,
}

/// The target of an instruction with mode `mode` on `m`: the accumulator in
/// accumulator mode, else the cell at the operand's address.
pub open spec fn locate(m: Machine, mode: AddressingMode) -> Located {
    if mode is Accumulator {
        Located { after: m, target: Target::Accumulator, value: m.a }
    } else {
        let found = operand(m, mode);
        Located { after: found.after, target: Target::Memory(found.addr), value: found.value }
    }
}

/// `m` after `value` is stored in `target`.
pub open spec fn store(m: Machine, target: Target, value: u8) -> Machine {
    match target {
        Target::Accumulator => Machine { a: value, ..m },
        Target::Memory(addr) => Machine { bus: bus_write(m.bus, addr, value), ..m },
    }
}

impl CPU {
    /// Finds the address of the operand whose bytes start at the program
    /// counter.
    pub fn get_operand_address(&mut self, mode: &AddressingMode) -> (addr: u16)
        requires
            mode.has_address(),
        ensures
            final(self)@ == (Machine { bus: operand_address(old(self)@, *mode).0, ..old(self)@ }),
            addr == operand_address(old(self)@, *mode).1,
    {
        reveal(operand_address);
        match mode {
            AddressingMode::Immediate => self.program_counter,
            AddressingMode::ZeroPage => self.mem_read(self.program_counter) as u16,
            AddressingMode::ZeroPageX => {
                let base = self.mem_read(self.program_counter);
                base.wrapping_add(self.register_x) as u16
            },
            AddressingMode::ZeroPageY => {
                let base = self.mem_read(self.program_counter);
                base.wrapping_add(self.register_y) as u16
            },
            AddressingMode::Absolute => self.mem_read_u16(self.program_counter),
            AddressingMode::AbsoluteX => {
                let base = self.mem_read_u16(self.program_counter);
                base.wrapping_add(self.register_x as u16)
            },
            AddressingMode::AbsoluteY => {
                let base = self.mem_read_u16(self.program_counter);
                base.wrapping_add(self.register_y as u16)
            },
            AddressingMode::Indirect => {
                let ptr = self.mem_read_u16(self.program_counter);
                let lo = self.mem_read(ptr);
                let hi_addr = if self.indirect_bug_enabled && ptr % 256 == 255 {
                    ptr - 255
                } else {
                    ptr.wrapping_add(1)
                };
                let hi = self.mem_read(hi_addr);
                make_word(lo, hi)
            },
            AddressingMode::IndirectX => {
                let base = self.mem_read(self.program_counter);
                let ptr = base.wrapping_add(self.register_x);
                let lo = self.mem_read(ptr as u16);
                let hi = self.mem_read(ptr.wrapping_add(1) as u16);
                make_word(lo, hi)
            },
            AddressingMode::IndirectY => {
                let base = self.mem_read(self.program_counter);
                let ptr = base.wrapping_add(self.register_y);
                let lo = self.mem_read(ptr as u16);
                let hi = self.mem_read(ptr.wrapping_add(1) as u16);
                make_word(lo, hi)
            },
            _ => self.program_counter,
        }
    }

    /// Reads the operand: its address and its value.
    pub fn read_operand(&mut self, mode: &AddressingMode) -> (found: (u16, u8))
        requires
            mode.has_address(),
        ensures
            final(self)@ == operand(old(self)@, *mode).after,
            found.0 == operand(old(self)@, *mode).addr,
            found.1 == operand(old(self)@, *mode).value,
    {
        let addr = self.get_operand_address(mode);
        let value = self.mem_read(addr);
        (addr, value)
    }

    /// Finds what an instruction that can work on the accumulator works on,
    /// and reads the value there.
    pub fn get_val_and_mem_ptr(&mut self, mode: &AddressingMode) -> (found: (u8, Target))
        requires
            mode.has_address() || *mode is Accumulator,
        ensures
            final(self)@ == locate(old(self)@, *mode).after,
            found.0 == locate(old(self)@, *mode).value,
            found.1 == locate(old(self)@, *mode).target,
    {
        match mode {
            AddressingMode::Accumulator => (self.register_a, Target::Accumulator),
            _ => {
                let (addr, value) = self.read_operand(mode);
                (value, Target::Memory(addr))
            },
        }
    }

    /// Stores `value` in `target`.
    pub fn write_target(&mut self, target: Target, value: u8)
        ensures
            final(self)@ == store(old(self)@, target, value),
    {
        match target {
            Target::Accumulator => {
                self.register_a = value;
            },
            Target::Memory(addr) => {
                self.mem_write(addr, value);
            },
        }
    }
}

/// A pointer in page zero stays in page zero: its low byte is the cell at
/// `ptr`, its high byte the cell at `ptr + 1` modulo 256, so that a pointer
/// at `$FF` has its high byte at `$00`. Reading it changes nothing.
pub proof fn lemma_zero_page_pointer_wraps(b: BusModel, ptr: u8)
    ensures
        zero_page_pointer(b, ptr) == (b, word(b.ram[ptr as int], b.ram[(ptr + 1) % 256])),
{
    lemma_ram_read(b, ptr as u16);
    lemma_ram_read(b, ptr.wrapping_add(1) as u16);
}

/// Both indirect indexed modes find their pointer in page zero at the sum,
/// modulo 256, of the operand byte and the index register.
pub proof fn lemma_indexed_pointer(m: Machine)
    ensures
        operand_address(m, AddressingMode::IndirectX) == zero_page_pointer(
            bus_read(m.bus, m.pc).0,
            ((bus_read(m.bus, m.pc).1 + m.x) % 256) as u8,
        ),
        operand_address(m, AddressingMode::IndirectY) == zero_page_pointer(
            bus_read(m.bus, m.pc).0,
            ((bus_read(m.bus, m.pc).1 + m.y) % 256) as u8,
        ),
{
    reveal(operand_address);
}

/// The page-wrap defect of the indirect jump: on a machine with the defect,
/// a pointer whose low byte is `$FF` has the high byte of its target read
/// from the first byte of the pointer's own page; in every other case the
/// high byte is read from the address after the pointer.
pub proof fn lemma_indirect_jump_defect(m: Machine)
    ensures
        ({
            let (bus, ptr) = read_word(m.bus, m.pc);
            let (bus1, lo) = bus_read(bus, ptr);
            let hi_addr = if m.indirect_bug && ptr & 0x00FF == 0x00FF {
                ptr & 0xFF00
            } else {
                ptr.wrapping_add(1)
            };
            let (bus2, hi) = bus_read(bus1, hi_addr);
            operand_address(m, AddressingMode::Indirect) == (bus2, word(lo, hi))
        }),
{
    reveal(operand_address);
    let ptr = read_word(m.bus, m.pc).1;
    assert((ptr & 0x00FF == 0x00FF) == (ptr % 256 == 255)) by (bit_vector);
    assert(ptr % 256 == 255 ==> ptr & 0xFF00 == ptr - 255) by (bit_vector);
}

} // verus!
