//! One line of text per instruction, in the layout of the well-known
//! reference logs of the processor:
//!
//! ```text
//! C000  4C F5 C5  JMP $C5F5                       A:00 X:00 Y:00 P:24 SP:FD
//! C5F7  86 00     STX $00 = 00                    A:00 X:00 Y:00 P:26 SP:FD
//! ```
//!
//! The line starts with the program counter and the bytes of the
//! instruction, two digits per byte. Then come the name of the instruction
//! and its operand, and from column 48 on the registers. All numbers are in
//! capital hexadecimal digits.
//!
//! The operand is shown as the assembler writes it, followed by what the
//! instruction will find:
//!
//! | Mode                | Text                          |
//! |---------------------|-------------------------------|
//! | accumulator         | `A`                           |
//! | immediate           | `#$10`                        |
//! | zero page           | `$10 = VV`                    |
//! | zero page, indexed  | `$10,X @ EE = VV`             |
//! | relative            | `$EEEE`                       |
//! | absolute            | `$1234 = VV`                  |
//! | absolute, indexed   | `$1234,X @ EEEE = VV`         |
//! | indirect            | `($1234) = EEEE`              |
//! | indexed indirect    | `($10,X) @ PP = EEEE = VV`    |
//! | indirect indexed    | `($10),Y = EEEE @ EEEE = VV`  |
//!
//! `EEEE` is the operand's address, `VV` the byte there and `PP` the place
//! of the pointer in page zero. A jump and a call show their target alone.
//!
//! Tracing looks at memory without reading it: whatever a read would do to
//! the bus does not happen.

use crate::bits::{displacement, high, high_byte, low, low_byte, make_word, word, wrap16};
use crate::bus::{lemma_quiet_read, peek, quiet, BusModel};
use crate::cpu::addressing_modes::{high_byte_address, operand_address, AddressingMode};
use crate::cpu::opcodes::{decode, decoded, lemma_three_letters, Mnemonic, OpCode};
use crate::cpu::{Machine, CPU};
use vstd::prelude::*;

verus! {

/// `String::push` of the standard library: the character is appended to the
/// end of the string.
pub assume_specification[ String::push ](s: &mut String, ch: char)
    ensures
        final(s)@ == old(s)@.push(ch),
;

/// `String::push_str` of the standard library: the slice is appended to the
/// end of the string.
pub assume_specification[ String::push_str ](s: &mut String, string: &str)
    ensures
        final(s)@ == old(s)@ + string@,
;

/// The column in which the registers start.
pub const REGISTERS_COLUMN: usize = 48;

/// The sixteen hexadecimal digits.
pub open spec fn hex_digits() -> Seq<char> {
    seq!['0', '1', '2', '3', '4', '5', '6', '7', '8', '9', 'A', 'B', 'C', 'D', 'E', 'F']
}

/// `v` as two hexadecimal digits.
pub open spec fn hex_byte(v: u8) -> Seq<char> {
    seq![hex_digits()[v as int / 16], hex_digits()[v as int % 16]]
}

/// `v` as four hexadecimal digits.
pub open spec fn hex_word(v: u16) -> Seq<char> {
    hex_byte(high(v)) + hex_byte(low(v))
}

/// `n` spaces.
pub open spec fn spaces(n: nat) -> Seq<char> {
    Seq::new(n, |i: int| ' ')
}

/// ` = `, which stands before what is found at a place.
pub open spec fn equals() -> Seq<char> {
    seq![' ', '=', ' ']
}

/// ` @ `, which stands before the place that indexing leads to.
pub open spec fn at_mark() -> Seq<char> {
    seq![' ', '@', ' ']
}

/// The operand bytes of an instruction, five characters wide: two digits or
/// two spaces for each of the two bytes that an operand can have, with a
/// space between them.
pub open spec fn operand_bytes_text(op: OpCode, first: u8, second: u8) -> Seq<char> {
    (if op.bytes > 1 {
        hex_byte(first)
    } else {
        spaces(2)
    }) + spaces(1) + (if op.bytes > 2 {
        hex_byte(second)
    } else {
        spaces(2)
    })
}

/// The address of the operand of the instruction at the program counter of
/// `m`, found by peeking; for a branch, its target.
pub open spec fn shown_address(m: Machine, mode: AddressingMode) -> u16 {
    let at = m.pc.wrapping_add(1);
    let first = peek(m.bus, at);
    let second = peek(m.bus, at.wrapping_add(1));
    match mode {
        AddressingMode::ZeroPage => first as u16,
        AddressingMode::ZeroPageX => first.wrapping_add(m.x) as u16,
        AddressingMode::ZeroPageY => first.wrapping_add(m.y) as u16,
        AddressingMode::Absolute => word(first, second),
        AddressingMode::AbsoluteX => word(first, second).wrapping_add(m.x as u16),
        AddressingMode::AbsoluteY => word(first, second).wrapping_add(m.y as u16),
        AddressingMode::Indirect => {
            let ptr = word(first, second);
            word(peek(m.bus, ptr), peek(m.bus, high_byte_address(ptr, m.indirect_bug)))
        },
        AddressingMode::IndirectX => shown_pointer(m.bus, first.wrapping_add(m.x)),
        AddressingMode::IndirectY => shown_pointer(m.bus, first.wrapping_add(m.y)),
        AddressingMode::Relative => wrap16(m.pc + 2 + displacement(first)),
        _ => at,
    }
}

/// The pointer at `ptr` in page zero, found by peeking.
pub open spec fn shown_pointer(b: BusModel, ptr: u8) -> u16 {
    word(peek(b, ptr as u16), peek(b, ptr.wrapping_add(1) as u16))
}

/// Where reading the operand bytes and the pointers behind them disturbs
/// nothing, the address shown is the address that the instruction will work
/// on.
pub proof fn lemma_shown_address(m: Machine, mode: AddressingMode)
    requires
        mode.has_address(),
        quiet(m.pc.wrapping_add(1)),
        quiet(m.pc.wrapping_add(2)),
        mode is Indirect ==> quiet(shown_pointer_word(m)) && quiet(
            high_byte_address(shown_pointer_word(m), m.indirect_bug),
        ),
    ensures
        operand_address(Machine { pc: m.pc.wrapping_add(1), ..m }, mode) == (
            m.bus,
            shown_address(m, mode),
        ),
{
    reveal(operand_address);
    let at = m.pc.wrapping_add(1);
    lemma_quiet_read(m.bus, at);
    lemma_quiet_read(m.bus, at.wrapping_add(1));
    let first = peek(m.bus, at);
    lemma_quiet_read(m.bus, first.wrapping_add(m.x) as u16);
    lemma_quiet_read(m.bus, first.wrapping_add(m.x).wrapping_add(1) as u16);
    lemma_quiet_read(m.bus, first.wrapping_add(m.y) as u16);
    lemma_quiet_read(m.bus, first.wrapping_add(m.y).wrapping_add(1) as u16);
    if mode is Indirect {
        let ptr = shown_pointer_word(m);
        lemma_quiet_read(m.bus, ptr);
        lemma_quiet_read(m.bus, high_byte_address(ptr, m.indirect_bug));
    }
}

/// The word that follows the opcode at the program counter of `m`.
pub open spec fn shown_pointer_word(m: Machine) -> u16 {
    word(peek(m.bus, m.pc.wrapping_add(1)), peek(m.bus, m.pc.wrapping_add(2)))
}

/// Whether the instruction shows its target alone.
pub open spec fn shows_target_alone(instruction: Mnemonic) -> bool {
    instruction is Jmp || instruction is Jsr
}

/// The operand of the instruction `op` at the program counter of `m`.
pub open spec fn operand_text(m: Machine, op: OpCode) -> Seq<char> {
    let at = m.pc.wrapping_add(1);
    let first = peek(m.bus, at);
    let second = peek(m.bus, at.wrapping_add(1));
    let addr = shown_address(m, op.addressing_mode);
    let value = peek(m.bus, addr);
    match op.addressing_mode {
        AddressingMode::Implied => Seq::empty(),
        AddressingMode::Accumulator => seq!['A'],
        AddressingMode::Immediate => seq!['#', '$'] + hex_byte(first),
        AddressingMode::ZeroPage => seq!['$'] + hex_byte(first) + equals() + hex_byte(value),
        AddressingMode::ZeroPageX => seq!['$'] + hex_byte(first) + seq![',', 'X'] + at_mark()
            + hex_byte(low(addr)) + equals() + hex_byte(value),
        AddressingMode::ZeroPageY => seq!['$'] + hex_byte(first) + seq![',', 'Y'] + at_mark()
            + hex_byte(low(addr)) + equals() + hex_byte(value),
        AddressingMode::Relative => seq!['$'] + hex_word(addr),
        AddressingMode::Absolute => if shows_target_alone(op.instruction) {
            seq!['$'] + hex_word(addr)
        } else {
            seq!['$'] + hex_word(addr) + equals() + hex_byte(value)
        },
        AddressingMode::AbsoluteX => seq!['$'] + hex_word(word(first, second)) + seq![',', 'X']
            + at_mark() + hex_word(addr) + equals() + hex_byte(value),
        AddressingMode::AbsoluteY => seq!['$'] + hex_word(word(first, second)) + seq![',', 'Y']
            + at_mark() + hex_word(addr) + equals() + hex_byte(value),
        AddressingMode::Indirect => seq!['(', '$'] + hex_word(word(first, second)) + seq![')']
            + equals() + hex_word(addr),
        AddressingMode::IndirectX => seq!['(', '$'] + hex_byte(first) + seq![',', 'X', ')']
            + at_mark() + hex_byte(first.wrapping_add(m.x)) + equals() + hex_word(addr)
            + equals() + hex_byte(value),
        AddressingMode::IndirectY => seq!['(', '$'] + hex_byte(first) + seq![')', ',', 'Y']
            + equals() + hex_word(addr) + at_mark() + hex_word(addr) + equals() + hex_byte(
            value,
        ),
    }
}

/// How many characters the operand of `op` takes.
pub open spec fn operand_width(op: OpCode) -> nat {
    match op.addressing_mode {
        AddressingMode::Implied => 0,
        AddressingMode::Accumulator => 1,
        AddressingMode::Immediate => 4,
        AddressingMode::ZeroPage => 8,
        AddressingMode::ZeroPageX | AddressingMode::ZeroPageY => 15,
        AddressingMode::Relative => 5,
        AddressingMode::Absolute => if shows_target_alone(op.instruction) {
            5
        } else {
            10
        },
        AddressingMode::AbsoluteX | AddressingMode::AbsoluteY => 19,
        AddressingMode::Indirect => 14,
        AddressingMode::IndirectX => 24,
        AddressingMode::IndirectY => 26,
    }
}

/// The registers of `m`: `A:`, `X:`, `Y:`, `P:` and `SP:`, each with two
/// digits.
pub open spec fn registers_text(m: Machine) -> Seq<char> {
    seq!['A', ':'] + hex_byte(m.a) + seq![' ', 'X', ':'] + hex_byte(m.x) + seq![' ', 'Y', ':']
        + hex_byte(m.y) + seq![' ', 'P', ':'] + hex_byte(m.p) + seq![' ', 'S', 'P', ':']
        + hex_byte(m.sp)
}

/// The line for the instruction at the program counter of `m`.
pub open spec fn trace_line(m: Machine) -> Seq<char> {
    let opcode = peek(m.bus, m.pc);
    let op = decoded(opcode)->Some_0;
    let first = peek(m.bus, m.pc.wrapping_add(1));
    let second = peek(m.bus, m.pc.wrapping_add(2));
    Seq::<char>::empty() + hex_word(m.pc) + spaces(2) + hex_byte(opcode) + spaces(1)
        + operand_bytes_text(op, first, second) + spaces(2) + op.instruction.letters()
        + spaces(1) + operand_text(m, op) + spaces((28 - operand_width(op)) as nat)
        + registers_text(m)
}

/// Every line is 73 characters long, and its registers start in column 48.
pub proof fn lemma_line_layout(m: Machine)
    requires
        decoded(peek(m.bus, m.pc)) is Some,
    ensures
        trace_line(m).len() == 73,
        trace_line(m).subrange(REGISTERS_COLUMN as int, 73) == registers_text(m),
{
    let op = decoded(peek(m.bus, m.pc))->Some_0;
    lemma_three_letters(op.instruction);
    assert(operand_text(m, op).len() == operand_width(op));
    assert(registers_text(m).len() == 25);
    let before = trace_line(m).subrange(0, REGISTERS_COLUMN as int);
    assert(trace_line(m) =~= before + registers_text(m));
    assert(trace_line(m).subrange(REGISTERS_COLUMN as int, 73) =~= registers_text(m));
}

/// The hexadecimal digit for `n`.
fn hex_char(n: u8) -> (c: char)
    requires
        n < 16,
    ensures
        c == hex_digits()[n as int],
{
    match n {
        0 => '0',
        1 => '1',
        2 => '2',
        3 => '3',
        4 => '4',
        5 => '5',
        6 => '6',
        7 => '7',
        8 => '8',
        9 => '9',
        10 => 'A',
        11 => 'B',
        12 => 'C',
        13 => 'D',
        14 => 'E',
        _ => 'F',
    }
}

/// Appends `v` as two hexadecimal digits.
fn push_hex_byte(line: &mut String, v: u8)
    ensures
        final(line)@ == old(line)@ + hex_byte(v),
{
    line.push(hex_char(v / 16));
    line.push(hex_char(v % 16));
    assert(line@ =~= old(line)@ + hex_byte(v));
}

/// Appends `v` as four hexadecimal digits.
fn push_hex_word(line: &mut String, v: u16)
    ensures
        final(line)@ == old(line)@ + hex_word(v),
{
    push_hex_byte(line, high_byte(v));
    push_hex_byte(line, low_byte(v));
    assert(line@ =~= old(line)@ + hex_word(v));
}

/// Appends `n` spaces.
fn push_spaces(line: &mut String, n: usize)
    ensures
        final(line)@ == old(line)@ + spaces(n as nat),
{
    let mut i: usize = 0;
    assert(line@ =~= old(line)@ + spaces(0));
    while i < n
        invariant
            i <= n,
            line@ == old(line)@ + spaces(i as nat),
        decreases n - i,
    {
        line.push(' ');
        i += 1;
        assert(line@ =~= old(line)@ + spaces(i as nat));
    }
}

/// Appends one character.
fn push_one(line: &mut String, a: char)
    ensures
        final(line)@ == old(line)@ + seq![a],
{
    line.push(a);
    assert(line@ =~= old(line)@ + seq![a]);
}

/// Appends two characters.
fn push_two(line: &mut String, a: char, b: char)
    ensures
        final(line)@ == old(line)@ + seq![a, b],
{
    line.push(a);
    line.push(b);
    assert(line@ =~= old(line)@ + seq![a, b]);
}

/// Appends three characters.
fn push_three(line: &mut String, a: char, b: char, c: char)
    ensures
        final(line)@ == old(line)@ + seq![a, b, c],
{
    line.push(a);
    line.push(b);
    line.push(c);
    assert(line@ =~= old(line)@ + seq![a, b, c]);
}

/// Appends ` = `.
fn push_equals(line: &mut String)
    ensures
        final(line)@ == old(line)@ + equals(),
{
    push_three(line, ' ', '=', ' ');
}

/// Appends ` @ `.
fn push_at_mark(line: &mut String)
    ensures
        final(line)@ == old(line)@ + at_mark(),
{
    push_three(line, ' ', '@', ' ');
}

/// Appends the operand bytes.
fn push_operand_bytes(line: &mut String, op: &OpCode, first: u8, second: u8)
    ensures
        final(line)@ == old(line)@ + operand_bytes_text(*op, first, second),
{
    if op.bytes > 1 {
        push_hex_byte(line, first);
    } else {
        push_spaces(line, 2);
    }
    push_spaces(line, 1);
    if op.bytes > 2 {
        push_hex_byte(line, second);
    } else {
        push_spaces(line, 2);
    }
    assert(line@ =~= old(line)@ + operand_bytes_text(*op, first, second));
}

/// Finds by peeking the pointer at `ptr` in page zero.
fn peek_pointer(cpu: &CPU, ptr: u8) -> (addr: u16)
    ensures
        addr == shown_pointer(cpu@.bus, ptr),
{
    let lo = cpu.peek(ptr as u16);
    let hi = cpu.peek(ptr.wrapping_add(1) as u16);
    make_word(lo, hi)
}

/// Finds by peeking the address of the operand of the instruction at the
/// program counter; for a branch, its target.
pub fn peek_operand_address(cpu: &CPU, mode: &AddressingMode) -> (addr: u16)
    ensures
        addr == shown_address(cpu@, *mode),
{
    let at = cpu.program_counter.wrapping_add(1);
    let first = cpu.peek(at);
    let second = cpu.peek(at.wrapping_add(1));
    match mode {
        AddressingMode::ZeroPage => first as u16,
        AddressingMode::ZeroPageX => first.wrapping_add(cpu.register_x) as u16,
        AddressingMode::ZeroPageY => first.wrapping_add(cpu.register_y) as u16,
        AddressingMode::Absolute => make_word(first, second),
        AddressingMode::AbsoluteX => make_word(first, second).wrapping_add(cpu.register_x as u16),
        AddressingMode::AbsoluteY => make_word(first, second).wrapping_add(cpu.register_y as u16),
        AddressingMode::Indirect => {
            let ptr = make_word(first, second);
            let hi_addr = if cpu.indirect_bug_enabled && ptr % 256 == 255 {
                ptr - 255
            } else {
                ptr.wrapping_add(1)
            };
            make_word(cpu.peek(ptr), cpu.peek(hi_addr))
        },
        AddressingMode::IndirectX => peek_pointer(cpu, first.wrapping_add(cpu.register_x)),
        AddressingMode::IndirectY => peek_pointer(cpu, first.wrapping_add(cpu.register_y)),
        AddressingMode::Relative => crate::bits::displace(at.wrapping_add(1), first),
        _ => at,
    }
}

/// Appends the operand of `op`. Returns how many characters that were.
fn push_operand(line: &mut String, cpu: &CPU, op: &OpCode) -> (width: usize)
    ensures
        final(line)@ == old(line)@ + operand_text(cpu@, *op),
        width == operand_width(*op),
{
    let at = cpu.program_counter.wrapping_add(1);
    let first = cpu.peek(at);
    let second = cpu.peek(at.wrapping_add(1));
    let addr = peek_operand_address(cpu, &op.addressing_mode);
    let value = cpu.peek(addr);
    let target_alone = match op.instruction {
        Mnemonic::Jmp | Mnemonic::Jsr => true,
        _ => false,
    };
    let width: usize = match op.addressing_mode {
        AddressingMode::Implied => 0,
        AddressingMode::Accumulator => {
            push_one(line, 'A');
            1
        },
        AddressingMode::Immediate => {
            push_two(line, '#', '$');
            push_hex_byte(line, first);
            4
        },
        AddressingMode::ZeroPage => {
            push_one(line, '$');
            push_hex_byte(line, first);
            push_equals(line);
            push_hex_byte(line, value);
            8
        },
        AddressingMode::ZeroPageX => {
            push_one(line, '$');
            push_hex_byte(line, first);
            push_two(line, ',', 'X');
            push_at_mark(line);
            push_hex_byte(line, low_byte(addr));
            push_equals(line);
            push_hex_byte(line, value);
            15
        },
        AddressingMode::ZeroPageY => {
            push_one(line, '$');
            push_hex_byte(line, first);
            push_two(line, ',', 'Y');
            push_at_mark(line);
            push_hex_byte(line, low_byte(addr));
            push_equals(line);
            push_hex_byte(line, value);
            15
        },
        AddressingMode::Relative => {
            push_one(line, '$');
            push_hex_word(line, addr);
            5
        },
        AddressingMode::Absolute => {
            push_one(line, '$');
            push_hex_word(line, addr);
            if target_alone {
                5
            } else {
                push_equals(line);
                push_hex_byte(line, value);
                10
            }
        },
        AddressingMode::AbsoluteX => {
            push_one(line, '$');
            push_hex_word(line, make_word(first, second));
            push_two(line, ',', 'X');
            push_at_mark(line);
            push_hex_word(line, addr);
            push_equals(line);
            push_hex_byte(line, value);
            19
        },
        AddressingMode::AbsoluteY => {
            push_one(line, '$');
            push_hex_word(line, make_word(first, second));
            push_two(line, ',', 'Y');
            push_at_mark(line);
            push_hex_word(line, addr);
            push_equals(line);
            push_hex_byte(line, value);
            19
        },
        AddressingMode::Indirect => {
            push_two(line, '(', '$');
            push_hex_word(line, make_word(first, second));
            push_one(line, ')');
            push_equals(line);
            push_hex_word(line, addr);
            14
        },
        AddressingMode::IndirectX => {
            push_two(line, '(', '$');
            push_hex_byte(line, first);
            push_three(line, ',', 'X', ')');
            push_at_mark(line);
            push_hex_byte(line, first.wrapping_add(cpu.register_x));
            push_equals(line);
            push_hex_word(line, addr);
            push_equals(line);
            push_hex_byte(line, value);
            24
        },
        AddressingMode::IndirectY => {
            push_two(line, '(', '$');
            push_hex_byte(line, first);
            push_three(line, ')', ',', 'Y');
            push_equals(line);
            push_hex_word(line, addr);
            push_at_mark(line);
            push_hex_word(line, addr);
            push_equals(line);
            push_hex_byte(line, value);
            26
        },
    };
    assert(line@ =~= old(line)@ + operand_text(cpu@, *op));
    width
}

/// Appends the registers.
fn push_registers(line: &mut String, cpu: &CPU)
    ensures
        final(line)@ == old(line)@ + registers_text(cpu@),
{
    push_two(line, 'A', ':');
    push_hex_byte(line, cpu.register_a);
    push_three(line, ' ', 'X', ':');
    push_hex_byte(line, cpu.register_x);
    push_three(line, ' ', 'Y', ':');
    push_hex_byte(line, cpu.register_y);
    push_three(line, ' ', 'P', ':');
    push_hex_byte(line, cpu.status.0);
    push_two(line, ' ', 'S');
    push_two(line, 'P', ':');
    push_hex_byte(line, cpu.stack_pointer);
    assert(line@ =~= old(line)@ + registers_text(cpu@));
}

/// Describes the instruction at the program counter in one line.
///
/// The byte at the program counter has to be an opcode of the instruction
/// table.
pub fn trace(cpu: &CPU) -> (line: String)
    requires
        decoded(peek(cpu@.bus, cpu@.pc)) is Some,
    ensures
        line@ == trace_line(cpu@),
{
    let mut line = String::new();
    let pc = cpu.program_counter;
    let op_code_byte = cpu.peek(pc);
    let op_code = match decode(op_code_byte) {
        Some(op) => op,
        None => {
            return line;
        },
    };
    let first = cpu.peek(pc.wrapping_add(1));
    let second = cpu.peek(pc.wrapping_add(2));
    push_hex_word(&mut line, pc);
    push_spaces(&mut line, 2);
    push_hex_byte(&mut line, op_code_byte);
    push_spaces(&mut line, 1);
    push_operand_bytes(&mut line, &op_code, first, second);
    push_spaces(&mut line, 2);
    line.push_str(op_code.instruction.name());
    push_spaces(&mut line, 1);
    let width = push_operand(&mut line, cpu, &op_code);
    push_spaces(&mut line, 28 - width);
    push_registers(&mut line, cpu);
    line
}

} // verus!
