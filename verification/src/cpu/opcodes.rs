//! The instruction table: what each opcode byte stands for.
//!
//! The table holds every documented instruction and these unofficial ones:
//! the one-byte `NOP`s, `SKB`, `IGN`, `LAX`, `SAX`, `DCP`, `ISC`, `SLO`, `RLA`,
//! `SRE` and `RRA`.

use super::addressing_modes::AddressingMode;
use vstd::prelude::*;

verus! {

/// What an instruction does, by its three-letter name.
#[derive(Clone, Copy, Debug, PartialEq, Eq, Structural)]
pub enum Mnemonic {
    /// `ADC`: add memory and carry to the accumulator.
    Adc,
    /// `AND`: and memory into the accumulator.
    And,
    /// `ASL`: shift left.
    Asl,
    /// `BCC`: branch when carry is clear.
    Bcc,
    /// `BCS`: branch when carry is set.
    Bcs,
    /// `BEQ`: branch when zero is set.
    Beq,
    /// `BIT`: test memory bits against the accumulator.
    Bit,
    /// `BMI`: branch when negative is set.
    Bmi,
    /// `BNE`: branch when zero is clear.
    Bne,
    /// `BPL`: branch when negative is clear.
    Bpl,
    /// `BRK`: stop.
    Brk,
    /// `BVC`: branch when overflow is clear.
    Bvc,
    /// `BVS`: branch when overflow is set.
    Bvs,
    /// `CLC`: clear carry.
    Clc,
    /// `CLD`: clear decimal.
    Cld,
    /// `CLI`: clear interrupt disable.
    Cli,
    /// `CLV`: clear overflow.
    Clv,
    /// `CMP`: compare memory with the accumulator.
    Cmp,
    /// `CPX`: compare memory with X.
    Cpx,
    /// `CPY`: compare memory with Y.
    Cpy,
    /// `DCP`: decrement memory, then compare it with the accumulator. Unofficial.
    Dcp,
    /// `DEC`: decrement memory.
    Dec,
    /// `DEX`: decrement X.
    Dex,
    /// `DEY`: decrement Y.
    Dey,
    /// `EOR`: exclusive-or memory into the accumulator.
    Eor,
    /// `IGN`: read memory and ignore it. Unofficial.
    Ign,
    /// `INC`: increment memory.
    Inc,
    /// `INX`: increment X.
    Inx,
    /// `INY`: increment Y.
    Iny,
    /// `ISC`: increment memory, then subtract it from the accumulator. Unofficial.
    Isc,
    /// `JMP`: jump.
    Jmp,
    /// `JSR`: jump to a subroutine.
    Jsr,
    /// `LAX`: load the accumulator and X. Unofficial.
    Lax,
    /// `LDA`: load the accumulator.
    Lda,
    /// `LDX`: load X.
    Ldx,
    /// `LDY`: load Y.
    Ldy,
    /// `LSR`: shift right.
    Lsr,
    /// `NOP`: do nothing.
    Nop,
    /// `ORA`: or memory into the accumulator.
    Ora,
    /// `PHA`: push the accumulator.
    Pha,
    /// `PHP`: push the status.
    Php,
    /// `PLA`: pull the accumulator.
    Pla,
    /// `PLP`: pull the status.
    Plp,
    /// `RLA`: rotate memory left, then and it into the accumulator. Unofficial.
    Rla,
    /// `ROL`: rotate left through carry.
    Rol,
    /// `ROR`: rotate right through carry.
    Ror,
    /// `RRA`: rotate memory right, then add it to the accumulator. Unofficial.
    Rra,
    /// `RTI`: return from an interrupt.
    Rti,
    /// `RTS`: return from a subroutine.
    Rts,
    /// `SAX`: store the accumulator and-ed with X. Unofficial.
    Sax,
    /// `SBC`: subtract memory and borrow from the accumulator.
    Sbc,
    /// `SEC`: set carry.
    Sec,
    /// `SED`: set decimal.
    Sed,
    /// `SEI`: set interrupt disable.
    Sei,
    /// `SKB`: skip the byte that follows. Unofficial.
    Skb,
    /// `SLO`: shift memory left, then or it into the accumulator. Unofficial.
    Slo,
    /// `SRE`: shift memory right, then exclusive-or it into the accumulator. Unofficial.
    Sre,
    /// `STA`: store the accumulator.
    Sta,
    /// `STX`: store X.
    Stx,
    /// `STY`: store Y.
    Sty,
    /// `TAX`: copy the accumulator to X.
    Tax,
    /// `TAY`: copy the accumulator to Y.
    Tay,
    /// `TSX`: copy the stack pointer to X.
    Tsx,
    /// `TXA`: copy X to the accumulator.
    Txa,
    /// `TXS`: copy X to the stack pointer.
    Txs,
    /// `TYA`: copy Y to the accumulator.
    Tya,
}

impl Mnemonic {
    /// The three capital letters of the name.
    pub open spec fn letters(self) -> Seq<char> {
        match self {
            Mnemonic::Adc => "ADC"@,
            Mnemonic::And => "AND"@,
            Mnemonic::Asl => "ASL"@,
            Mnemonic::Bcc => "BCC"@,
            Mnemonic::Bcs => "BCS"@,
            Mnemonic::Beq => "BEQ"@,
            Mnemonic::Bit => "BIT"@,
            Mnemonic::Bmi => "BMI"@,
            Mnemonic::Bne => "BNE"@,
            Mnemonic::Bpl => "BPL"@,
            Mnemonic::Brk => "BRK"@,
            Mnemonic::Bvc => "BVC"@,
            Mnemonic::Bvs => "BVS"@,
            Mnemonic::Clc => "CLC"@,
            Mnemonic::Cld => "CLD"@,
            Mnemonic::Cli => "CLI"@,
            Mnemonic::Clv => "CLV"@,
            Mnemonic::Cmp => "CMP"@,
            Mnemonic::Cpx => "CPX"@,
            Mnemonic::Cpy => "CPY"@,
            Mnemonic::Dcp => "DCP"@,
            Mnemonic::Dec => "DEC"@,
            Mnemonic::Dex => "DEX"@,
            Mnemonic::Dey => "DEY"@,
            Mnemonic::Eor => "EOR"@,
            Mnemonic::Ign => "IGN"@,
            Mnemonic::Inc => "INC"@,
            Mnemonic::Inx => "INX"@,
            Mnemonic::Iny => "INY"@,
            Mnemonic::Isc => "ISC"@,
            Mnemonic::Jmp => "JMP"@,
            Mnemonic::Jsr => "JSR"@,
            Mnemonic::Lax => "LAX"@,
            Mnemonic::Lda => "LDA"@,
            Mnemonic::Ldx => "LDX"@,
            Mnemonic::Ldy => "LDY"@,
            Mnemonic::Lsr => "LSR"@,
            Mnemonic::Nop => "NOP"@,
            Mnemonic::Ora => "ORA"@,
            Mnemonic::Pha => "PHA"@,
            Mnemonic::Php => "PHP"@,
            Mnemonic::Pla => "PLA"@,
            Mnemonic::Plp => "PLP"@,
            Mnemonic::Rla => "RLA"@,
            Mnemonic::Rol => "ROL"@,
            Mnemonic::Ror => "ROR"@,
            Mnemonic::Rra => "RRA"@,
            Mnemonic::Rti => "RTI"@,
            Mnemonic::Rts => "RTS"@,
            Mnemonic::Sax => "SAX"@,
            Mnemonic::Sbc => "SBC"@,
            Mnemonic::Sec => "SEC"@,
            Mnemonic::Sed => "SED"@,
            Mnemonic::Sei => "SEI"@,
            Mnemonic::Skb => "SKB"@,
            Mnemonic::Slo => "SLO"@,
            Mnemonic::Sre => "SRE"@,
            Mnemonic::Sta => "STA"@,
            Mnemonic::Stx => "STX"@,
            Mnemonic::Sty => "STY"@,
            Mnemonic::Tax => "TAX"@,
            Mnemonic::Tay => "TAY"@,
            Mnemonic::Tsx => "TSX"@,
            Mnemonic::Txa => "TXA"@,
            Mnemonic::Txs => "TXS"@,
            Mnemonic::Tya => "TYA"@,
        }
    }

    /// The name in capital letters.
    pub fn name(&self) -> (s: &'static str)
        ensures
            s@ == self.letters(),
    {
        match self {
            Mnemonic::Adc => "ADC",
            Mnemonic::And => "AND",
            Mnemonic::Asl => "ASL",
            Mnemonic::Bcc => "BCC",
            Mnemonic::Bcs => "BCS",
            Mnemonic::Beq => "BEQ",
            Mnemonic::Bit => "BIT",
            Mnemonic::Bmi => "BMI",
            Mnemonic::Bne => "BNE",
            Mnemonic::Bpl => "BPL",
            Mnemonic::Brk => "BRK",
            Mnemonic::Bvc => "BVC",
            Mnemonic::Bvs => "BVS",
            Mnemonic::Clc => "CLC",
            Mnemonic::Cld => "CLD",
            Mnemonic::Cli => "CLI",
            Mnemonic::Clv => "CLV",
            Mnemonic::Cmp => "CMP",
            Mnemonic::Cpx => "CPX",
            Mnemonic::Cpy => "CPY",
            Mnemonic::Dcp => "DCP",
            Mnemonic::Dec => "DEC",
            Mnemonic::Dex => "DEX",
            Mnemonic::Dey => "DEY",
            Mnemonic::Eor => "EOR",
            Mnemonic::Ign => "IGN",
            Mnemonic::Inc => "INC",
            Mnemonic::Inx => "INX",
            Mnemonic::Iny => "INY",
            Mnemonic::Isc => "ISC",
            Mnemonic::Jmp => "JMP",
            Mnemonic::Jsr => "JSR",
            Mnemonic::Lax => "LAX",
            Mnemonic::Lda => "LDA",
            Mnemonic::Ldx => "LDX",
            Mnemonic::Ldy => "LDY",
            Mnemonic::Lsr => "LSR",
            Mnemonic::Nop => "NOP",
            Mnemonic::Ora => "ORA",
            Mnemonic::Pha => "PHA",
            Mnemonic::Php => "PHP",
            Mnemonic::Pla => "PLA",
            Mnemonic::Plp => "PLP",
            Mnemonic::Rla => "RLA",
            Mnemonic::Rol => "ROL",
            Mnemonic::Ror => "ROR",
            Mnemonic::Rra => "RRA",
            Mnemonic::Rti => "RTI",
            Mnemonic::Rts => "RTS",
            Mnemonic::Sax => "SAX",
            Mnemonic::Sbc => "SBC",
            Mnemonic::Sec => "SEC",
            Mnemonic::Sed => "SED",
            Mnemonic::Sei => "SEI",
            Mnemonic::Skb => "SKB",
            Mnemonic::Slo => "SLO",
            Mnemonic::Sre => "SRE",
            Mnemonic::Sta => "STA",
            Mnemonic::Stx => "STX",
            Mnemonic::Sty => "STY",
            Mnemonic::Tax => "TAX",
            Mnemonic::Tay => "TAY",
            Mnemonic::Tsx => "TSX",
            Mnemonic::Txa => "TXA",
            Mnemonic::Txs => "TXS",
            Mnemonic::Tya => "TYA",
        }
    }
}

/// Every name has three letters.
pub proof fn lemma_three_letters(instruction: Mnemonic)
    ensures
        instruction.letters().len() == 3,
{
    match instruction {
        Mnemonic::Adc => {
            reveal_strlit("ADC");
        },
        Mnemonic::And => {
            reveal_strlit("AND");
        },
        Mnemonic::Asl => {
            reveal_strlit("ASL");
        },
        Mnemonic::Bcc => {
            reveal_strlit("BCC");
        },
        Mnemonic::Bcs => {
            reveal_strlit("BCS");
        },
        Mnemonic::Beq => {
            reveal_strlit("BEQ");
        },
        Mnemonic::Bit => {
            reveal_strlit("BIT");
        },
        Mnemonic::Bmi => {
            reveal_strlit("BMI");
        },
        Mnemonic::Bne => {
            reveal_strlit("BNE");
        },
        Mnemonic::Bpl => {
            reveal_strlit("BPL");
        },
        Mnemonic::Brk => {
            reveal_strlit("BRK");
        },
        Mnemonic::Bvc => {
            reveal_strlit("BVC");
        },
        Mnemonic::Bvs => {
            reveal_strlit("BVS");
        },
        Mnemonic::Clc => {
            reveal_strlit("CLC");
        },
        Mnemonic::Cld => {
            reveal_strlit("CLD");
        },
        Mnemonic::Cli => {
            reveal_strlit("CLI");
        },
        Mnemonic::Clv => {
            reveal_strlit("CLV");
        },
        Mnemonic::Cmp => {
            reveal_strlit("CMP");
        },
        Mnemonic::Cpx => {
            reveal_strlit("CPX");
        },
        Mnemonic::Cpy => {
            reveal_strlit("CPY");
        },
        Mnemonic::Dcp => {
            reveal_strlit("DCP");
        },
        Mnemonic::Dec => {
            reveal_strlit("DEC");
        },
        Mnemonic::Dex => {
            reveal_strlit("DEX");
        },
        Mnemonic::Dey => {
            reveal_strlit("DEY");
        },
        Mnemonic::Eor => {
            reveal_strlit("EOR");
        },
        Mnemonic::Ign => {
            reveal_strlit("IGN");
        },
        Mnemonic::Inc => {
            reveal_strlit("INC");
        },
        Mnemonic::Inx => {
            reveal_strlit("INX");
        },
        Mnemonic::Iny => {
            reveal_strlit("INY");
        },
        Mnemonic::Isc => {
            reveal_strlit("ISC");
        },
        Mnemonic::Jmp => {
            reveal_strlit("JMP");
        },
        Mnemonic::Jsr => {
            reveal_strlit("JSR");
        },
        Mnemonic::Lax => {
            reveal_strlit("LAX");
        },
        Mnemonic::Lda => {
            reveal_strlit("LDA");
        },
        Mnemonic::Ldx => {
            reveal_strlit("LDX");
        },
        Mnemonic::Ldy => {
            reveal_strlit("LDY");
        },
        Mnemonic::Lsr => {
            reveal_strlit("LSR");
        },
        Mnemonic::Nop => {
            reveal_strlit("NOP");
        },
        Mnemonic::Ora => {
            reveal_strlit("ORA");
        },
        Mnemonic::Pha => {
            reveal_strlit("PHA");
        },
        Mnemonic::Php => {
            reveal_strlit("PHP");
        },
        Mnemonic::Pla => {
            reveal_strlit("PLA");
        },
        Mnemonic::Plp => {
            reveal_strlit("PLP");
        },
        Mnemonic::Rla => {
            reveal_strlit("RLA");
        },
        Mnemonic::Rol => {
            reveal_strlit("ROL");
        },
        Mnemonic::Ror => {
            reveal_strlit("ROR");
        },
        Mnemonic::Rra => {
            reveal_strlit("RRA");
        },
        Mnemonic::Rti => {
            reveal_strlit("RTI");
        },
        Mnemonic::Rts => {
            reveal_strlit("RTS");
        },
        Mnemonic::Sax => {
            reveal_strlit("SAX");
        },
        Mnemonic::Sbc => {
            reveal_strlit("SBC");
        },
        Mnemonic::Sec => {
            reveal_strlit("SEC");
        },
        Mnemonic::Sed => {
            reveal_strlit("SED");
        },
        Mnemonic::Sei => {
            reveal_strlit("SEI");
        },
        Mnemonic::Skb => {
            reveal_strlit("SKB");
        },
        Mnemonic::Slo => {
            reveal_strlit("SLO");
        },
        Mnemonic::Sre => {
            reveal_strlit("SRE");
        },
        Mnemonic::Sta => {
            reveal_strlit("STA");
        },
        Mnemonic::Stx => {
            reveal_strlit("STX");
        },
        Mnemonic::Sty => {
            reveal_strlit("STY");
        },
        Mnemonic::Tax => {
            reveal_strlit("TAX");
        },
        Mnemonic::Tay => {
            reveal_strlit("TAY");
        },
        Mnemonic::Tsx => {
            reveal_strlit("TSX");
        },
        Mnemonic::Txa => {
            reveal_strlit("TXA");
        },
        Mnemonic::Txs => {
            reveal_strlit("TXS");
        },
        Mnemonic::Tya => {
            reveal_strlit("TYA");
        },
    }
}

/// One row of the instruction table.
#[derive(Clone, Copy, Debug, PartialEq, Eq, Structural)]
pub struct OpCode {
    pub instruction: Mnemonic,
    pub cycles: u8,
    pub bytes: u16,
    pub addressing_mode: AddressingMode,
}

impl OpCode {
    /// The row with these four fields.
    pub fn new(
        instruction: Mnemonic,
        bytes: u16,
        cycles: u8,
        addressing_mode: AddressingMode,
    ) -> (op: Self)
        ensures
            op == (OpCode { instruction, cycles, bytes, addressing_mode }),
    {
        OpCode { instruction, cycles, bytes, addressing_mode }
    }
}

/// The instruction that the opcode `byte` selects, if it selects one.
#[verifier::opaque]
pub open spec fn mnemonic_of(byte: u8) -> Option<Mnemonic> {
    match byte {
        0x61 | 0x65 | 0x69 | 0x6D | 0x71 | 0x75 | 0x79 | 0x7D => Some(Mnemonic::Adc),
        0x21 | 0x25 | 0x29 | 0x2D | 0x31 | 0x35 | 0x39 | 0x3D => Some(Mnemonic::And),
        0x06 | 0x0A | 0x0E | 0x16 | 0x1E => Some(Mnemonic::Asl),
        0x90 => Some(Mnemonic::Bcc),
        0xB0 => Some(Mnemonic::Bcs),
        0xF0 => Some(Mnemonic::Beq),
        0x24 | 0x2C => Some(Mnemonic::Bit),
        0x30 => Some(Mnemonic::Bmi),
        0xD0 => Some(Mnemonic::Bne),
        0x10 => Some(Mnemonic::Bpl),
        0x00 => Some(Mnemonic::Brk),
        0x50 => Some(Mnemonic::Bvc),
        0x70 => Some(Mnemonic::Bvs),
        0x18 => Some(Mnemonic::Clc),
        0xD8 => Some(Mnemonic::Cld),
        0x58 => Some(Mnemonic::Cli),
        0xB8 => Some(Mnemonic::Clv),
        0xC1 | 0xC5 | 0xC9 | 0xCD | 0xD1 | 0xD5 | 0xD9 | 0xDD => Some(Mnemonic::Cmp),
        0xE0 | 0xE4 | 0xEC => Some(Mnemonic::Cpx),
        0xC0 | 0xC4 | 0xCC => Some(Mnemonic::Cpy),
        0xC3 | 0xC7 | 0xCF | 0xD3 | 0xD7 | 0xDB | 0xDF => Some(Mnemonic::Dcp),
        0xC6 | 0xCE | 0xD6 | 0xDE => Some(Mnemonic::Dec),
        0xCA => Some(Mnemonic::Dex),
        0x88 => Some(Mnemonic::Dey),
        0x41 | 0x45 | 0x49 | 0x4D | 0x51 | 0x55 | 0x59 | 0x5D => Some(Mnemonic::Eor),
        0x04 | 0x0C | 0x14 | 0x1C | 0x34 | 0x3C | 0x44 | 0x54 | 0x5C | 0x64 | 0x74 | 0x7C
        | 0xD4 | 0xDC | 0xF4 | 0xFC => Some(Mnemonic::Ign),
        0xE6 | 0xEE | 0xF6 | 0xFE => Some(Mnemonic::Inc),
        0xE8 => Some(Mnemonic::Inx),
        0xC8 => Some(Mnemonic::Iny),
        0xE3 | 0xE7 | 0xEF | 0xF3 | 0xF7 | 0xFB | 0xFF => Some(Mnemonic::Isc),
        0x4C | 0x6C => Some(Mnemonic::Jmp),
        0x20 => Some(Mnemonic::Jsr),
        0xA3 | 0xA7 | 0xAF | 0xB3 | 0xB7 | 0xBF => Some(Mnemonic::Lax),
        0xA1 | 0xA5 | 0xA9 | 0xAD | 0xB1 | 0xB5 | 0xB9 | 0xBD => Some(Mnemonic::Lda),
        0xA2 | 0xA6 | 0xAE | 0xB6 | 0xBE => Some(Mnemonic::Ldx),
        0xA0 | 0xA4 | 0xAC | 0xB4 | 0xBC => Some(Mnemonic::Ldy),
        0x46 | 0x4A | 0x4E | 0x56 | 0x5E => Some(Mnemonic::Lsr),
        0x1A | 0x3A | 0x5A | 0x7A | 0xDA | 0xEA | 0xFA => Some(Mnemonic::Nop),
        0x01 | 0x05 | 0x09 | 0x0D | 0x11 | 0x15 | 0x19 | 0x1D => Some(Mnemonic::Ora),
        0x48 => Some(Mnemonic::Pha),
        0x08 => Some(Mnemonic::Php),
        0x68 => Some(Mnemonic::Pla),
        0x28 => Some(Mnemonic::Plp),
        0x23 | 0x27 | 0x2F | 0x33 | 0x37 | 0x3B | 0x3F => Some(Mnemonic::Rla),
        0x26 | 0x2A | 0x2E | 0x36 | 0x3E => Some(Mnemonic::Rol),
        0x66 | 0x6A | 0x6E | 0x76 | 0x7E => Some(Mnemonic::Ror),
        0x63 | 0x67 | 0x6F | 0x73 | 0x77 | 0x7B | 0x7F => Some(Mnemonic::Rra),
        0x40 => Some(Mnemonic::Rti),
        0x60 => Some(Mnemonic::Rts),
        0x83 | 0x87 | 0x8F | 0x97 => Some(Mnemonic::Sax),
        0xE1 | 0xE5 | 0xE9 | 0xED | 0xF1 | 0xF5 | 0xF9 | 0xFD => Some(Mnemonic::Sbc),
        0x38 => Some(Mnemonic::Sec),
        0xF8 => Some(Mnemonic::Sed),
        0x78 => Some(Mnemonic::Sei),
        0x80 | 0x82 | 0x89 | 0xC2 | 0xE2 => Some(Mnemonic::Skb),
        0x03 | 0x07 | 0x0F | 0x13 | 0x17 | 0x1B | 0x1F => Some(Mnemonic::Slo),
        0x43 | 0x47 | 0x4F | 0x53 | 0x57 | 0x5B | 0x5F => Some(Mnemonic::Sre),
        0x81 | 0x85 | 0x8D | 0x91 | 0x95 | 0x99 | 0x9D => Some(Mnemonic::Sta),
        0x86 | 0x8E | 0x96 => Some(Mnemonic::Stx),
        0x84 | 0x8C | 0x94 => Some(Mnemonic::Sty),
        0xAA => Some(Mnemonic::Tax),
        0xA8 => Some(Mnemonic::Tay),
        0xBA => Some(Mnemonic::Tsx),
        0x8A => Some(Mnemonic::Txa),
        0x9A => Some(Mnemonic::Txs),
        0x98 => Some(Mnemonic::Tya),
        _ => None,
    }
}

/// How the instruction behind the opcode `byte` finds its operand.
#[verifier::opaque]
pub open spec fn mode_of(byte: u8) -> AddressingMode {
    match byte {
        0x09 | 0x29 | 0x49 | 0x69 | 0x80 | 0x82 | 0x89 | 0xA0 | 0xA2 | 0xA9 | 0xC0 | 0xC2
        | 0xC9 | 0xE0 | 0xE2 | 0xE9 => AddressingMode::Immediate,
        0x0A | 0x2A | 0x4A | 0x6A => AddressingMode::Accumulator,
        0x04 | 0x05 | 0x06 | 0x07 | 0x24 | 0x25 | 0x26 | 0x27 | 0x44 | 0x45 | 0x46 | 0x47
        | 0x64 | 0x65 | 0x66 | 0x67 | 0x84 | 0x85 | 0x86 | 0x87 | 0xA4 | 0xA5 | 0xA6 | 0xA7
        | 0xC4 | 0xC5 | 0xC6 | 0xC7 | 0xE4 | 0xE5 | 0xE6 | 0xE7 => AddressingMode::ZeroPage,
        0x14 | 0x15 | 0x16 | 0x17 | 0x34 | 0x35 | 0x36 | 0x37 | 0x54 | 0x55 | 0x56 | 0x57
        | 0x74 | 0x75 | 0x76 | 0x77 | 0x94 | 0x95 | 0xB4 | 0xB5 | 0xD4 | 0xD5 | 0xD6 | 0xD7
        | 0xF4 | 0xF5 | 0xF6 | 0xF7 => AddressingMode::ZeroPageX,
        0x96 | 0x97 | 0xB6 | 0xB7 => AddressingMode::ZeroPageY,
        0x0C | 0x0D | 0x0E | 0x0F | 0x20 | 0x2C | 0x2D | 0x2E | 0x2F | 0x4C | 0x4D | 0x4E
        | 0x4F | 0x6D | 0x6E | 0x6F | 0x8C | 0x8D | 0x8E | 0x8F | 0xAC | 0xAD | 0xAE | 0xAF
        | 0xCC | 0xCD | 0xCE | 0xCF | 0xEC | 0xED | 0xEE | 0xEF => AddressingMode::Absolute,
        0x1C | 0x1D | 0x1E | 0x1F | 0x3C | 0x3D | 0x3E | 0x3F | 0x5C | 0x5D | 0x5E | 0x5F
        | 0x7C | 0x7D | 0x7E | 0x7F | 0x9D | 0xBC | 0xBD | 0xDC | 0xDD | 0xDE | 0xDF | 0xFC
        | 0xFD | 0xFE | 0xFF => AddressingMode::AbsoluteX,
        0x19 | 0x1B | 0x39 | 0x3B | 0x59 | 0x5B | 0x79 | 0x7B | 0x99 | 0xB9 | 0xBE | 0xBF
        | 0xD9 | 0xDB | 0xF9 | 0xFB => AddressingMode::AbsoluteY,
        0x6C => AddressingMode::Indirect,
        0x01 | 0x03 | 0x21 | 0x23 | 0x41 | 0x43 | 0x61 | 0x63 | 0x81 | 0x83 | 0xA1 | 0xA3
        | 0xC1 | 0xC3 | 0xE1 | 0xE3 => AddressingMode::IndirectX,
        0x11 | 0x13 | 0x31 | 0x33 | 0x51 | 0x53 | 0x71 | 0x73 | 0x91 | 0xB1 | 0xB3 | 0xD1
        | 0xD3 | 0xF1 | 0xF3 => AddressingMode::IndirectY,
        0x10 | 0x30 | 0x50 | 0x70 | 0x90 | 0xB0 | 0xD0 | 0xF0 => AddressingMode::Relative,
        _ => AddressingMode::Implied,
    }
}

/// How many clock cycles the instruction behind the opcode `byte` takes at
/// least.
#[verifier::opaque]
pub open spec fn cycles_of(byte: u8) -> u8 {
    match byte {
        0x04 | 0x05 | 0x08 | 0x24 | 0x25 | 0x44 | 0x45 | 0x48 | 0x4C | 0x64 | 0x65 | 0x84
        | 0x85 | 0x86 | 0x87 | 0xA4 | 0xA5 | 0xA6 | 0xA7 | 0xC4 | 0xC5 | 0xE4 | 0xE5 => 3,
        0x0C | 0x0D | 0x14 | 0x15 | 0x19 | 0x1C | 0x1D | 0x28 | 0x2C | 0x2D | 0x34 | 0x35
        | 0x39 | 0x3C | 0x3D | 0x4D | 0x54 | 0x55 | 0x59 | 0x5C | 0x5D | 0x68 | 0x6D | 0x74
        | 0x75 | 0x79 | 0x7C | 0x7D | 0x8C | 0x8D | 0x8E | 0x8F | 0x94 | 0x95 | 0x96 | 0x97
        | 0xAC | 0xAD | 0xAE | 0xAF | 0xB4 | 0xB5 | 0xB6 | 0xB7 | 0xB9 | 0xBC | 0xBD | 0xBE
        | 0xBF | 0xCC | 0xCD | 0xD4 | 0xD5 | 0xD9 | 0xDC | 0xDD | 0xEC | 0xED | 0xF4 | 0xF5
        | 0xF9 | 0xFC | 0xFD => 4,
        0x06 | 0x07 | 0x11 | 0x26 | 0x27 | 0x31 | 0x46 | 0x47 | 0x51 | 0x66 | 0x67 | 0x6C
        | 0x71 | 0x99 | 0x9D | 0xB1 | 0xB3 | 0xC6 | 0xC7 | 0xD1 | 0xE6 | 0xE7 | 0xF1 => 5,
        0x01 | 0x0E | 0x0F | 0x16 | 0x17 | 0x20 | 0x21 | 0x2E | 0x2F | 0x36 | 0x37 | 0x40
        | 0x41 | 0x4E | 0x4F | 0x56 | 0x57 | 0x60 | 0x61 | 0x6E | 0x6F | 0x76 | 0x77 | 0x81
        | 0x83 | 0x91 | 0xA1 | 0xA3 | 0xC1 | 0xCE | 0xCF | 0xD6 | 0xD7 | 0xE1 | 0xEE | 0xEF
        | 0xF6 | 0xF7 => 6,
        0x00 | 0x1B | 0x1E | 0x1F | 0x3B | 0x3E | 0x3F | 0x5B | 0x5E | 0x5F | 0x7B | 0x7E
        | 0x7F | 0xDB | 0xDE | 0xDF | 0xFB | 0xFE | 0xFF => 7,
        0x03 | 0x13 | 0x23 | 0x33 | 0x43 | 0x53 | 0x63 | 0x73 | 0xC3 | 0xD3 | 0xE3 | 0xF3 => 8,
        _ => 2,
    }
}

/// The row of the table for the opcode `byte`, if the table has one. An
/// instruction is as long as its opcode and its operand together.
pub open spec fn decoded(byte: u8) -> Option<OpCode> {
    match mnemonic_of(byte) {
        Some(instruction) => Some(
            OpCode {
                instruction,
                cycles: cycles_of(byte),
                bytes: mode_of(byte).instruction_length(),
                addressing_mode: mode_of(byte),
            },
        ),
        None => None,
    }
}

/// Whether an instruction can be given an operand in the way `mode` says.
pub open spec fn suits(instruction: Mnemonic, mode: AddressingMode) -> bool {
    match instruction {
        Mnemonic::Asl | Mnemonic::Lsr | Mnemonic::Rol | Mnemonic::Ror => mode is Accumulator
            || mode.has_address(),
        Mnemonic::Bcc
        | Mnemonic::Bcs
        | Mnemonic::Beq
        | Mnemonic::Bmi
        | Mnemonic::Bne
        | Mnemonic::Bpl
        | Mnemonic::Bvc
        | Mnemonic::Bvs => mode is Relative,
        Mnemonic::Jsr => mode is Absolute,
        Mnemonic::Brk
        | Mnemonic::Clc
        | Mnemonic::Cld
        | Mnemonic::Cli
        | Mnemonic::Clv
        | Mnemonic::Dex
        | Mnemonic::Dey
        | Mnemonic::Inx
        | Mnemonic::Iny
        | Mnemonic::Nop
        | Mnemonic::Pha
        | Mnemonic::Php
        | Mnemonic::Pla
        | Mnemonic::Plp
        | Mnemonic::Rti
        | Mnemonic::Rts
        | Mnemonic::Sec
        | Mnemonic::Sed
        | Mnemonic::Sei
        | Mnemonic::Tax
        | Mnemonic::Tay
        | Mnemonic::Tsx
        | Mnemonic::Txa
        | Mnemonic::Txs
        | Mnemonic::Tya => mode is Implied,
        _ => mode.has_address(),
    }
}

/// Every row of the table gives its instruction an operand that suits it.
pub proof fn lemma_rows_suit(byte: u8)
    ensures
        decoded(byte) matches Some(op) ==> suits(op.instruction, op.addressing_mode) && 1
            <= op.bytes <= 3,
{
    reveal(mnemonic_of);
    reveal(mode_of);
}

/// Looks the opcode `byte` up in the table.
#[verifier::rlimit(100)]
pub fn decode(byte: u8) -> (op: Option<OpCode>)
    ensures
        op == decoded(byte),
{
    reveal(mnemonic_of);
    reveal(mode_of);
    reveal(cycles_of);
    match byte {
        0x69 => Some(OpCode::new(Mnemonic::Adc, 2, 2, AddressingMode::Immediate)),
        0x65 => Some(OpCode::new(Mnemonic::Adc, 2, 3, AddressingMode::ZeroPage)),
        0x75 => Some(OpCode::new(Mnemonic::Adc, 2, 4, AddressingMode::ZeroPageX)),
        0x6D => Some(OpCode::new(Mnemonic::Adc, 3, 4, AddressingMode::Absolute)),
        0x7D => Some(OpCode::new(Mnemonic::Adc, 3, 4, AddressingMode::AbsoluteX)),
        0x79 => Some(OpCode::new(Mnemonic::Adc, 3, 4, AddressingMode::AbsoluteY)),
        0x61 => Some(OpCode::new(Mnemonic::Adc, 2, 6, AddressingMode::IndirectX)),
        0x71 => Some(OpCode::new(Mnemonic::Adc, 2, 5, AddressingMode::IndirectY)),
        0x29 => Some(OpCode::new(Mnemonic::And, 2, 2, AddressingMode::Immediate)),
        0x25 => Some(OpCode::new(Mnemonic::And, 2, 3, AddressingMode::ZeroPage)),
        0x35 => Some(OpCode::new(Mnemonic::And, 2, 4, AddressingMode::ZeroPageX)),
        0x2D => Some(OpCode::new(Mnemonic::And, 3, 4, AddressingMode::Absolute)),
        0x3D => Some(OpCode::new(Mnemonic::And, 3, 4, AddressingMode::AbsoluteX)),
        0x39 => Some(OpCode::new(Mnemonic::And, 3, 4, AddressingMode::AbsoluteY)),
        0x21 => Some(OpCode::new(Mnemonic::And, 2, 6, AddressingMode::IndirectX)),
        0x31 => Some(OpCode::new(Mnemonic::And, 2, 5, AddressingMode::IndirectY)),
        0x0A => Some(OpCode::new(Mnemonic::Asl, 1, 2, AddressingMode::Accumulator)),
        0x06 => Some(OpCode::new(Mnemonic::Asl, 2, 5, AddressingMode::ZeroPage)),
        0x16 => Some(OpCode::new(Mnemonic::Asl, 2, 6, AddressingMode::ZeroPageX)),
        0x0E => Some(OpCode::new(Mnemonic::Asl, 3, 6, AddressingMode::Absolute)),
        0x1E => Some(OpCode::new(Mnemonic::Asl, 3, 7, AddressingMode::AbsoluteX)),
        0x90 => Some(OpCode::new(Mnemonic::Bcc, 2, 2, AddressingMode::Relative)),
        0xB0 => Some(OpCode::new(Mnemonic::Bcs, 2, 2, AddressingMode::Relative)),
        0xF0 => Some(OpCode::new(Mnemonic::Beq, 2, 2, AddressingMode::Relative)),
        0x24 => Some(OpCode::new(Mnemonic::Bit, 2, 3, AddressingMode::ZeroPage)),
        0x2C => Some(OpCode::new(Mnemonic::Bit, 3, 4, AddressingMode::Absolute)),
        0x30 => Some(OpCode::new(Mnemonic::Bmi, 2, 2, AddressingMode::Relative)),
        0xD0 => Some(OpCode::new(Mnemonic::Bne, 2, 2, AddressingMode::Relative)),
        0x10 => Some(OpCode::new(Mnemonic::Bpl, 2, 2, AddressingMode::Relative)),
        0x00 => Some(OpCode::new(Mnemonic::Brk, 1, 7, AddressingMode::Implied)),
        0x50 => Some(OpCode::new(Mnemonic::Bvc, 2, 2, AddressingMode::Relative)),
        0x70 => Some(OpCode::new(Mnemonic::Bvs, 2, 2, AddressingMode::Relative)),
        0x18 => Some(OpCode::new(Mnemonic::Clc, 1, 2, AddressingMode::Implied)),
        0xD8 => Some(OpCode::new(Mnemonic::Cld, 1, 2, AddressingMode::Implied)),
        0x58 => Some(OpCode::new(Mnemonic::Cli, 1, 2, AddressingMode::Implied)),
        0xB8 => Some(OpCode::new(Mnemonic::Clv, 1, 2, AddressingMode::Implied)),
        0xC9 => Some(OpCode::new(Mnemonic::Cmp, 2, 2, AddressingMode::Immediate)),
        0xC5 => Some(OpCode::new(Mnemonic::Cmp, 2, 3, AddressingMode::ZeroPage)),
        0xD5 => Some(OpCode::new(Mnemonic::Cmp, 2, 4, AddressingMode::ZeroPageX)),
        0xCD => Some(OpCode::new(Mnemonic::Cmp, 3, 4, AddressingMode::Absolute)),
        0xDD => Some(OpCode::new(Mnemonic::Cmp, 3, 4, AddressingMode::AbsoluteX)),
        0xD9 => Some(OpCode::new(Mnemonic::Cmp, 3, 4, AddressingMode::AbsoluteY)),
        0xC1 => Some(OpCode::new(Mnemonic::Cmp, 2, 6, AddressingMode::IndirectX)),
        0xD1 => Some(OpCode::new(Mnemonic::Cmp, 2, 5, AddressingMode::IndirectY)),
        0xE0 => Some(OpCode::new(Mnemonic::Cpx, 2, 2, AddressingMode::Immediate)),
        0xE4 => Some(OpCode::new(Mnemonic::Cpx, 2, 3, AddressingMode::ZeroPage)),
        0xEC => Some(OpCode::new(Mnemonic::Cpx, 3, 4, AddressingMode::Absolute)),
        0xC0 => Some(OpCode::new(Mnemonic::Cpy, 2, 2, AddressingMode::Immediate)),
        0xC4 => Some(OpCode::new(Mnemonic::Cpy, 2, 3, AddressingMode::ZeroPage)),
        0xCC => Some(OpCode::new(Mnemonic::Cpy, 3, 4, AddressingMode::Absolute)),
        0xC6 => Some(OpCode::new(Mnemonic::Dec, 2, 5, AddressingMode::ZeroPage)),
        0xD6 => Some(OpCode::new(Mnemonic::Dec, 2, 6, AddressingMode::ZeroPageX)),
        0xCE => Some(OpCode::new(Mnemonic::Dec, 3, 6, AddressingMode::Absolute)),
        0xDE => Some(OpCode::new(Mnemonic::Dec, 3, 7, AddressingMode::AbsoluteX)),
        0xCA => Some(OpCode::new(Mnemonic::Dex, 1, 2, AddressingMode::Implied)),
        0x88 => Some(OpCode::new(Mnemonic::Dey, 1, 2, AddressingMode::Implied)),
        0x49 => Some(OpCode::new(Mnemonic::Eor, 2, 2, AddressingMode::Immediate)),
        0x45 => Some(OpCode::new(Mnemonic::Eor, 2, 3, AddressingMode::ZeroPage)),
        0x55 => Some(OpCode::new(Mnemonic::Eor, 2, 4, AddressingMode::ZeroPageX)),
        0x4D => Some(OpCode::new(Mnemonic::Eor, 3, 4, AddressingMode::Absolute)),
        0x5D => Some(OpCode::new(Mnemonic::Eor, 3, 4, AddressingMode::AbsoluteX)),
        0x59 => Some(OpCode::new(Mnemonic::Eor, 3, 4, AddressingMode::AbsoluteY)),
        0x41 => Some(OpCode::new(Mnemonic::Eor, 2, 6, AddressingMode::IndirectX)),
        0x51 => Some(OpCode::new(Mnemonic::Eor, 2, 5, AddressingMode::IndirectY)),
        0xE6 => Some(OpCode::new(Mnemonic::Inc, 2, 5, AddressingMode::ZeroPage)),
        0xF6 => Some(OpCode::new(Mnemonic::Inc, 2, 6, AddressingMode::ZeroPageX)),
        0xEE => Some(OpCode::new(Mnemonic::Inc, 3, 6, AddressingMode::Absolute)),
        0xFE => Some(OpCode::new(Mnemonic::Inc, 3, 7, AddressingMode::AbsoluteX)),
        0xE8 => Some(OpCode::new(Mnemonic::Inx, 1, 2, AddressingMode::Implied)),
        0xC8 => Some(OpCode::new(Mnemonic::Iny, 1, 2, AddressingMode::Implied)),
        0x4C => Some(OpCode::new(Mnemonic::Jmp, 3, 3, AddressingMode::Absolute)),
        0x6C => Some(OpCode::new(Mnemonic::Jmp, 3, 5, AddressingMode::Indirect)),
        0x20 => Some(OpCode::new(Mnemonic::Jsr, 3, 6, AddressingMode::Absolute)),
        0xA9 => Some(OpCode::new(Mnemonic::Lda, 2, 2, AddressingMode::Immediate)),
        0xA5 => Some(OpCode::new(Mnemonic::Lda, 2, 3, AddressingMode::ZeroPage)),
        0xB5 => Some(OpCode::new(Mnemonic::Lda, 2, 4, AddressingMode::ZeroPageX)),
        0xAD => Some(OpCode::new(Mnemonic::Lda, 3, 4, AddressingMode::Absolute)),
        0xBD => Some(OpCode::new(Mnemonic::Lda, 3, 4, AddressingMode::AbsoluteX)),
        0xB9 => Some(OpCode::new(Mnemonic::Lda, 3, 4, AddressingMode::AbsoluteY)),
        0xA1 => Some(OpCode::new(Mnemonic::Lda, 2, 6, AddressingMode::IndirectX)),
        0xB1 => Some(OpCode::new(Mnemonic::Lda, 2, 5, AddressingMode::IndirectY)),
        0xA2 => Some(OpCode::new(Mnemonic::Ldx, 2, 2, AddressingMode::Immediate)),
        0xA6 => Some(OpCode::new(Mnemonic::Ldx, 2, 3, AddressingMode::ZeroPage)),
        0xB6 => Some(OpCode::new(Mnemonic::Ldx, 2, 4, AddressingMode::ZeroPageY)),
        0xAE => Some(OpCode::new(Mnemonic::Ldx, 3, 4, AddressingMode::Absolute)),
        0xBE => Some(OpCode::new(Mnemonic::Ldx, 3, 4, AddressingMode::AbsoluteY)),
        0xA0 => Some(OpCode::new(Mnemonic::Ldy, 2, 2, AddressingMode::Immediate)),
        0xA4 => Some(OpCode::new(Mnemonic::Ldy, 2, 3, AddressingMode::ZeroPage)),
        0xB4 => Some(OpCode::new(Mnemonic::Ldy, 2, 4, AddressingMode::ZeroPageX)),
        0xAC => Some(OpCode::new(Mnemonic::Ldy, 3, 4, AddressingMode::Absolute)),
        0xBC => Some(OpCode::new(Mnemonic::Ldy, 3, 4, AddressingMode::AbsoluteX)),
        0x4A => Some(OpCode::new(Mnemonic::Lsr, 1, 2, AddressingMode::Accumulator)),
        0x46 => Some(OpCode::new(Mnemonic::Lsr, 2, 5, AddressingMode::ZeroPage)),
        0x56 => Some(OpCode::new(Mnemonic::Lsr, 2, 6, AddressingMode::ZeroPageX)),
        0x4E => Some(OpCode::new(Mnemonic::Lsr, 3, 6, AddressingMode::Absolute)),
        0x5E => Some(OpCode::new(Mnemonic::Lsr, 3, 7, AddressingMode::AbsoluteX)),
        0xEA => Some(OpCode::new(Mnemonic::Nop, 1, 2, AddressingMode::Implied)),
        0x09 => Some(OpCode::new(Mnemonic::Ora, 2, 2, AddressingMode::Immediate)),
        0x05 => Some(OpCode::new(Mnemonic::Ora, 2, 3, AddressingMode::ZeroPage)),
        0x15 => Some(OpCode::new(Mnemonic::Ora, 2, 4, AddressingMode::ZeroPageX)),
        0x0D => Some(OpCode::new(Mnemonic::Ora, 3, 4, AddressingMode::Absolute)),
        0x1D => Some(OpCode::new(Mnemonic::Ora, 3, 4, AddressingMode::AbsoluteX)),
        0x19 => Some(OpCode::new(Mnemonic::Ora, 3, 4, AddressingMode::AbsoluteY)),
        0x01 => Some(OpCode::new(Mnemonic::Ora, 2, 6, AddressingMode::IndirectX)),
        0x11 => Some(OpCode::new(Mnemonic::Ora, 2, 5, AddressingMode::IndirectY)),
        0x48 => Some(OpCode::new(Mnemonic::Pha, 1, 3, AddressingMode::Implied)),
        0x08 => Some(OpCode::new(Mnemonic::Php, 1, 3, AddressingMode::Implied)),
        0x68 => Some(OpCode::new(Mnemonic::Pla, 1, 4, AddressingMode::Implied)),
        0x28 => Some(OpCode::new(Mnemonic::Plp, 1, 4, AddressingMode::Implied)),
        0x2A => Some(OpCode::new(Mnemonic::Rol, 1, 2, AddressingMode::Accumulator)),
        0x26 => Some(OpCode::new(Mnemonic::Rol, 2, 5, AddressingMode::ZeroPage)),
        0x36 => Some(OpCode::new(Mnemonic::Rol, 2, 6, AddressingMode::ZeroPageX)),
        0x2E => Some(OpCode::new(Mnemonic::Rol, 3, 6, AddressingMode::Absolute)),
        0x3E => Some(OpCode::new(Mnemonic::Rol, 3, 7, AddressingMode::AbsoluteX)),
        0x6A => Some(OpCode::new(Mnemonic::Ror, 1, 2, AddressingMode::Accumulator)),
        0x66 => Some(OpCode::new(Mnemonic::Ror, 2, 5, AddressingMode::ZeroPage)),
        0x76 => Some(OpCode::new(Mnemonic::Ror, 2, 6, AddressingMode::ZeroPageX)),
        0x6E => Some(OpCode::new(Mnemonic::Ror, 3, 6, AddressingMode::Absolute)),
        0x7E => Some(OpCode::new(Mnemonic::Ror, 3, 7, AddressingMode::AbsoluteX)),
        0x40 => Some(OpCode::new(Mnemonic::Rti, 1, 6, AddressingMode::Implied)),
        0x60 => Some(OpCode::new(Mnemonic::Rts, 1, 6, AddressingMode::Implied)),
        0xE9 => Some(OpCode::new(Mnemonic::Sbc, 2, 2, AddressingMode::Immediate)),
        0xE5 => Some(OpCode::new(Mnemonic::Sbc, 2, 3, AddressingMode::ZeroPage)),
        0xF5 => Some(OpCode::new(Mnemonic::Sbc, 2, 4, AddressingMode::ZeroPageX)),
        0xED => Some(OpCode::new(Mnemonic::Sbc, 3, 4, AddressingMode::Absolute)),
        0xFD => Some(OpCode::new(Mnemonic::Sbc, 3, 4, AddressingMode::AbsoluteX)),
        0xF9 => Some(OpCode::new(Mnemonic::Sbc, 3, 4, AddressingMode::AbsoluteY)),
        0xE1 => Some(OpCode::new(Mnemonic::Sbc, 2, 6, AddressingMode::IndirectX)),
        0xF1 => Some(OpCode::new(Mnemonic::Sbc, 2, 5, AddressingMode::IndirectY)),
        0x38 => Some(OpCode::new(Mnemonic::Sec, 1, 2, AddressingMode::Implied)),
        0xF8 => Some(OpCode::new(Mnemonic::Sed, 1, 2, AddressingMode::Implied)),
        0x78 => Some(OpCode::new(Mnemonic::Sei, 1, 2, AddressingMode::Implied)),
        0x85 => Some(OpCode::new(Mnemonic::Sta, 2, 3, AddressingMode::ZeroPage)),
        0x95 => Some(OpCode::new(Mnemonic::Sta, 2, 4, AddressingMode::ZeroPageX)),
        0x8D => Some(OpCode::new(Mnemonic::Sta, 3, 4, AddressingMode::Absolute)),
        0x9D => Some(OpCode::new(Mnemonic::Sta, 3, 5, AddressingMode::AbsoluteX)),
        0x99 => Some(OpCode::new(Mnemonic::Sta, 3, 5, AddressingMode::AbsoluteY)),
        0x81 => Some(OpCode::new(Mnemonic::Sta, 2, 6, AddressingMode::IndirectX)),
        0x91 => Some(OpCode::new(Mnemonic::Sta, 2, 6, AddressingMode::IndirectY)),
        0x86 => Some(OpCode::new(Mnemonic::Stx, 2, 3, AddressingMode::ZeroPage)),
        0x96 => Some(OpCode::new(Mnemonic::Stx, 2, 4, AddressingMode::ZeroPageY)),
        0x8E => Some(OpCode::new(Mnemonic::Stx, 3, 4, AddressingMode::Absolute)),
        0x84 => Some(OpCode::new(Mnemonic::Sty, 2, 3, AddressingMode::ZeroPage)),
        0x94 => Some(OpCode::new(Mnemonic::Sty, 2, 4, AddressingMode::ZeroPageX)),
        0x8C => Some(OpCode::new(Mnemonic::Sty, 3, 4, AddressingMode::Absolute)),
        0xAA => Some(OpCode::new(Mnemonic::Tax, 1, 2, AddressingMode::Implied)),
        0xA8 => Some(OpCode::new(Mnemonic::Tay, 1, 2, AddressingMode::Implied)),
        0xBA => Some(OpCode::new(Mnemonic::Tsx, 1, 2, AddressingMode::Implied)),
        0x8A => Some(OpCode::new(Mnemonic::Txa, 1, 2, AddressingMode::Implied)),
        0x9A => Some(OpCode::new(Mnemonic::Txs, 1, 2, AddressingMode::Implied)),
        0x98 => Some(OpCode::new(Mnemonic::Tya, 1, 2, AddressingMode::Implied)),
        // Unofficial instructions.
        0x1A => Some(OpCode::new(Mnemonic::Nop, 1, 2, AddressingMode::Implied)),
        0x3A => Some(OpCode::new(Mnemonic::Nop, 1, 2, AddressingMode::Implied)),
        0x5A => Some(OpCode::new(Mnemonic::Nop, 1, 2, AddressingMode::Implied)),
        0x7A => Some(OpCode::new(Mnemonic::Nop, 1, 2, AddressingMode::Implied)),
        0xDA => Some(OpCode::new(Mnemonic::Nop, 1, 2, AddressingMode::Implied)),
        0xFA => Some(OpCode::new(Mnemonic::Nop, 1, 2, AddressingMode::Implied)),
        0x04 => Some(OpCode::new(Mnemonic::Ign, 2, 3, AddressingMode::ZeroPage)),
        0x44 => Some(OpCode::new(Mnemonic::Ign, 2, 3, AddressingMode::ZeroPage)),
        0x64 => Some(OpCode::new(Mnemonic::Ign, 2, 3, AddressingMode::ZeroPage)),
        0x14 => Some(OpCode::new(Mnemonic::Ign, 2, 4, AddressingMode::ZeroPageX)),
        0x34 => Some(OpCode::new(Mnemonic::Ign, 2, 4, AddressingMode::ZeroPageX)),
        0x54 => Some(OpCode::new(Mnemonic::Ign, 2, 4, AddressingMode::ZeroPageX)),
        0x74 => Some(OpCode::new(Mnemonic::Ign, 2, 4, AddressingMode::ZeroPageX)),
        0xD4 => Some(OpCode::new(Mnemonic::Ign, 2, 4, AddressingMode::ZeroPageX)),
        0xF4 => Some(OpCode::new(Mnemonic::Ign, 2, 4, AddressingMode::ZeroPageX)),
        0x0C => Some(OpCode::new(Mnemonic::Ign, 3, 4, AddressingMode::Absolute)),
        0x1C => Some(OpCode::new(Mnemonic::Ign, 3, 4, AddressingMode::AbsoluteX)),
        0x3C => Some(OpCode::new(Mnemonic::Ign, 3, 4, AddressingMode::AbsoluteX)),
        0x5C => Some(OpCode::new(Mnemonic::Ign, 3, 4, AddressingMode::AbsoluteX)),
        0x7C => Some(OpCode::new(Mnemonic::Ign, 3, 4, AddressingMode::AbsoluteX)),
        0xDC => Some(OpCode::new(Mnemonic::Ign, 3, 4, AddressingMode::AbsoluteX)),
        0xFC => Some(OpCode::new(Mnemonic::Ign, 3, 4, AddressingMode::AbsoluteX)),
        0x80 => Some(OpCode::new(Mnemonic::Skb, 2, 2, AddressingMode::Immediate)),
        0x82 => Some(OpCode::new(Mnemonic::Skb, 2, 2, AddressingMode::Immediate)),
        0x89 => Some(OpCode::new(Mnemonic::Skb, 2, 2, AddressingMode::Immediate)),
        0xC2 => Some(OpCode::new(Mnemonic::Skb, 2, 2, AddressingMode::Immediate)),
        0xE2 => Some(OpCode::new(Mnemonic::Skb, 2, 2, AddressingMode::Immediate)),
        0xA7 => Some(OpCode::new(Mnemonic::Lax, 2, 3, AddressingMode::ZeroPage)),
        0xB7 => Some(OpCode::new(Mnemonic::Lax, 2, 4, AddressingMode::ZeroPageY)),
        0xAF => Some(OpCode::new(Mnemonic::Lax, 3, 4, AddressingMode::Absolute)),
        0xBF => Some(OpCode::new(Mnemonic::Lax, 3, 4, AddressingMode::AbsoluteY)),
        0xA3 => Some(OpCode::new(Mnemonic::Lax, 2, 6, AddressingMode::IndirectX)),
        0xB3 => Some(OpCode::new(Mnemonic::Lax, 2, 5, AddressingMode::IndirectY)),
        0x87 => Some(OpCode::new(Mnemonic::Sax, 2, 3, AddressingMode::ZeroPage)),
        0x97 => Some(OpCode::new(Mnemonic::Sax, 2, 4, AddressingMode::ZeroPageY)),
        0x8F => Some(OpCode::new(Mnemonic::Sax, 3, 4, AddressingMode::Absolute)),
        0x83 => Some(OpCode::new(Mnemonic::Sax, 2, 6, AddressingMode::IndirectX)),
        0xC7 => Some(OpCode::new(Mnemonic::Dcp, 2, 5, AddressingMode::ZeroPage)),
        0xD7 => Some(OpCode::new(Mnemonic::Dcp, 2, 6, AddressingMode::ZeroPageX)),
        0xCF => Some(OpCode::new(Mnemonic::Dcp, 3, 6, AddressingMode::Absolute)),
        0xDF => Some(OpCode::new(Mnemonic::Dcp, 3, 7, AddressingMode::AbsoluteX)),
        0xDB => Some(OpCode::new(Mnemonic::Dcp, 3, 7, AddressingMode::AbsoluteY)),
        0xC3 => Some(OpCode::new(Mnemonic::Dcp, 2, 8, AddressingMode::IndirectX)),
        0xD3 => Some(OpCode::new(Mnemonic::Dcp, 2, 8, AddressingMode::IndirectY)),
        0xE7 => Some(OpCode::new(Mnemonic::Isc, 2, 5, AddressingMode::ZeroPage)),
        0xF7 => Some(OpCode::new(Mnemonic::Isc, 2, 6, AddressingMode::ZeroPageX)),
        0xEF => Some(OpCode::new(Mnemonic::Isc, 3, 6, AddressingMode::Absolute)),
        0xFF => Some(OpCode::new(Mnemonic::Isc, 3, 7, AddressingMode::AbsoluteX)),
        0xFB => Some(OpCode::new(Mnemonic::Isc, 3, 7, AddressingMode::AbsoluteY)),
        0xE3 => Some(OpCode::new(Mnemonic::Isc, 2, 8, AddressingMode::IndirectX)),
        0xF3 => Some(OpCode::new(Mnemonic::Isc, 2, 8, AddressingMode::IndirectY)),
        0x07 => Some(OpCode::new(Mnemonic::Slo, 2, 5, AddressingMode::ZeroPage)),
        0x17 => Some(OpCode::new(Mnemonic::Slo, 2, 6, AddressingMode::ZeroPageX)),
        0x0F => Some(OpCode::new(Mnemonic::Slo, 3, 6, AddressingMode::Absolute)),
        0x1F => Some(OpCode::new(Mnemonic::Slo, 3, 7, AddressingMode::AbsoluteX)),
        0x1B => Some(OpCode::new(Mnemonic::Slo, 3, 7, AddressingMode::AbsoluteY)),
        0x03 => Some(OpCode::new(Mnemonic::Slo, 2, 8, AddressingMode::IndirectX)),
        0x13 => Some(OpCode::new(Mnemonic::Slo, 2, 8, AddressingMode::IndirectY)),
        0x27 => Some(OpCode::new(Mnemonic::Rla, 2, 5, AddressingMode::ZeroPage)),
        0x37 => Some(OpCode::new(Mnemonic::Rla, 2, 6, AddressingMode::ZeroPageX)),
        0x2F => Some(OpCode::new(Mnemonic::Rla, 3, 6, AddressingMode::Absolute)),
        0x3F => Some(OpCode::new(Mnemonic::Rla, 3, 7, AddressingMode::AbsoluteX)),
        0x3B => Some(OpCode::new(Mnemonic::Rla, 3, 7, AddressingMode::AbsoluteY)),
        0x23 => Some(OpCode::new(Mnemonic::Rla, 2, 8, AddressingMode::IndirectX)),
        0x33 => Some(OpCode::new(Mnemonic::Rla, 2, 8, AddressingMode::IndirectY)),
        0x47 => Some(OpCode::new(Mnemonic::Sre, 2, 5, AddressingMode::ZeroPage)),
        0x57 => Some(OpCode::new(Mnemonic::Sre, 2, 6, AddressingMode::ZeroPageX)),
        0x4F => Some(OpCode::new(Mnemonic::Sre, 3, 6, AddressingMode::Absolute)),
        0x5F => Some(OpCode::new(Mnemonic::Sre, 3, 7, AddressingMode::AbsoluteX)),
        0x5B => Some(OpCode::new(Mnemonic::Sre, 3, 7, AddressingMode::AbsoluteY)),
        0x43 => Some(OpCode::new(Mnemonic::Sre, 2, 8, AddressingMode::IndirectX)),
        0x53 => Some(OpCode::new(Mnemonic::Sre, 2, 8, AddressingMode::IndirectY)),
        0x67 => Some(OpCode::new(Mnemonic::Rra, 2, 5, AddressingMode::ZeroPage)),
        0x77 => Some(OpCode::new(Mnemonic::Rra, 2, 6, AddressingMode::ZeroPageX)),
        0x6F => Some(OpCode::new(Mnemonic::Rra, 3, 6, AddressingMode::Absolute)),
        0x7F => Some(OpCode::new(Mnemonic::Rra, 3, 7, AddressingMode::AbsoluteX)),
        0x7B => Some(OpCode::new(Mnemonic::Rra, 3, 7, AddressingMode::AbsoluteY)),
        0x63 => Some(OpCode::new(Mnemonic::Rra, 2, 8, AddressingMode::IndirectX)),
        0x73 => Some(OpCode::new(Mnemonic::Rra, 2, 8, AddressingMode::IndirectY)),
        _ => None,
    }
}

} // verus!
