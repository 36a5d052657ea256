//! The instruction set: which instruction each opcode is.
use vstd::prelude::*;
use vstd::string::StringExecFns;

use super::execute::{bits_2_0, bits_4_3, bits_5_3, bits_5_4, lemma_opcode_fields};
use super::operands::{
    condition_of, r16_of, r16mem_of, r16stk_of, r8_of, Condition, R16Memory, R16Stack, R16, R8,
};

verus! {

/// An instruction, by its form (the operands are in the opcode bits).
#[derive(Debug, Clone, Copy, PartialEq, Eq, Structural)]
pub enum Instruction {
    Nop,
    LdR16Imm16,
    LdR16MemA,
    LdAR16Mem,
    LdImm16Sp,
    IncR16,
    DecR16,
    AddHlR16,
    IncR8,
    DecR8,
    LdR8Imm8,
    Rlca,
    Rrca,
    Rla,
    Rra,
    Daa,
    Cpl,
    Scf,
    Ccf,
    JrSignedImm8,
    JrCondSignedImm8,
    Stop,
    LdR8R8,
    Halt,
    AddAR8,
    AdcAR8,
    SubAR8,
    SbcAR8,
    AndAR8,
    XorAR8,
    OrAR8,
    CpAR8,
    AddAImm8,
    AdcAImm8,
    SubAImm8,
    SbcAImm8,
    AndAImm8,
    XorAImm8,
    OrAImm8,
    CpAImm8,
    RetCond,
    Ret,
    Reti,
    JpCondImm16,
    JpImm16,
    JpHl,
    CallCondImm16,
    CallImm16,
    RstTgt3,
    PopR16Stk,
    PushR16Stk,
    Prefix,
    LdhCMemA,
    LdhImm8MemA,
    LdImm16MemA,
    LdhACMem,
    LdhAImm8Mem,
    LdAImm16Mem,
    AddSpSignedImm8,
    LdHlSpPlusSignedImm8,
    LdSpHl,
    Di,
    Ei,
}

/// The instruction an opcode encodes; the eleven unused opcodes (0xD3,
/// 0xDB, 0xDD, 0xE3, 0xE4, 0xEB, 0xEC, 0xED, 0xF4, 0xFC, 0xFD) encode none.
pub open spec fn decoded(opcode: u8) -> Option<Instruction> {
    if opcode == 0x00 {
        Some(Instruction::Nop)
    } else if opcode == 0x01 || opcode == 0x11 || opcode == 0x21 || opcode == 0x31 {
        Some(Instruction::LdR16Imm16)
    } else if opcode == 0x02 || opcode == 0x12 || opcode == 0x22 || opcode == 0x32 {
        Some(Instruction::LdR16MemA)
    } else if opcode == 0x03 || opcode == 0x13 || opcode == 0x23 || opcode == 0x33 {
        Some(Instruction::IncR16)
    } else if opcode == 0x04 || opcode == 0x14 || opcode == 0x24 || opcode == 0x34 || opcode == 0x0C || opcode == 0x1C || opcode == 0x2C || opcode == 0x3C {
        Some(Instruction::IncR8)
    } else if opcode == 0x05 || opcode == 0x15 || opcode == 0x25 || opcode == 0x35 || opcode == 0x0D || opcode == 0x1D || opcode == 0x2D || opcode == 0x3D {
        Some(Instruction::DecR8)
    } else if opcode == 0x06 || opcode == 0x16 || opcode == 0x26 || opcode == 0x36 || opcode == 0x0E || opcode == 0x1E || opcode == 0x2E || opcode == 0x3E {
        Some(Instruction::LdR8Imm8)
    } else if opcode == 0x10 {
        Some(Instruction::Stop)
    } else if opcode == 0x07 {
        Some(Instruction::Rlca)
    } else if opcode == 0x17 {
        Some(Instruction::Rla)
    } else if opcode == 0x27 {
        Some(Instruction::Daa)
    } else if opcode == 0x37 {
        Some(Instruction::Scf)
    } else if opcode == 0x08 {
        Some(Instruction::LdImm16Sp)
    } else if opcode == 0x18 {
        Some(Instruction::JrSignedImm8)
    } else if opcode == 0x20 || opcode == 0x28 || opcode == 0x30 || opcode == 0x38 {
        Some(Instruction::JrCondSignedImm8)
    } else if opcode == 0x09 || opcode == 0x19 || opcode == 0x29 || opcode == 0x39 {
        Some(Instruction::AddHlR16)
    } else if opcode == 0x0A || opcode == 0x1A || opcode == 0x2A || opcode == 0x3A {
        Some(Instruction::LdAR16Mem)
    } else if opcode == 0x0B || opcode == 0x1B || opcode == 0x2B || opcode == 0x3B {
        Some(Instruction::DecR16)
    } else if opcode == 0x0F {
        Some(Instruction::Rrca)
    } else if opcode == 0x1F {
        Some(Instruction::Rra)
    } else if opcode == 0x2F {
        Some(Instruction::Cpl)
    } else if opcode == 0x3F {
        Some(Instruction::Ccf)
    } else if (0x40 <= opcode <= 0x75) || (0x77 <= opcode <= 0x7F) {
        Some(Instruction::LdR8R8)
    } else if opcode == 0x76 {
        Some(Instruction::Halt)
    } else if (0x80 <= opcode <= 0x87) {
        Some(Instruction::AddAR8)
    } else if (0x88 <= opcode <= 0x8F) {
        Some(Instruction::AdcAR8)
    } else if (0x90 <= opcode <= 0x97) {
        Some(Instruction::SubAR8)
    } else if (0x98 <= opcode <= 0x9F) {
        Some(Instruction::SbcAR8)
    } else if (0xA0 <= opcode <= 0xA7) {
        Some(Instruction::AndAR8)
    } else if (0xA8 <= opcode <= 0xAF) {
        Some(Instruction::XorAR8)
    } else if (0xB0 <= opcode <= 0xB7) {
        Some(Instruction::OrAR8)
    } else if (0xB8 <= opcode <= 0xBF) {
        Some(Instruction::CpAR8)
    } else if opcode == 0xC0 || opcode == 0xC8 || opcode == 0xD0 || opcode == 0xD8 {
        Some(Instruction::RetCond)
    } else if opcode == 0xE0 {
        Some(Instruction::LdhImm8MemA)
    } else if opcode == 0xF0 {
        Some(Instruction::LdhAImm8Mem)
    } else if opcode == 0xC1 || opcode == 0xD1 || opcode == 0xE1 || opcode == 0xF1 {
        Some(Instruction::PopR16Stk)
    } else if opcode == 0xC2 || opcode == 0xCA || opcode == 0xD2 || opcode == 0xDA {
        Some(Instruction::JpCondImm16)
    } else if opcode == 0xE2 {
        Some(Instruction::LdhCMemA)
    } else if opcode == 0xF2 {
        Some(Instruction::LdhACMem)
    } else if opcode == 0xC3 {
        Some(Instruction::JpImm16)
    } else if opcode == 0xF3 {
        Some(Instruction::Di)
    } else if opcode == 0xC4 || opcode == 0xCC || opcode == 0xD4 || opcode == 0xDC {
        Some(Instruction::CallCondImm16)
    } else if opcode == 0xC5 || opcode == 0xD5 || opcode == 0xE5 || opcode == 0xF5 {
        Some(Instruction::PushR16Stk)
    } else if opcode == 0xC6 {
        Some(Instruction::AddAImm8)
    } else if opcode == 0xD6 {
        Some(Instruction::SubAImm8)
    } else if opcode == 0xE6 {
        Some(Instruction::AndAImm8)
    } else if opcode == 0xF6 {
        Some(Instruction::OrAImm8)
    } else if opcode == 0xC7 || opcode == 0xD7 || opcode == 0xE7 || opcode == 0xF7 || opcode == 0xCF || opcode == 0xDF || opcode == 0xEF || opcode == 0xFF {
        Some(Instruction::RstTgt3)
    } else if opcode == 0xE8 {
        Some(Instruction::AddSpSignedImm8)
    } else if opcode == 0xF8 {
        Some(Instruction::LdHlSpPlusSignedImm8)
    } else if opcode == 0xC9 {
        Some(Instruction::Ret)
    } else if opcode == 0xD9 {
        Some(Instruction::Reti)
    } else if opcode == 0xE9 {
        Some(Instruction::JpHl)
    } else if opcode == 0xF9 {
        Some(Instruction::LdSpHl)
    } else if opcode == 0xEA {
        Some(Instruction::LdImm16MemA)
    } else if opcode == 0xFA {
        Some(Instruction::LdAImm16Mem)
    } else if opcode == 0xCB {
        Some(Instruction::Prefix)
    } else if opcode == 0xFB {
        Some(Instruction::Ei)
    } else if opcode == 0xCD {
        Some(Instruction::CallImm16)
    } else if opcode == 0xCE {
        Some(Instruction::AdcAImm8)
    } else if opcode == 0xDE {
        Some(Instruction::SbcAImm8)
    } else if opcode == 0xEE {
        Some(Instruction::XorAImm8)
    } else if opcode == 0xFE {
        Some(Instruction::CpAImm8)
    } else {
        None
    }
}

impl Instruction {
    /// The instruction an opcode encodes, for an opcode that encodes one.
    pub fn from(opcode: u8) -> (r: Instruction)
        requires
            decoded(opcode) is Some,
        ensures
            decoded(opcode) == Some(r),
    {
        match opcode {
            0x00 => Instruction::Nop,
            0x01 | 0x11 | 0x21 | 0x31 => Instruction::LdR16Imm16,
            0x02 | 0x12 | 0x22 | 0x32 => Instruction::LdR16MemA,
            0x03 | 0x13 | 0x23 | 0x33 => Instruction::IncR16,
            0x04 | 0x14 | 0x24 | 0x34 | 0x0C | 0x1C | 0x2C | 0x3C => Instruction::IncR8,
            0x05 | 0x15 | 0x25 | 0x35 | 0x0D | 0x1D | 0x2D | 0x3D => Instruction::DecR8,
            0x06 | 0x16 | 0x26 | 0x36 | 0x0E | 0x1E | 0x2E | 0x3E => Instruction::LdR8Imm8,
            0x10 => Instruction::Stop,
            0x07 => Instruction::Rlca,
            0x17 => Instruction::Rla,
            0x27 => Instruction::Daa,
            0x37 => Instruction::Scf,
            0x08 => Instruction::LdImm16Sp,
            0x18 => Instruction::JrSignedImm8,
            0x20 | 0x28 | 0x30 | 0x38 => Instruction::JrCondSignedImm8,
            0x09 | 0x19 | 0x29 | 0x39 => Instruction::AddHlR16,
            0x0A | 0x1A | 0x2A | 0x3A => Instruction::LdAR16Mem,
            0x0B | 0x1B | 0x2B | 0x3B => Instruction::DecR16,
            0x0F => Instruction::Rrca,
            0x1F => Instruction::Rra,
            0x2F => Instruction::Cpl,
            0x3F => Instruction::Ccf,
            0x40..=0x75 | 0x77..=0x7F => Instruction::LdR8R8,
            0x76 => Instruction::Halt,
            0x80..=0x87 => Instruction::AddAR8,
            0x88..=0x8F => Instruction::AdcAR8,
            0x90..=0x97 => Instruction::SubAR8,
            0x98..=0x9F => Instruction::SbcAR8,
            0xA0..=0xA7 => Instruction::AndAR8,
            0xA8..=0xAF => Instruction::XorAR8,
            0xB0..=0xB7 => Instruction::OrAR8,
            0xB8..=0xBF => Instruction::CpAR8,
            0xC0 | 0xC8 | 0xD0 | 0xD8 => Instruction::RetCond,
            0xE0 => Instruction::LdhImm8MemA,
            0xF0 => Instruction::LdhAImm8Mem,
            0xC1 | 0xD1 | 0xE1 | 0xF1 => Instruction::PopR16Stk,
            0xC2 | 0xCA | 0xD2 | 0xDA => Instruction::JpCondImm16,
            0xE2 => Instruction::LdhCMemA,
            0xF2 => Instruction::LdhACMem,
            0xC3 => Instruction::JpImm16,
            0xF3 => Instruction::Di,
            0xC4 | 0xCC | 0xD4 | 0xDC => Instruction::CallCondImm16,
            0xC5 | 0xD5 | 0xE5 | 0xF5 => Instruction::PushR16Stk,
            0xC6 => Instruction::AddAImm8,
            0xD6 => Instruction::SubAImm8,
            0xE6 => Instruction::AndAImm8,
            0xF6 => Instruction::OrAImm8,
            0xC7 | 0xD7 | 0xE7 | 0xF7 | 0xCF | 0xDF | 0xEF | 0xFF => Instruction::RstTgt3,
            0xE8 => Instruction::AddSpSignedImm8,
            0xF8 => Instruction::LdHlSpPlusSignedImm8,
            0xC9 => Instruction::Ret,
            0xD9 => Instruction::Reti,
            0xE9 => Instruction::JpHl,
            0xF9 => Instruction::LdSpHl,
            0xEA => Instruction::LdImm16MemA,
            0xFA => Instruction::LdAImm16Mem,
            0xCB => Instruction::Prefix,
            0xFB => Instruction::Ei,
            0xCD => Instruction::CallImm16,
            0xCE => Instruction::AdcAImm8,
            0xDE => Instruction::SbcAImm8,
            0xEE => Instruction::XorAImm8,
            0xFE => Instruction::CpAImm8,
            _ => Instruction::Nop,
        }
    }

    /// The instruction an opcode encodes, or `None` for an unused opcode.
    pub fn decode(opcode: u8) -> (r: Option<Instruction>)
        ensures
            r == decoded(opcode),
    {
        match opcode {
            0xD3 | 0xDB | 0xDD | 0xE3 | 0xE4 | 0xEB | 0xEC | 0xED | 0xF4 | 0xFC | 0xFD => None,
            _ => Some(Instruction::from(opcode)),
        }
    }
}

/// The name of an eight-bit operand.
pub open spec fn r8_name(r: R8) -> Seq<char> {
    match r {
        R8::B => "B"@,
        R8::C => "C"@,
        R8::D => "D"@,
        R8::E => "E"@,
        R8::H => "H"@,
        R8::L => "L"@,
        R8::HlMem => "[HL]"@,
        R8::A => "A"@,
    }
}

/// The name of a register pair.
pub open spec fn r16_name(r: R16) -> Seq<char> {
    match r {
        R16::BC => "BC"@,
        R16::DE => "DE"@,
        R16::HL => "HL"@,
        R16::SP => "SP"@,
    }
}

/// The name of a memory pointer.
pub open spec fn r16mem_name(r: R16Memory) -> Seq<char> {
    match r {
        R16Memory::BC => "BC"@,
        R16Memory::DE => "DE"@,
        R16Memory::HLI => "HL+"@,
        R16Memory::HLD => "HL-"@,
    }
}

/// The name of a stack pair.
pub open spec fn r16stk_name(r: R16Stack) -> Seq<char> {
    match r {
        R16Stack::BC => "BC"@,
        R16Stack::DE => "DE"@,
        R16Stack::HL => "HL"@,
        R16Stack::AF => "AF"@,
    }
}

/// The name of a condition.
pub open spec fn condition_name(c: Condition) -> Seq<char> {
    match c {
        Condition::NZ => "NZ"@,
        Condition::Z => "Z"@,
        Condition::NC => "NC"@,
        Condition::C => "C"@,
    }
}

/// A digit, 0 to 15, in upper-case hexadecimal.
pub open spec fn hex_digit(d: int) -> Seq<char> {
    if d == 0 {
        "0"@
    } else if d == 1 {
        "1"@
    } else if d == 2 {
        "2"@
    } else if d == 3 {
        "3"@
    } else if d == 4 {
        "4"@
    } else if d == 5 {
        "5"@
    } else if d == 6 {
        "6"@
    } else if d == 7 {
        "7"@
    } else if d == 8 {
        "8"@
    } else if d == 9 {
        "9"@
    } else if d == 10 {
        "A"@
    } else if d == 11 {
        "B"@
    } else if d == 12 {
        "C"@
    } else if d == 13 {
        "D"@
    } else if d == 14 {
        "E"@
    } else {
        "F"@
    }
}

/// A number in upper-case hexadecimal, without leading zeros.
pub open spec fn hex_digits(v: nat) -> Seq<char>
    decreases v,
{
    if v < 16 {
        hex_digit(v as int)
    } else {
        hex_digits(v / 16) + hex_digit((v % 16) as int)
    }
}

/// A number as `{:#04X}` writes it: `0x` and at least two upper-case
/// hexadecimal digits.
pub open spec fn hex(v: nat) -> Seq<char> {
    "0x"@ + if v < 16 {
        "0"@ + hex_digit(v as int)
    } else {
        hex_digits(v)
    }
}

/// The CB-prefixed instruction `opcode` in assembly.
pub open spec fn prefixed_text(opcode: u8) -> Seq<char> {
    let reg = r8_name(r8_of(bits_2_0(opcode)));
    let op = opcode / 64;
    let n = bits_5_3(opcode);
    if op == 1 {
        "BIT "@ + hex_digit(n as int) + ","@ + reg
    } else if op == 2 {
        "RES "@ + hex_digit(n as int) + ","@ + reg
    } else if op == 3 {
        "SET "@ + hex_digit(n as int) + ","@ + reg
    } else if n == 0 {
        "RLC "@ + reg
    } else if n == 1 {
        "RRC "@ + reg
    } else if n == 2 {
        "RL "@ + reg
    } else if n == 3 {
        "RR "@ + reg
    } else if n == 4 {
        "SLA "@ + reg
    } else if n == 5 {
        "SRA "@ + reg
    } else if n == 6 {
        "SWAP "@ + reg
    } else {
        "SRL "@ + reg
    }
}

/// An instruction in assembly, with the byte and the word after its opcode
/// as its operands.
pub open spec fn disassembly(i: Instruction, opcode: u8, next_byte: u8, next_word: u16) -> Seq<char> {
    let r16 = r16_name(r16_of(bits_5_4(opcode)));
    let r16mem = r16mem_name(r16mem_of(bits_5_4(opcode)));
    let r16stk = r16stk_name(r16stk_of(bits_5_4(opcode)));
    let r8_dst = r8_name(r8_of(bits_5_3(opcode)));
    let r8_src = r8_name(r8_of(bits_2_0(opcode)));
    let cond = condition_name(condition_of(bits_4_3(opcode)));
    let byte = hex(next_byte as nat);
    let word = hex(next_word as nat);
    match i {
        Instruction::LdR16Imm16 => "LD "@ + r16 + ","@ + word,
        Instruction::LdR16MemA => "LD ["@ + r16mem + "],A"@,
        Instruction::LdAR16Mem => "LD A,["@ + r16mem + "]"@,
        Instruction::LdImm16Sp => "LD "@ + word + ",SP"@,
        Instruction::LdR8Imm8 => "LD "@ + r8_dst + ","@ + byte,
        Instruction::LdR8R8 => "LD "@ + r8_dst + ","@ + r8_src,
        Instruction::LdhCMemA => "LD [FF00+C],A"@,
        Instruction::LdhImm8MemA => "LD [FF00+"@ + byte + "],A"@,
        Instruction::LdImm16MemA => "LD ["@ + word + "],A"@,
        Instruction::LdhACMem => "LD A,[FF00+C]"@,
        Instruction::LdhAImm8Mem => "LD A,[FF00+"@ + byte + "]"@,
        Instruction::LdAImm16Mem => "LD A,["@ + word + "]"@,
        Instruction::LdHlSpPlusSignedImm8 => "LD HL,SP+"@ + byte,
        Instruction::LdSpHl => "LD SP,HL"@,
        Instruction::PopR16Stk => "POP "@ + r16stk,
        Instruction::PushR16Stk => "PUSH "@ + r16stk,
        Instruction::IncR16 => "INC "@ + r16,
        Instruction::IncR8 => "INC "@ + r8_dst,
        Instruction::DecR16 => "DEC "@ + r16,
        Instruction::DecR8 => "DEC "@ + r8_dst,
        Instruction::Daa => "DAA"@,
        Instruction::Cpl => "CPL"@,
        Instruction::Scf => "SCF"@,
        Instruction::Ccf => "CCF"@,
        Instruction::AddHlR16 => "ADD HL,"@ + r16,
        Instruction::AddSpSignedImm8 => "ADD SP,u8"@,
        Instruction::AddAR8 => "ADD A,"@ + r8_src,
        Instruction::AdcAR8 => "ADC A,"@ + r8_src,
        Instruction::SubAR8 => "SUB A,"@ + r8_src,
        Instruction::SbcAR8 => "SBC A,"@ + r8_src,
        Instruction::AndAR8 => "AND A,"@ + r8_src,
        Instruction::XorAR8 => "XOR A,"@ + r8_src,
        Instruction::OrAR8 => "OR A,"@ + r8_src,
        Instruction::CpAR8 => "CP A,"@ + r8_src,
        Instruction::AddAImm8 => "ADD A,"@ + byte,
        Instruction::AdcAImm8 => "ADC A,"@ + byte,
        Instruction::SubAImm8 => "SUB A,"@ + byte,
        Instruction::SbcAImm8 => "SBC A,"@ + byte,
        Instruction::AndAImm8 => "AND A,"@ + byte,
        Instruction::XorAImm8 => "XOR A,"@ + byte,
        Instruction::OrAImm8 => "OR A,"@ + byte,
        Instruction::CpAImm8 => "CP A,"@ + byte,
        Instruction::Rlca => "RLCA"@,
        Instruction::Rrca => "RRCA"@,
        Instruction::Rla => "RLA"@,
        Instruction::Rra => "RRA"@,
        Instruction::JrSignedImm8 => "JR "@ + byte,
        Instruction::JrCondSignedImm8 => "JR "@ + cond + ","@ + byte,
        Instruction::JpCondImm16 => "JP "@ + cond + ","@ + word,
        Instruction::JpImm16 => "JP "@ + word,
        Instruction::JpHl => "JP HL"@,
        Instruction::RetCond => "RET "@ + cond,
        Instruction::Ret => "RET"@,
        Instruction::Reti => "RETI"@,
        Instruction::CallCondImm16 => "CALL "@ + cond + ","@ + word,
        Instruction::CallImm16 => "CALL "@ + word,
        Instruction::RstTgt3 => "RST 0"@ + hex_digit((bits_5_3(opcode) / 8) as int) + "h"@,
        Instruction::Nop => "NOP"@,
        Instruction::Stop => "STOP"@,
        Instruction::Halt => "HALT"@,
        Instruction::Di => "DI"@,
        Instruction::Ei => "EI"@,
        Instruction::Prefix => prefixed_text(next_byte),
    }
}

} // verus!

verus! {

fn r8_str(r: R8) -> (s: &'static str)
    ensures
        s@ == r8_name(r),
{
    match r {
        R8::B => "B",
        R8::C => "C",
        R8::D => "D",
        R8::E => "E",
        R8::H => "H",
        R8::L => "L",
        R8::HlMem => "[HL]",
        R8::A => "A",
    }
}

fn r16_str(r: R16) -> (s: &'static str)
    ensures
        s@ == r16_name(r),
{
    match r {
        R16::BC => "BC",
        R16::DE => "DE",
        R16::HL => "HL",
        R16::SP => "SP",
    }
}

fn r16mem_str(r: R16Memory) -> (s: &'static str)
    ensures
        s@ == r16mem_name(r),
{
    match r {
        R16Memory::BC => "BC",
        R16Memory::DE => "DE",
        R16Memory::HLI => "HL+",
        R16Memory::HLD => "HL-",
    }
}

fn r16stk_str(r: R16Stack) -> (s: &'static str)
    ensures
        s@ == r16stk_name(r),
{
    match r {
        R16Stack::BC => "BC",
        R16Stack::DE => "DE",
        R16Stack::HL => "HL",
        R16Stack::AF => "AF",
    }
}

fn condition_str(c: Condition) -> (s: &'static str)
    ensures
        s@ == condition_name(c),
{
    match c {
        Condition::NZ => "NZ",
        Condition::Z => "Z",
        Condition::NC => "NC",
        Condition::C => "C",
    }
}

fn hex_digit_str(d: u16) -> (s: &'static str)
    requires
        d < 16,
    ensures
        s@ == hex_digit(d as int),
{
    match d {
        0 => "0",
        1 => "1",
        2 => "2",
        3 => "3",
        4 => "4",
        5 => "5",
        6 => "6",
        7 => "7",
        8 => "8",
        9 => "9",
        10 => "A",
        11 => "B",
        12 => "C",
        13 => "D",
        14 => "E",
        _ => "F",
    }
}

/// Appends `v` as `{:#04X}` writes it.
fn push_hex(s: &mut String, v: u16)
    ensures
        final(s)@ == old(s)@ + hex(v as nat),
{
    proof {
        reveal_with_fuel(hex_digits, 5);
    }
    s.append("0x");
    if v < 16 {
        s.append("0");
        s.append(hex_digit_str(v));
        assert(s@ =~= old(s)@ + hex(v as nat));
    } else if v < 256 {
        s.append(hex_digit_str(v / 16));
        s.append(hex_digit_str(v % 16));
        assert(hex_digits(v as nat) == hex_digit((v / 16) as int) + hex_digit((v % 16) as int));
        assert(s@ =~= old(s)@ + hex(v as nat));
    } else if v < 4096 {
        s.append(hex_digit_str(v / 256));
        s.append(hex_digit_str((v / 16) % 16));
        s.append(hex_digit_str(v % 16));
        assert(hex_digits((v / 16) as nat) == hex_digit((v / 256) as int) + hex_digit(((v / 16) % 16) as int));
        assert(hex_digits(v as nat) == hex_digits((v / 16) as nat) + hex_digit((v % 16) as int));
        assert(s@ =~= old(s)@ + hex(v as nat));
    } else {
        s.append(hex_digit_str(v / 4096));
        s.append(hex_digit_str((v / 256) % 16));
        s.append(hex_digit_str((v / 16) % 16));
        s.append(hex_digit_str(v % 16));
        assert(hex_digits((v / 256) as nat) == hex_digit((v / 4096) as int) + hex_digit(((v / 256) % 16) as int));
        assert(hex_digits((v / 16) as nat) == hex_digits((v / 256) as nat) + hex_digit(((v / 16) % 16) as int));
        assert(hex_digits(v as nat) == hex_digits((v / 16) as nat) + hex_digit((v % 16) as int));
        assert(s@ =~= old(s)@ + hex(v as nat));
    }
}

/// `head`, then `tail`.
fn text(head: &str, tail: &str) -> (s: String)
    ensures
        s@ == head@ + tail@,
{
    String::from_str(head).concat(tail)
}

/// The CB-prefixed instruction `opcode` in assembly.
fn prefixed(opcode: u8) -> (s: String)
    ensures
        s@ == prefixed_text(opcode),
{
    proof {
        lemma_opcode_fields(opcode);
    }
    let operation = (opcode & 0b1100_0000) >> 6;
    let register = r8_str(R8::from(opcode & 0b0000_0111));
    let bit_index = ((opcode & 0b0011_1000) >> 3) as u16;
    let mut s = match operation {
        0b01 => String::from_str("BIT "),
        0b10 => String::from_str("RES "),
        0b11 => String::from_str("SET "),
        _ => {
            let name = match (opcode & 0b0011_1000) >> 3 {
                0b000 => "RLC ",
                0b001 => "RRC ",
                0b010 => "RL ",
                0b011 => "RR ",
                0b100 => "SLA ",
                0b101 => "SRA ",
                0b110 => "SWAP ",
                _ => "SRL ",
            };
            let s = text(name, register);
            return s;
        },
    };
    s.append(hex_digit_str(bit_index));
    s.append(",");
    s.append(register);
    s
}

impl Instruction {
    /// The instruction in assembly, with `next_byte` and `next_word` as the
    /// operands that follow its opcode.
    pub fn disassemble(&self, opcode: u8, next_byte: u8, next_word: u16) -> (r: String)
        ensures
            r@ == disassembly(*self, opcode, next_byte, next_word),
    {
        proof {
            lemma_opcode_fields(opcode);
        }
        let r16 = r16_str(R16::from((opcode & 0b0011_0000) >> 4));
        let r16mem = r16mem_str(R16Memory::from((opcode & 0b0011_0000) >> 4));
        let r16stk = r16stk_str(R16Stack::from((opcode & 0b0011_0000) >> 4));
        let r8_dst = r8_str(R8::from((opcode & 0b0011_1000) >> 3));
        let r8_src = r8_str(R8::from(opcode & 0b0000_0111));
        let cond = condition_str(Condition::from((opcode & 0b0001_1000) >> 3));
        let byte = next_byte as u16;
        let s = match self {
            Instruction::LdR16Imm16 => {
                let mut s = text("LD ", r16);
                s.append(",");
                push_hex(&mut s, next_word);
                s
            },
            Instruction::LdR16MemA => text("LD [", r16mem).concat("],A"),
            Instruction::LdAR16Mem => text("LD A,[", r16mem).concat("]"),
            Instruction::LdImm16Sp => {
                let mut s = String::from_str("LD ");
                push_hex(&mut s, next_word);
                s.concat(",SP")
            },
            Instruction::LdR8Imm8 => {
                let mut s = text("LD ", r8_dst);
                s.append(",");
                push_hex(&mut s, byte);
                s
            },
            Instruction::LdR8R8 => text("LD ", r8_dst).concat(",").concat(r8_src),
            Instruction::LdhCMemA => String::from_str("LD [FF00+C],A"),
            Instruction::LdhImm8MemA => {
                let mut s = String::from_str("LD [FF00+");
                push_hex(&mut s, byte);
                s.concat("],A")
            },
            Instruction::LdImm16MemA => {
                let mut s = String::from_str("LD [");
                push_hex(&mut s, next_word);
                s.concat("],A")
            },
            Instruction::LdhACMem => String::from_str("LD A,[FF00+C]"),
            Instruction::LdhAImm8Mem => {
                let mut s = String::from_str("LD A,[FF00+");
                push_hex(&mut s, byte);
                s.concat("]")
            },
            Instruction::LdAImm16Mem => {
                let mut s = String::from_str("LD A,[");
                push_hex(&mut s, next_word);
                s.concat("]")
            },
            Instruction::LdHlSpPlusSignedImm8 => {
                let mut s = String::from_str("LD HL,SP+");
                push_hex(&mut s, byte);
                s
            },
            Instruction::LdSpHl => String::from_str("LD SP,HL"),
            Instruction::PopR16Stk => text("POP ", r16stk),
            Instruction::PushR16Stk => text("PUSH ", r16stk),
            Instruction::IncR16 => text("INC ", r16),
            Instruction::IncR8 => text("INC ", r8_dst),
            Instruction::DecR16 => text("DEC ", r16),
            Instruction::DecR8 => text("DEC ", r8_dst),
            Instruction::Daa => String::from_str("DAA"),
            Instruction::Cpl => String::from_str("CPL"),
            Instruction::Scf => String::from_str("SCF"),
            Instruction::Ccf => String::from_str("CCF"),
            Instruction::AddHlR16 => text("ADD HL,", r16),
            Instruction::AddSpSignedImm8 => String::from_str("ADD SP,u8"),
            Instruction::AddAR8 => text("ADD A,", r8_src),
            Instruction::AdcAR8 => text("ADC A,", r8_src),
            Instruction::SubAR8 => text("SUB A,", r8_src),
            Instruction::SbcAR8 => text("SBC A,", r8_src),
            Instruction::AndAR8 => text("AND A,", r8_src),
            Instruction::XorAR8 => text("XOR A,", r8_src),
            Instruction::OrAR8 => text("OR A,", r8_src),
            Instruction::CpAR8 => text("CP A,", r8_src),
            Instruction::AddAImm8 => {
                let mut s = String::from_str("ADD A,");
                push_hex(&mut s, byte);
                s
            },
            Instruction::AdcAImm8 => {
                let mut s = String::from_str("ADC A,");
                push_hex(&mut s, byte);
                s
            },
            Instruction::SubAImm8 => {
                let mut s = String::from_str("SUB A,");
                push_hex(&mut s, byte);
                s
            },
            Instruction::SbcAImm8 => {
                let mut s = String::from_str("SBC A,");
                push_hex(&mut s, byte);
                s
            },
            Instruction::AndAImm8 => {
                let mut s = String::from_str("AND A,");
                push_hex(&mut s, byte);
                s
            },
            Instruction::XorAImm8 => {
                let mut s = String::from_str("XOR A,");
                push_hex(&mut s, byte);
                s
            },
            Instruction::OrAImm8 => {
                let mut s = String::from_str("OR A,");
                push_hex(&mut s, byte);
                s
            },
            Instruction::CpAImm8 => {
                let mut s = String::from_str("CP A,");
                push_hex(&mut s, byte);
                s
            },
            Instruction::Rlca => String::from_str("RLCA"),
            Instruction::Rrca => String::from_str("RRCA"),
            Instruction::Rla => String::from_str("RLA"),
            Instruction::Rra => String::from_str("RRA"),
            Instruction::JrSignedImm8 => {
                let mut s = String::from_str("JR ");
                push_hex(&mut s, byte);
                s
            },
            Instruction::JrCondSignedImm8 => {
                let mut s = text("JR ", cond);
                s.append(",");
                push_hex(&mut s, byte);
                s
            },
            Instruction::JpCondImm16 => {
                let mut s = text("JP ", cond);
                s.append(",");
                push_hex(&mut s, next_word);
                s
            },
            Instruction::JpImm16 => {
                let mut s = String::from_str("JP ");
                push_hex(&mut s, next_word);
                s
            },
            Instruction::JpHl => String::from_str("JP HL"),
            Instruction::RetCond => text("RET ", cond),
            Instruction::Ret => String::from_str("RET"),
            Instruction::Reti => String::from_str("RETI"),
            Instruction::CallCondImm16 => {
                let mut s = text("CALL ", cond);
                s.append(",");
                push_hex(&mut s, next_word);
                s
            },
            Instruction::CallImm16 => {
                let mut s = String::from_str("CALL ");
                push_hex(&mut s, next_word);
                s
            },
            Instruction::RstTgt3 => {
                let target = (((opcode & 0b0011_1000) >> 3) / 8) as u16;
                text("RST 0", hex_digit_str(target)).concat("h")
            },
            Instruction::Nop => String::from_str("NOP"),
            Instruction::Stop => String::from_str("STOP"),
            Instruction::Halt => String::from_str("HALT"),
            Instruction::Di => String::from_str("DI"),
            Instruction::Ei => String::from_str("EI"),
            Instruction::Prefix => prefixed(next_byte),
        };
        assert(s@ =~= disassembly(*self, opcode, next_byte, next_word));
        s
    }
}

} // verus!
