//! The operands encoded in opcode bits: eight-bit registers (with `[HL]`),
//! register pairs, memory pointers, stack pairs and branch conditions.
use vstd::prelude::*;

use super::registers::{flags_from_byte, flags_to_byte, pair, Flags, Registers};

verus! {

/// An eight-bit operand: a register, or the byte at HL.
#[derive(Debug, Clone, Copy, PartialEq, Eq, Structural)]
pub enum R8 {
    B,
    C,
    D,
    E,
    H,
    L,
    HlMem,
    A,
}

/// The eight-bit operand of three opcode bits.
pub open spec fn r8_of(v: u8) -> R8 {
    if v == 0 {
        R8::B
    } else if v == 1 {
        R8::C
    } else if v == 2 {
        R8::D
    } else if v == 3 {
        R8::E
    } else if v == 4 {
        R8::H
    } else if v == 5 {
        R8::L
    } else if v == 6 {
        R8::HlMem
    } else {
        R8::A
    }
}

/// The value of a register operand (`[HL]` is not a register).
pub open spec fn reg8(r: Registers, which: R8) -> u8 {
    match which {
        R8::B => r.b,
        R8::C => r.c,
        R8::D => r.d,
        R8::E => r.e,
        R8::H => r.h,
        R8::L => r.l,
        R8::A => r.a,
        R8::HlMem => 0,
    }
}

/// The registers with a register operand set to `v`.
pub open spec fn set_reg8(r: Registers, which: R8, v: u8) -> Registers {
    match which {
        R8::B => Registers { b: v, ..r },
        R8::C => Registers { c: v, ..r },
        R8::D => Registers { d: v, ..r },
        R8::E => Registers { e: v, ..r },
        R8::H => Registers { h: v, ..r },
        R8::L => Registers { l: v, ..r },
        R8::A => Registers { a: v, ..r },
        R8::HlMem => r,
    }
}

impl R8 {
    /// The operand of three opcode bits.
    pub fn from(v: u8) -> (r: R8)
        requires
            v < 8,
        ensures
            r == r8_of(v),
    {
        match v {
            0 => R8::B,
            1 => R8::C,
            2 => R8::D,
            3 => R8::E,
            4 => R8::H,
            5 => R8::L,
            6 => R8::HlMem,
            _ => R8::A,
        }
    }
}

/// A sixteen-bit register operand.
#[derive(Debug, Clone, Copy, PartialEq, Eq, Structural)]
pub enum R16 {
    BC,
    DE,
    HL,
    SP,
}

/// The register pair of two opcode bits.
pub open spec fn r16_of(v: u8) -> R16 {
    if v == 0 {
        R16::BC
    } else if v == 1 {
        R16::DE
    } else if v == 2 {
        R16::HL
    } else {
        R16::SP
    }
}

/// The value of a register pair.
pub open spec fn reg16(r: Registers, which: R16) -> u16 {
    match which {
        R16::BC => pair(r.b, r.c),
        R16::DE => pair(r.d, r.e),
        R16::HL => pair(r.h, r.l),
        R16::SP => r.sp,
    }
}

/// The registers with a register pair set to `v`.
pub open spec fn set_reg16(r: Registers, which: R16, v: u16) -> Registers {
    match which {
        R16::BC => Registers { b: (v / 256) as u8, c: (v % 256) as u8, ..r },
        R16::DE => Registers { d: (v / 256) as u8, e: (v % 256) as u8, ..r },
        R16::HL => Registers { h: (v / 256) as u8, l: (v % 256) as u8, ..r },
        R16::SP => Registers { sp: v, ..r },
    }
}

impl R16 {
    /// The register pair of two opcode bits.
    pub fn from(v: u8) -> (r: R16)
        requires
            v < 4,
        ensures
            r == r16_of(v),
    {
        match v {
            0 => R16::BC,
            1 => R16::DE,
            2 => R16::HL,
            _ => R16::SP,
        }
    }

    /// Reads the register pair.
    pub fn load(self, registers: &Registers) -> (r: u16)
        ensures
            r == reg16(*registers, self),
    {
        match self {
            R16::BC => registers.bc(),
            R16::DE => registers.de(),
            R16::HL => registers.hl(),
            R16::SP => registers.sp(),
        }
    }

    /// Sets the register pair.
    pub fn store(self, registers: &mut Registers, value: u16)
        ensures
            *final(registers) == set_reg16(*old(registers), self, value),
    {
        match self {
            R16::BC => registers.set_bc(value),
            R16::DE => registers.set_de(value),
            R16::HL => registers.set_hl(value),
            R16::SP => registers.set_sp(value),
        }
    }
}

/// A memory pointer operand: BC, DE, or HL incremented or decremented
/// after use.
#[derive(Debug, Clone, Copy, PartialEq, Eq, Structural)]
pub enum R16Memory {
    BC,
    DE,
    HLI,
    HLD,
}

/// The memory pointer of two opcode bits.
pub open spec fn r16mem_of(v: u8) -> R16Memory {
    if v == 0 {
        R16Memory::BC
    } else if v == 1 {
        R16Memory::DE
    } else if v == 2 {
        R16Memory::HLI
    } else {
        R16Memory::HLD
    }
}

/// The address a memory pointer gives.
pub open spec fn r16mem_address(r: Registers, which: R16Memory) -> u16 {
    match which {
        R16Memory::BC => pair(r.b, r.c),
        R16Memory::DE => pair(r.d, r.e),
        R16Memory::HLI | R16Memory::HLD => pair(r.h, r.l),
    }
}

/// The registers after a memory pointer is used: HL moves on (wrapping)
/// for `HL+` and `HL-`.
pub open spec fn r16mem_after(r: Registers, which: R16Memory) -> Registers {
    match which {
        R16Memory::HLI => set_reg16(r, R16::HL, ((pair(r.h, r.l) + 1) % 65536) as u16),
        R16Memory::HLD => set_reg16(r, R16::HL, ((pair(r.h, r.l) - 1) % 65536) as u16),
        _ => r,
    }
}

impl R16Memory {
    /// The memory pointer of two opcode bits.
    pub fn from(v: u8) -> (r: R16Memory)
        requires
            v < 4,
        ensures
            r == r16mem_of(v),
    {
        match v {
            0 => R16Memory::BC,
            1 => R16Memory::DE,
            2 => R16Memory::HLI,
            _ => R16Memory::HLD,
        }
    }

    /// The address, and HL moved on for `HL+` and `HL-`.
    pub fn load(self, registers: &mut Registers) -> (r: u16)
        ensures
            r == r16mem_address(*old(registers), self),
            *final(registers) == r16mem_after(*old(registers), self),
    {
        match self {
            R16Memory::BC => registers.bc(),
            R16Memory::DE => registers.de(),
            R16Memory::HLI => {
                let hl = registers.hl();
                registers.set_hl(hl.wrapping_add(1));
                hl
            },
            R16Memory::HLD => {
                let hl = registers.hl();
                registers.set_hl(hl.wrapping_sub(1));
                hl
            },
        }
    }
}

/// A register pair that `PUSH` and `POP` move: AF takes the place of SP.
#[derive(Debug, Clone, Copy, PartialEq, Eq, Structural)]
pub enum R16Stack {
    BC,
    DE,
    HL,
    AF,
}

/// The stack pair of two opcode bits.
pub open spec fn r16stk_of(v: u8) -> R16Stack {
    if v == 0 {
        R16Stack::BC
    } else if v == 1 {
        R16Stack::DE
    } else if v == 2 {
        R16Stack::HL
    } else {
        R16Stack::AF
    }
}

/// The value of a stack pair.
pub open spec fn reg_stk(r: Registers, which: R16Stack) -> u16 {
    match which {
        R16Stack::BC => pair(r.b, r.c),
        R16Stack::DE => pair(r.d, r.e),
        R16Stack::HL => pair(r.h, r.l),
        R16Stack::AF => pair(r.a, flags_to_byte(r.f)),
    }
}

/// The registers with a stack pair set to `v` (the low nibble of F cannot
/// be set).
pub open spec fn set_reg_stk(r: Registers, which: R16Stack, v: u16) -> Registers {
    match which {
        R16Stack::BC => Registers { b: (v / 256) as u8, c: (v % 256) as u8, ..r },
        R16Stack::DE => Registers { d: (v / 256) as u8, e: (v % 256) as u8, ..r },
        R16Stack::HL => Registers { h: (v / 256) as u8, l: (v % 256) as u8, ..r },
        R16Stack::AF => Registers { a: (v / 256) as u8, f: flags_from_byte((v % 256) as u8), ..r },
    }
}

impl R16Stack {
    /// The stack pair of two opcode bits.
    pub fn from(v: u8) -> (r: R16Stack)
        requires
            v < 4,
        ensures
            r == r16stk_of(v),
    {
        match v {
            0 => R16Stack::BC,
            1 => R16Stack::DE,
            2 => R16Stack::HL,
            _ => R16Stack::AF,
        }
    }

    /// Reads the stack pair.
    pub fn load(self, registers: &Registers) -> (r: u16)
        ensures
            r == reg_stk(*registers, self),
    {
        match self {
            R16Stack::BC => registers.bc(),
            R16Stack::DE => registers.de(),
            R16Stack::HL => registers.hl(),
            R16Stack::AF => registers.af(),
        }
    }

    /// Sets the stack pair.
    pub fn store(self, registers: &mut Registers, value: u16)
        ensures
            *final(registers) == set_reg_stk(*old(registers), self, value),
    {
        match self {
            R16Stack::BC => registers.set_bc(value),
            R16Stack::DE => registers.set_de(value),
            R16Stack::HL => registers.set_hl(value),
            R16Stack::AF => registers.set_af(value),
        }
    }
}

/// A branch condition.
#[derive(Debug, Clone, Copy, PartialEq, Eq, Structural)]
pub enum Condition {
    NZ,
    Z,
    NC,
    C,
}

/// The condition of two opcode bits.
pub open spec fn condition_of(v: u8) -> Condition {
    if v == 0 {
        Condition::NZ
    } else if v == 1 {
        Condition::Z
    } else if v == 2 {
        Condition::NC
    } else {
        Condition::C
    }
}

/// Whether a condition holds for the flags.
pub open spec fn holds(c: Condition, f: Flags) -> bool {
    match c {
        Condition::NZ => !f.zero,
        Condition::Z => f.zero,
        Condition::NC => !f.carry,
        Condition::C => f.carry,
    }
}

impl Condition {
    /// The condition of two opcode bits.
    pub fn from(v: u8) -> (r: Condition)
        requires
            v < 4,
        ensures
            r == condition_of(v),
    {
        match v {
            0 => Condition::NZ,
            1 => Condition::Z,
            2 => Condition::NC,
            _ => Condition::C,
        }
    }

    /// Whether the condition holds for the flags.
    pub fn test(self, f: &Flags) -> (r: bool)
        ensures
            r == holds(self, *f),
    {
        match self {
            Condition::NZ => !f.zero,
            Condition::Z => f.zero,
            Condition::NC => !f.carry,
            Condition::C => f.carry,
        }
    }
}

} // verus!
