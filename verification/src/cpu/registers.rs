//! The CPU register file and the flag register F.
use vstd::prelude::*;

use crate::GbMode;

verus! {

/// The flag register: zero (bit 7), subtraction (bit 6), half carry (bit 5)
/// and carry (bit 4). The low nibble always reads as zero.
#[derive(Debug, Copy, Clone, PartialEq, Eq, Structural)]
pub struct Flags {
    pub zero: bool,
    pub subtraction: bool,
    pub half_carry: bool,
    pub carry: bool,
}

/// The flags that a byte of the F register encodes.
pub open spec fn flags_from_byte(value: u8) -> Flags {
    Flags {
        zero: value & 0x80 != 0,
        subtraction: value & 0x40 != 0,
        half_carry: value & 0x20 != 0,
        carry: value & 0x10 != 0,
    }
}

/// One bit: 1 for `true`, 0 for `false`.
pub open spec fn bit(b: bool) -> u8 {
    if b { 1 } else { 0 }
}

/// The byte that a set of flags is stored as.
pub open spec fn flags_to_byte(f: Flags) -> u8 {
    (bit(f.zero) * 128 + bit(f.subtraction) * 64 + bit(f.half_carry) * 32 + bit(f.carry) * 16) as u8
}

impl Flags {
    pub fn zero(&self) -> (r: bool)
        ensures
            r == self.zero,
    {
        self.zero
    }

    pub fn set_zero(&mut self, value: bool)
        ensures
            *final(self) == (Flags { zero: value, ..*old(self) }),
    {
        self.zero = value;
    }

    pub fn subtraction(&self) -> (r: bool)
        ensures
            r == self.subtraction,
    {
        self.subtraction
    }

    pub fn set_subtraction(&mut self, value: bool)
        ensures
            *final(self) == (Flags { subtraction: value, ..*old(self) }),
    {
        self.subtraction = value;
    }

    pub fn half_carry(&self) -> (r: bool)
        ensures
            r == self.half_carry,
    {
        self.half_carry
    }

    pub fn set_half_carry(&mut self, value: bool)
        ensures
            *final(self) == (Flags { half_carry: value, ..*old(self) }),
    {
        self.half_carry = value;
    }

    pub fn carry(&self) -> (r: bool)
        ensures
            r == self.carry,
    {
        self.carry
    }

    pub fn set_carry(&mut self, value: bool)
        ensures
            *final(self) == (Flags { carry: value, ..*old(self) }),
    {
        self.carry = value;
    }

    /// Decodes the F register from a byte; the low nibble is ignored.
    pub fn from_byte(value: u8) -> (r: Flags)
        ensures
            r == flags_from_byte(value),
    {
        Flags {
            zero: (value & 0x80) != 0,
            subtraction: (value & 0x40) != 0,
            half_carry: (value & 0x20) != 0,
            carry: (value & 0x10) != 0,
        }
    }

    /// Encodes the flags as the byte the F register holds.
    pub fn to_byte(&self) -> (r: u8)
        ensures
            r == flags_to_byte(*self),
    {
        let z: u8 = if self.zero { 0x80 } else { 0 };
        let n: u8 = if self.subtraction { 0x40 } else { 0 };
        let h: u8 = if self.half_carry { 0x20 } else { 0 };
        let c: u8 = if self.carry { 0x10 } else { 0 };
        z + n + h + c
    }
}

impl From<u8> for Flags {
    fn from(value: u8) -> (r: Flags) {
        Flags::from_byte(value)
    }
}

impl vstd::std_specs::convert::FromSpecImpl<u8> for Flags {
    open spec fn obeys_from_spec() -> bool {
        true
    }

    open spec fn from_spec(v: u8) -> Flags {
        flags_from_byte(v)
    }
}

impl From<&Flags> for u8 {
    fn from(flags: &Flags) -> (r: u8) {
        flags.to_byte()
    }
}

impl vstd::std_specs::convert::FromSpecImpl<&Flags> for u8 {
    open spec fn obeys_from_spec() -> bool {
        true
    }

    open spec fn from_spec(v: &Flags) -> u8 {
        flags_to_byte(*v)
    }
}

/// Decoding the byte that a set of flags is stored as gives back the same flags.
pub proof fn lemma_flags_byte_roundtrip(f: Flags)
    ensures
        flags_from_byte(flags_to_byte(f)) == f,
{
    let (z, n, h, c) = (bit(f.zero), bit(f.subtraction), bit(f.half_carry), bit(f.carry));
    let b = flags_to_byte(f);
    assert(b == z * 128 + n * 64 + h * 32 + c * 16);
    assert(z <= 1 && n <= 1 && h <= 1 && c <= 1);
    assert((z <= 1 && n <= 1 && h <= 1 && c <= 1 && b == z * 128 + n * 64 + h * 32 + c * 16) ==> (
        (b & 0x80 != 0) == (z == 1) && (b & 0x40 != 0) == (n == 1) && (b & 0x20 != 0) == (h == 1)
            && (b & 0x10 != 0) == (c == 1))) by (bit_vector);
}

/// Storing the flags that a byte decodes to gives back the byte's high nibble.
pub proof fn lemma_byte_flags_roundtrip(value: u8)
    ensures
        flags_to_byte(flags_from_byte(value)) == value & 0xF0,
{
    let f = flags_from_byte(value);
    let (z, n, h, c) = (bit(f.zero), bit(f.subtraction), bit(f.half_carry), bit(f.carry));
    assert(z == 1 <==> value & 0x80 != 0);
    assert(n == 1 <==> value & 0x40 != 0);
    assert(h == 1 <==> value & 0x20 != 0);
    assert(c == 1 <==> value & 0x10 != 0);
    assert((z <= 1 && n <= 1 && h <= 1 && c <= 1 && (z == 1 <==> value & 0x80 != 0) && (n == 1
        <==> value & 0x40 != 0) && (h == 1 <==> value & 0x20 != 0) && (c == 1 <==> value & 0x10
        != 0)) ==> z * 128 + n * 64 + h * 32 + c * 16 == value & 0xF0) by (bit_vector);
}

} // verus!

verus! {

/// The eight-bit registers A, F, B, C, D, E, H, L and the sixteen-bit
/// program counter and stack pointer.
#[derive(Debug, Copy, Clone, PartialEq, Eq, Structural)]
pub struct Registers {
    pub a: u8,
    pub f: Flags,
    pub b: u8,
    pub c: u8,
    pub d: u8,
    pub e: u8,
    pub h: u8,
    pub l: u8,
    pub pc: u16,
    pub sp: u16,
}

/// Two bytes as the sixteen-bit value with `hi` as its high byte.
pub open spec fn pair(hi: u8, lo: u8) -> u16 {
    (hi * 256 + lo) as u16
}

/// The register values the boot ROM leaves behind on each kind of hardware.
pub open spec fn initial_registers(mode: GbMode) -> Registers {
    match mode {
        GbMode::Monochrome => Registers {
            a: 0x01,
            f: flags_from_byte(0xB0),
            b: 0x00,
            c: 0x13,
            d: 0x00,
            e: 0xD8,
            h: 0x01,
            l: 0x4D,
            pc: 0x0100,
            sp: 0xFFFE,
        },
        GbMode::Color => Registers {
            a: 0x11,
            f: flags_from_byte(0x80),
            b: 0x00,
            c: 0x00,
            d: 0xFF,
            e: 0x56,
            h: 0x00,
            l: 0x0D,
            pc: 0x0100,
            sp: 0xFFFE,
        },
        GbMode::ColorAsMonochrome => Registers {
            a: 0x11,
            f: flags_from_byte(0x80),
            b: 0x00,
            c: 0x00,
            d: 0x00,
            e: 0x08,
            h: 0x00,
            l: 0x7C,
            pc: 0x0100,
            sp: 0xFFFE,
        },
    }
}

impl Registers {
    /// The registers as the boot ROM leaves them for `mode`.
    pub fn new(mode: GbMode) -> (r: Registers)
        ensures
            r == initial_registers(mode),
    {
        match mode {
            GbMode::Monochrome => Registers {
                a: 0x01,
                f: Flags::from_byte(0b1011_0000),
                b: 0x00,
                c: 0x13,
                d: 0x00,
                e: 0xD8,
                h: 0x01,
                l: 0x4D,
                pc: 0x0100,
                sp: 0xFFFE,
            },
            GbMode::Color => Registers {
                a: 0x11,
                f: Flags::from_byte(0b1000_0000),
                b: 0x00,
                c: 0x00,
                d: 0xFF,
                e: 0x56,
                h: 0x00,
                l: 0x0D,
                pc: 0x0100,
                sp: 0xFFFE,
            },
            GbMode::ColorAsMonochrome => Registers {
                a: 0x11,
                f: Flags::from_byte(0b1000_0000),
                b: 0x00,
                c: 0x00,
                d: 0x00,
                e: 0x08,
                h: 0x00,
                l: 0x7C,
                pc: 0x0100,
                sp: 0xFFFE,
            },
        }
    }

    pub fn a(&self) -> (r: u8)
        ensures
            r == self.a,
    {
        self.a
    }

    pub fn set_a(&mut self, value: u8)
        ensures
            *final(self) == (Registers { a: value, ..*old(self) }),
    {
        self.a = value;
    }

    pub fn b(&self) -> (r: u8)
        ensures
            r == self.b,
    {
        self.b
    }

    pub fn set_b(&mut self, value: u8)
        ensures
            *final(self) == (Registers { b: value, ..*old(self) }),
    {
        self.b = value;
    }

    pub fn c(&self) -> (r: u8)
        ensures
            r == self.c,
    {
        self.c
    }

    pub fn set_c(&mut self, value: u8)
        ensures
            *final(self) == (Registers { c: value, ..*old(self) }),
    {
        self.c = value;
    }

    pub fn d(&self) -> (r: u8)
        ensures
            r == self.d,
    {
        self.d
    }

    pub fn set_d(&mut self, value: u8)
        ensures
            *final(self) == (Registers { d: value, ..*old(self) }),
    {
        self.d = value;
    }

    pub fn e(&self) -> (r: u8)
        ensures
            r == self.e,
    {
        self.e
    }

    pub fn set_e(&mut self, value: u8)
        ensures
            *final(self) == (Registers { e: value, ..*old(self) }),
    {
        self.e = value;
    }

    pub fn h(&self) -> (r: u8)
        ensures
            r == self.h,
    {
        self.h
    }

    pub fn set_h(&mut self, value: u8)
        ensures
            *final(self) == (Registers { h: value, ..*old(self) }),
    {
        self.h = value;
    }

    pub fn l(&self) -> (r: u8)
        ensures
            r == self.l,
    {
        self.l
    }

    pub fn set_l(&mut self, value: u8)
        ensures
            *final(self) == (Registers { l: value, ..*old(self) }),
    {
        self.l = value;
    }

    pub fn pc(&self) -> (r: u16)
        ensures
            r == self.pc,
    {
        self.pc
    }

    pub fn set_pc(&mut self, value: u16)
        ensures
            *final(self) == (Registers { pc: value, ..*old(self) }),
    {
        self.pc = value;
    }

    pub fn sp(&self) -> (r: u16)
        ensures
            r == self.sp,
    {
        self.sp
    }

    pub fn set_sp(&mut self, value: u16)
        ensures
            *final(self) == (Registers { sp: value, ..*old(self) }),
    {
        self.sp = value;
    }

    /// The flag register, for reading and changing in place.
    pub fn f(&mut self) -> (r: &mut Flags)
        ensures
            *r == old(self).f,
            *final(self) == (Registers { f: *final(r), ..*old(self) }),
    {
        &mut self.f
    }

    pub fn set_f(&mut self, flags: Flags)
        ensures
            *final(self) == (Registers { f: flags, ..*old(self) }),
    {
        self.f = flags;
    }

    /// The register pair AF.
    pub fn af(&self) -> (r: u16)
        ensures
            r == pair(self.a, flags_to_byte(self.f)),
    {
        (self.a as u16) * 256 + (self.f.to_byte() as u16)
    }

    /// Sets AF; the low nibble of F cannot be set and reads as zero.
    pub fn set_af(&mut self, value: u16)
        ensures
            *final(self) == (Registers {
                a: (value / 256) as u8,
                f: flags_from_byte((value % 256) as u8),
                ..*old(self)
            }),
    {
        self.a = (value / 256) as u8;
        self.f = Flags::from_byte((value % 256) as u8);
    }

    /// The register pair BC.
    pub fn bc(&self) -> (r: u16)
        ensures
            r == pair(self.b, self.c),
    {
        (self.b as u16) * 256 + (self.c as u16)
    }

    pub fn set_bc(&mut self, value: u16)
        ensures
            *final(self) == (Registers { b: (value / 256) as u8, c: (value % 256) as u8, ..*old(self) }),
            pair(final(self).b, final(self).c) == value,
    {
        self.b = (value / 256) as u8;
        self.c = (value % 256) as u8;
    }

    /// The register pair DE.
    pub fn de(&self) -> (r: u16)
        ensures
            r == pair(self.d, self.e),
    {
        (self.d as u16) * 256 + (self.e as u16)
    }

    pub fn set_de(&mut self, value: u16)
        ensures
            *final(self) == (Registers { d: (value / 256) as u8, e: (value % 256) as u8, ..*old(self) }),
            pair(final(self).d, final(self).e) == value,
    {
        self.d = (value / 256) as u8;
        self.e = (value % 256) as u8;
    }

    /// The register pair HL.
    pub fn hl(&self) -> (r: u16)
        ensures
            r == pair(self.h, self.l),
    {
        (self.h as u16) * 256 + (self.l as u16)
    }

    pub fn set_hl(&mut self, value: u16)
        ensures
            *final(self) == (Registers { h: (value / 256) as u8, l: (value % 256) as u8, ..*old(self) }),
            pair(final(self).h, final(self).l) == value,
    {
        self.h = (value / 256) as u8;
        self.l = (value % 256) as u8;
    }

    /// Returns HL and then decrements it.
    pub fn decrement_hl(&mut self) -> (r: u16)
        requires
            pair(old(self).h, old(self).l) > 0,
        ensures
            r == pair(old(self).h, old(self).l),
            pair(final(self).h, final(self).l) == r - 1,
            *final(self) == (Registers { h: final(self).h, l: final(self).l, ..*old(self) }),
    {
        let hl = self.hl();
        self.set_hl(hl - 1);
        hl
    }

    /// Returns HL and then increments it.
    pub fn increment_hl(&mut self) -> (r: u16)
        requires
            pair(old(self).h, old(self).l) < 0xFFFF,
        ensures
            r == pair(old(self).h, old(self).l),
            pair(final(self).h, final(self).l) == r + 1,
            *final(self) == (Registers { h: final(self).h, l: final(self).l, ..*old(self) }),
    {
        let hl = self.hl();
        self.set_hl(hl + 1);
        hl
    }
}

/// Setting a register pair and reading it back gives the value that was set.
pub proof fn lemma_pair_split(value: u16)
    ensures
        pair((value / 256) as u8, (value % 256) as u8) == value,
{
}

} // verus!
