//! The attribute byte of an object in object attribute memory.
use vstd::prelude::*;

use crate::bits::lemma_or_zero;
use crate::ppu::registers::{has, lemma_pack8, lemma_unpack8, pack8, pack_bits};

verus! {

/// The attributes of an object: drawn behind the background, flipped
/// vertically or horizontally, which monochrome palette, which video RAM bank
/// and which color palette.
#[derive(Debug, Copy, Clone, PartialEq, Eq, Structural)]
pub struct Flags {
    pub priority: bool,
    pub y_flip: bool,
    pub x_flip: bool,
    pub dmg_palette: bool,
    pub bank: bool,
    pub cgb_palette: u8,
}

/// The attributes that an attribute byte describes.
pub open spec fn flags_from_byte(value: u8) -> Flags {
    Flags {
        priority: has(value, 0x80),
        y_flip: has(value, 0x40),
        x_flip: has(value, 0x20),
        dmg_palette: has(value, 0x10),
        bank: has(value, 0x08),
        cgb_palette: value & 0x07,
    }
}

/// The attribute byte that attributes are stored as: the color palette
/// number is or-ed in from bit 2 up.
pub open spec fn flags_to_byte(f: Flags) -> u8 {
    pack8(f.priority, f.y_flip, f.x_flip, f.dmg_palette, f.bank, false, false, false) | (f.cgb_palette << 2u8)
}

impl Flags {
    /// All attributes clear.
    pub fn new() -> (r: Flags)
        ensures
            r == flags_from_byte(0),
    {
        proof {
            lemma_pack8(false, false, false, false, false, false, false, false);
            lemma_byte_split_zero();
        }
        Self { priority: false, y_flip: false, x_flip: false, dmg_palette: false, bank: false, cgb_palette: 0 }
    }

    pub fn priority(&self) -> (r: bool)
        ensures
            r == self.priority,
    {
        self.priority
    }

    pub fn y_flip(&self) -> (r: bool)
        ensures
            r == self.y_flip,
    {
        self.y_flip
    }

    pub fn x_flip(&self) -> (r: bool)
        ensures
            r == self.x_flip,
    {
        self.x_flip
    }

    pub fn dmg_palette(&self) -> (r: bool)
        ensures
            r == self.dmg_palette,
    {
        self.dmg_palette
    }

    pub fn bank(&self) -> (r: bool)
        ensures
            r == self.bank,
    {
        self.bank
    }

    pub fn cgb_palette(&self) -> (r: u8)
        ensures
            r == self.cgb_palette,
    {
        self.cgb_palette
    }

    /// The attributes that a byte describes.
    pub fn from_byte(value: u8) -> (r: Flags)
        ensures
            r == flags_from_byte(value),
    {
        Flags {
            priority: (value & 0x80) != 0,
            y_flip: (value & 0x40) != 0,
            x_flip: (value & 0x20) != 0,
            dmg_palette: (value & 0x10) != 0,
            bank: (value & 0x08) != 0,
            cgb_palette: value & 0x07,
        }
    }

    /// The byte that the attributes are stored as.
    pub fn to_byte(&self) -> (r: u8)
        ensures
            r == flags_to_byte(*self),
    {
        pack_bits(self.priority, self.y_flip, self.x_flip, self.dmg_palette, self.bank, false, false, false)
            | (self.cgb_palette << 2u8)
    }
}

/// Zero has no bit set.
proof fn lemma_byte_split_zero()
    ensures
        0u8 & 0x07 == 0,
{
    crate::bits::lemma_byte_split(0);
}

impl From<&Flags> for u8 {
    fn from(flags: &Flags) -> (r: u8) {
        flags.to_byte()
    }
}

impl vstd::std_specs::convert::FromSpecImpl<&Flags> for u8 {
    open spec fn obeys_from_spec() -> bool {
        true
    }

    open spec fn from_spec(v: &Flags) -> u8 {
        flags_to_byte(*v)
    }
}

impl From<u8> for Flags {
    fn from(value: u8) -> (r: Flags) {
        Flags::from_byte(value)
    }
}

impl vstd::std_specs::convert::FromSpecImpl<u8> for Flags {
    open spec fn obeys_from_spec() -> bool {
        true
    }

    open spec fn from_spec(v: u8) -> Flags {
        flags_from_byte(v)
    }
}

/// Storing attributes whose color palette number is zero and decoding the
/// byte gives the same attributes.
pub proof fn lemma_flags_roundtrip(f: Flags)
    requires
        f.cgb_palette == 0,
    ensures
        flags_from_byte(flags_to_byte(f)) == f,
{
    let p = pack8(f.priority, f.y_flip, f.x_flip, f.dmg_palette, f.bank, false, false, false);
    lemma_pack8(f.priority, f.y_flip, f.x_flip, f.dmg_palette, f.bank, false, false, false);
    lemma_or_zero(p);
    crate::bits::lemma_byte_split(p);
}

/// Decoding an attribute byte whose three low bits are clear and storing the
/// attributes gives the byte back.
pub proof fn lemma_flags_byte_roundtrip(value: u8)
    requires
        value & 0x07 == 0,
    ensures
        flags_to_byte(flags_from_byte(value)) == value,
{
    lemma_unpack8(value);
    crate::bits::lemma_byte_split(value);
    let p = pack8(has(value, 0x80), has(value, 0x40), has(value, 0x20), has(value, 0x10), has(value, 0x08), false, false, false);
    lemma_or_zero(p);
}

} // verus!
