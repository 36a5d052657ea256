//! An object (sprite) as object attribute memory describes it.
use vstd::prelude::*;

use crate::ppu::registers::{has, lemma_pack8, lemma_unpack8, pack8, pack_bits};

verus! {

/// The height of objects: 8x8 or 8x16 pixels.
#[derive(Clone, Copy, PartialEq, Eq, Debug, Structural)]
pub enum ObjectSize {
    Size8x8,
    Size8x16,
}

impl ObjectSize {
    /// The height in pixels.
    pub fn height(self) -> (r: usize)
        ensures
            r == (match self {
                ObjectSize::Size8x8 => 8usize,
                ObjectSize::Size8x16 => 16usize,
            }),
    {
        match self {
            ObjectSize::Size8x8 => 8,
            ObjectSize::Size8x16 => 16,
        }
    }
}

/// The palette that colors an object: one of the two object palettes, or the
/// background palette (which objects never use).
#[derive(Clone, Copy, PartialEq, Eq, Debug, Structural)]
pub enum Palette {
    Obp0,
    Obp1,
    Bg,
}

/// An object: its position (offset by 16 lines and 8 columns), its tile and
/// its attributes.
#[derive(Clone, Copy, PartialEq, Eq, Debug, Structural)]
pub struct Object {
    pub y: u8,
    pub x: u8,
    pub tile_index: u8,
    pub behind_background: bool,
    pub y_flip: bool,
    pub x_flip: bool,
    pub dmg_pallete: Palette,
}

/// The attribute byte that an object's attributes are read back as.
pub open spec fn object_flags_byte(o: Object) -> u8 {
    pack8(o.behind_background, o.y_flip, o.x_flip, o.dmg_pallete == Palette::Obp1, false, false, false, false)
}

impl Object {
    /// An object at the top-left corner with tile 0 and no attributes.
    pub fn new() -> (r: Object)
        ensures
            r == (Object {
                y: 0,
                x: 0,
                tile_index: 0,
                behind_background: false,
                y_flip: false,
                x_flip: false,
                dmg_pallete: Palette::Obp0,
            }),
    {
        Object {
            y: 0,
            x: 0,
            tile_index: 0,
            behind_background: false,
            y_flip: false,
            x_flip: false,
            dmg_pallete: Palette::Obp0,
        }
    }

    pub fn set_x_position(&mut self, x: u8)
        ensures
            *final(self) == (Object { x, ..*old(self) }),
    {
        self.x = x;
    }

    pub fn x_position(&self) -> (r: u8)
        ensures
            r == self.x,
    {
        self.x
    }

    pub fn set_y_position(&mut self, y: u8)
        ensures
            *final(self) == (Object { y, ..*old(self) }),
    {
        self.y = y;
    }

    pub fn y_position(&self) -> (r: u8)
        ensures
            r == self.y,
    {
        self.y
    }

    /// The screen line of the object's top row (the stored position less 16).
    pub fn top_line(&self) -> (r: i32)
        ensures
            r == self.y - 16,
    {
        (self.y as i32) - 16
    }

    /// The screen column of the object's left edge (the stored position less 8).
    pub fn left_column(&self) -> (r: i32)
        ensures
            r == self.x - 8,
    {
        (self.x as i32) - 8
    }

    pub fn set_tile_index(&mut self, tile: u8)
        ensures
            *final(self) == (Object { tile_index: tile, ..*old(self) }),
    {
        self.tile_index = tile;
    }

    pub fn tile_index(&self) -> (r: u8)
        ensures
            r == self.tile_index,
    {
        self.tile_index
    }

    pub fn is_behind_background(&self) -> (r: bool)
        ensures
            r == self.behind_background,
    {
        self.behind_background
    }

    pub fn x_flip(&self) -> (r: bool)
        ensures
            r == self.x_flip,
    {
        self.x_flip
    }

    pub fn y_flip(&self) -> (r: bool)
        ensures
            r == self.y_flip,
    {
        self.y_flip
    }

    pub fn palette(&self) -> (r: Palette)
        ensures
            r == self.dmg_pallete,
    {
        self.dmg_pallete
    }

    /// Sets the attributes from an attribute byte: bit 7 behind background,
    /// bit 6 vertical flip, bit 5 horizontal flip, bit 4 the second palette.
    pub fn set_flags(&mut self, data: u8)
        ensures
            *final(self) == (Object {
                behind_background: has(data, 0x80),
                y_flip: has(data, 0x40),
                x_flip: has(data, 0x20),
                dmg_pallete: if has(data, 0x10) { Palette::Obp1 } else { Palette::Obp0 },
                ..*old(self)
            }),
    {
        self.behind_background = data & 0x80 != 0;
        self.y_flip = data & 0x40 != 0;
        self.x_flip = data & 0x20 != 0;
        self.dmg_pallete = match data & 0x10 != 0 {
            false => Palette::Obp0,
            true => Palette::Obp1,
        }
    }

    /// The attribute byte; objects never use the background palette.
    pub fn flags(&self) -> (r: u8)
        requires
            self.dmg_pallete != Palette::Bg,
        ensures
            r == object_flags_byte(*self),
    {
        let palette = match self.dmg_pallete {
            Palette::Obp0 => false,
            Palette::Obp1 => true,
            Palette::Bg => false,
        };
        pack_bits(self.behind_background, self.y_flip, self.x_flip, palette, false, false, false, false)
    }
}

/// Reading the attributes back after setting them from a byte gives the
/// byte's high nibble.
pub proof fn lemma_object_flags_roundtrip(o: Object, data: u8)
    ensures
        object_flags_byte(Object {
            behind_background: has(data, 0x80),
            y_flip: has(data, 0x40),
            x_flip: has(data, 0x20),
            dmg_pallete: if has(data, 0x10) { Palette::Obp1 } else { Palette::Obp0 },
            ..o
        }) == data & 0xF0,
{
    lemma_unpack8(data & 0xF0);
    crate::bits::lemma_byte_split(data);
    crate::bits::lemma_byte_split(data & 0xF0);
    assert((data & 0xF0) & 0x80 == data & 0x80 && (data & 0xF0) & 0x40 == data & 0x40 && (data & 0xF0)
        & 0x20 == data & 0x20 && (data & 0xF0) & 0x10 == data & 0x10 && (data & 0xF0) & 0x08 == 0
        && (data & 0xF0) & 0x04 == 0 && (data & 0xF0) & 0x02 == 0 && (data & 0xF0) & 0x01 == 0)
        by (bit_vector);
}

} // verus!
