//! Where tiles and tile maps live in video RAM.
use vstd::prelude::*;

verus! {

pub const TILE_WIDTH: u8 = 8;

pub const TILE_HEIGHT: u8 = TILE_WIDTH;

/// Bytes that one 8x8 tile takes in video RAM.
pub const TILE_BYTES: u16 = 16;

/// How a tile index is turned into an address: `Low` counts unsigned from
/// 0x8000, `High` counts signed from 0x9000.
#[derive(Debug, Clone, Copy, PartialEq, Eq, Structural)]
pub enum TileDataAddressingMode {
    High,
    Low,
}

/// The address of the first byte of tile `tile_index`.
pub open spec fn tile_address_spec(mode: TileDataAddressingMode, tile_index: u8) -> u16 {
    match mode {
        TileDataAddressingMode::Low => (0x8000 + tile_index * 16) as u16,
        TileDataAddressingMode::High => if tile_index < 128 {
            (0x9000 + tile_index * 16) as u16
        } else {
            (0x8800 + (tile_index - 128) * 16) as u16
        },
    }
}

impl TileDataAddressingMode {
    /// The address of the first byte of tile `tile_index`.
    pub fn tile_address(self, tile_index: u8) -> (r: u16)
        ensures
            r == tile_address_spec(self, tile_index),
            0x8000 <= r <= 0x97F0,
    {
        match self {
            TileDataAddressingMode::Low => 0x8000 + (tile_index as u16 * TILE_BYTES),
            TileDataAddressingMode::High => {
                if tile_index < 128 {
                    0x9000 + (tile_index as u16 * TILE_BYTES)
                } else {
                    0x8800 + ((tile_index - 128) as u16 * TILE_BYTES)
                }
            },
        }
    }

    /// The mode that an LCD control bit selects: set means `Low`.
    pub fn from_bit(value: bool) -> (r: TileDataAddressingMode)
        ensures
            r == (if value { TileDataAddressingMode::Low } else { TileDataAddressingMode::High }),
    {
        match value {
            true => TileDataAddressingMode::Low,
            false => TileDataAddressingMode::High,
        }
    }

    /// The LCD control bit that selects this mode.
    pub fn to_bit(self) -> (r: bool)
        ensures
            r == (self == TileDataAddressingMode::Low),
    {
        match self {
            TileDataAddressingMode::Low => true,
            TileDataAddressingMode::High => false,
        }
    }
}

/// Which of the two 32x32 tile maps is used.
#[derive(Debug, Clone, Copy, PartialEq, Eq, Structural)]
pub enum TileMap {
    Low,
    High,
}

/// The address where a tile map starts.
pub open spec fn base_address_spec(map: TileMap) -> u16 {
    match map {
        TileMap::Low => 0x9800,
        TileMap::High => 0x9C00,
    }
}

impl TileMap {
    /// The address where this tile map starts.
    pub fn base_address(self) -> (r: u16)
        ensures
            r == base_address_spec(self),
    {
        match self {
            TileMap::Low => 0x9800,
            TileMap::High => 0x9C00,
        }
    }

    /// The tile map that an LCD control bit selects: set means `High`.
    pub fn from_bit(value: bool) -> (r: TileMap)
        ensures
            r == (if value { TileMap::High } else { TileMap::Low }),
    {
        match value {
            true => TileMap::High,
            false => TileMap::Low,
        }
    }

    /// The LCD control bit that selects this map.
    pub fn to_bit(self) -> (r: bool)
        ensures
            r == (self == TileMap::High),
    {
        match self {
            TileMap::High => true,
            TileMap::Low => false,
        }
    }
}

} // verus!
