//! The LCD control (LCDC) and LCD status (STAT) registers.
use vstd::prelude::*;

use super::tile::{TileDataAddressingMode, TileMap};
use crate::bits::{lemma_byte_split, lemma_disjoint_bits};

verus! {

/// The contents of the LCD control register.
#[derive(Copy, Clone, PartialEq, Eq, Debug, Structural)]
pub struct LcdControl {
    pub lcd_enabled: bool,
    pub window_tile_map: TileMap,
    pub window_enabled: bool,
    pub tile_data_addressing_mode: TileDataAddressingMode,
    pub bg_tile_map: TileMap,
    pub object_size: bool,
    pub object_enabled: bool,
    pub bg_window_enabled: bool,
}

/// Bit `mask` of `value` is set.
pub open spec fn has(value: u8, mask: u8) -> bool {
    value & mask != 0
}

/// The number a flag contributes to a byte when it sits at `weight`.
pub open spec fn weigh(b: bool, weight: int) -> int {
    if b { weight } else { 0 }
}

/// The LCD control register that a byte describes.
pub open spec fn lcd_control_from_byte(value: u8) -> LcdControl {
    LcdControl {
        lcd_enabled: has(value, 0x80),
        window_tile_map: if has(value, 0x40) { TileMap::High } else { TileMap::Low },
        window_enabled: has(value, 0x20),
        tile_data_addressing_mode: if has(value, 0x10) {
            TileDataAddressingMode::Low
        } else {
            TileDataAddressingMode::High
        },
        bg_tile_map: if has(value, 0x08) { TileMap::High } else { TileMap::Low },
        object_size: has(value, 0x04),
        object_enabled: has(value, 0x02),
        bg_window_enabled: has(value, 0x01),
    }
}

/// The byte that the LCD control register reads as.
pub open spec fn lcd_control_to_byte(c: LcdControl) -> u8 {
    (weigh(c.lcd_enabled, 0x80) + weigh(c.window_tile_map == TileMap::High, 0x40) + weigh(
        c.window_enabled,
        0x20,
    ) + weigh(c.tile_data_addressing_mode == TileDataAddressingMode::Low, 0x10) + weigh(
        c.bg_tile_map == TileMap::High,
        0x08,
    ) + weigh(c.object_size, 0x04) + weigh(c.object_enabled, 0x02) + weigh(
        c.bg_window_enabled,
        0x01,
    )) as u8
}

/// Eight flags packed into a byte, most significant first.
pub open spec fn pack8(b7: bool, b6: bool, b5: bool, b4: bool, b3: bool, b2: bool, b1: bool, b0: bool) -> u8 {
    (weigh(b7, 0x80) + weigh(b6, 0x40) + weigh(b5, 0x20) + weigh(b4, 0x10) + weigh(b3, 0x08) + weigh(
        b2,
        0x04,
    ) + weigh(b1, 0x02) + weigh(b0, 0x01)) as u8
}

/// Packs eight flags into a byte, most significant first.
pub fn pack_bits(b7: bool, b6: bool, b5: bool, b4: bool, b3: bool, b2: bool, b1: bool, b0: bool) -> (r: u8)
    ensures
        r == pack8(b7, b6, b5, b4, b3, b2, b1, b0),
{
    let mut r: u8 = 0;
    if b7 {
        r = r + 0x80;
    }
    if b6 {
        r = r + 0x40;
    }
    if b5 {
        r = r + 0x20;
    }
    if b4 {
        r = r + 0x10;
    }
    if b3 {
        r = r + 0x08;
    }
    if b2 {
        r = r + 0x04;
    }
    if b1 {
        r = r + 0x02;
    }
    if b0 {
        r = r + 0x01;
    }
    r
}

/// Testing the bits of packed flags gives the flags back.
pub proof fn lemma_pack8(b7: bool, b6: bool, b5: bool, b4: bool, b3: bool, b2: bool, b1: bool, b0: bool)
    ensures
        has(pack8(b7, b6, b5, b4, b3, b2, b1, b0), 0x80) == b7,
        has(pack8(b7, b6, b5, b4, b3, b2, b1, b0), 0x40) == b6,
        has(pack8(b7, b6, b5, b4, b3, b2, b1, b0), 0x20) == b5,
        has(pack8(b7, b6, b5, b4, b3, b2, b1, b0), 0x10) == b4,
        has(pack8(b7, b6, b5, b4, b3, b2, b1, b0), 0x08) == b3,
        has(pack8(b7, b6, b5, b4, b3, b2, b1, b0), 0x04) == b2,
        has(pack8(b7, b6, b5, b4, b3, b2, b1, b0), 0x02) == b1,
        has(pack8(b7, b6, b5, b4, b3, b2, b1, b0), 0x01) == b0,
        pack8(b7, b6, b5, b4, b3, b2, b1, b0) & 0x03 == weigh(b1, 0x02) + weigh(b0, 0x01),
{
    lemma_disjoint_bits(
        weigh(b7, 0x80) as u8, weigh(b6, 0x40) as u8, weigh(b5, 0x20) as u8, weigh(b4, 0x10) as u8,
        weigh(b3, 0x08) as u8, weigh(b2, 0x04) as u8, weigh(b1, 0x02) as u8, weigh(b0, 0x01) as u8,
    );
}

/// Packing the eight bits of a byte gives the byte back.
pub proof fn lemma_unpack8(v: u8)
    ensures
        pack8(has(v, 0x80), has(v, 0x40), has(v, 0x20), has(v, 0x10), has(v, 0x08), has(v, 0x04), has(v, 0x02), has(v, 0x01)) == v,
{
    lemma_byte_split(v);
}

impl LcdControl {
    /// The register as it is after power-on.
    pub fn new() -> (r: LcdControl)
        ensures
            r == lcd_control_from_byte(0x91),
    {
        proof {
            lemma_pack8(true, false, false, true, false, false, false, true);
        }
        LcdControl {
            lcd_enabled: true,
            window_tile_map: TileMap::Low,
            window_enabled: false,
            tile_data_addressing_mode: TileDataAddressingMode::Low,
            bg_tile_map: TileMap::Low,
            object_size: false,
            object_enabled: false,
            bg_window_enabled: true,
        }
    }

    pub fn lcd_enabled(&self) -> (r: bool)
        ensures
            r == self.lcd_enabled,
    {
        self.lcd_enabled
    }

    pub fn window_tile_map(&self) -> (r: TileMap)
        ensures
            r == self.window_tile_map,
    {
        self.window_tile_map
    }

    pub fn window_enabled(&self) -> (r: bool)
        ensures
            r == self.window_enabled,
    {
        self.window_enabled
    }

    pub fn tile_data(&self) -> (r: TileDataAddressingMode)
        ensures
            r == self.tile_data_addressing_mode,
    {
        self.tile_data_addressing_mode
    }

    pub fn bg_tile_map(&self) -> (r: TileMap)
        ensures
            r == self.bg_tile_map,
    {
        self.bg_tile_map
    }

    pub fn object_size(&self) -> (r: bool)
        ensures
            r == self.object_size,
    {
        self.object_size
    }

    pub fn object_enabled(&self) -> (r: bool)
        ensures
            r == self.object_enabled,
    {
        self.object_enabled
    }

    pub fn bg_window_enabled(&self) -> (r: bool)
        ensures
            r == self.bg_window_enabled,
    {
        self.bg_window_enabled
    }

    /// The register that a byte describes.
    pub fn from_byte(value: u8) -> (r: LcdControl)
        ensures
            r == lcd_control_from_byte(value),
    {
        LcdControl {
            lcd_enabled: (value & 0x80) != 0,
            window_tile_map: TileMap::from_bit((value & 0x40) != 0),
            window_enabled: (value & 0x20) != 0,
            tile_data_addressing_mode: TileDataAddressingMode::from_bit((value & 0x10) != 0),
            bg_tile_map: TileMap::from_bit((value & 0x08) != 0),
            object_size: (value & 0x04) != 0,
            object_enabled: (value & 0x02) != 0,
            bg_window_enabled: (value & 0x01) != 0,
        }
    }

    /// The byte that the register reads as.
    pub fn to_byte(&self) -> (r: u8)
        ensures
            r == lcd_control_to_byte(*self),
    {
        pack_bits(
            self.lcd_enabled,
            self.window_tile_map.to_bit(),
            self.window_enabled,
            self.tile_data_addressing_mode.to_bit(),
            self.bg_tile_map.to_bit(),
            self.object_size,
            self.object_enabled,
            self.bg_window_enabled,
        )
    }
}

impl From<u8> for LcdControl {
    fn from(value: u8) -> (r: LcdControl) {
        LcdControl::from_byte(value)
    }
}

impl vstd::std_specs::convert::FromSpecImpl<u8> for LcdControl {
    open spec fn obeys_from_spec() -> bool {
        true
    }

    open spec fn from_spec(v: u8) -> LcdControl {
        lcd_control_from_byte(v)
    }
}

impl From<&LcdControl> for u8 {
    fn from(lcd_control: &LcdControl) -> (r: u8) {
        lcd_control.to_byte()
    }
}

impl vstd::std_specs::convert::FromSpecImpl<&LcdControl> for u8 {
    open spec fn obeys_from_spec() -> bool {
        true
    }

    open spec fn from_spec(v: &LcdControl) -> u8 {
        lcd_control_to_byte(*v)
    }
}

/// Reading the LCD control register back after writing a byte gives the byte.
pub proof fn lemma_lcd_control_byte_roundtrip(value: u8)
    ensures
        lcd_control_to_byte(lcd_control_from_byte(value)) == value,
{
    lemma_unpack8(value);
}

/// Writing the byte that the LCD control register reads as restores it.
pub proof fn lemma_lcd_control_roundtrip(c: LcdControl)
    ensures
        lcd_control_from_byte(lcd_control_to_byte(c)) == c,
{
    lemma_pack8(
        c.lcd_enabled,
        c.window_tile_map == TileMap::High,
        c.window_enabled,
        c.tile_data_addressing_mode == TileDataAddressingMode::Low,
        c.bg_tile_map == TileMap::High,
        c.object_size,
        c.object_enabled,
        c.bg_window_enabled,
    );
}

/// What the PPU is doing: horizontal blank, vertical blank, scanning object
/// memory, or drawing pixels.
#[derive(PartialEq, Eq, Copy, Clone, Debug, Structural)]
pub enum PpuMode {
    HBlank,
    VBlank,
    OamScan,
    DrawingPixels,
}

/// The number that the two mode bits of STAT hold for a mode.
pub open spec fn mode_number(m: PpuMode) -> u8 {
    match m {
        PpuMode::HBlank => 0,
        PpuMode::VBlank => 1,
        PpuMode::OamScan => 2,
        PpuMode::DrawingPixels => 3,
    }
}

/// The mode with number `value`; values above 2 give drawing.
pub open spec fn mode_from_number(value: u8) -> PpuMode {
    if value == 0 {
        PpuMode::HBlank
    } else if value == 1 {
        PpuMode::VBlank
    } else if value == 2 {
        PpuMode::OamScan
    } else {
        PpuMode::DrawingPixels
    }
}

impl PpuMode {
    /// The mode with number `value`; values above 2 give drawing.
    pub fn from_number(value: u8) -> (r: PpuMode)
        ensures
            r == mode_from_number(value),
    {
        match value {
            0 => PpuMode::HBlank,
            1 => PpuMode::VBlank,
            2 => PpuMode::OamScan,
            _ => PpuMode::DrawingPixels,
        }
    }

    /// The number of this mode.
    pub fn number(self) -> (r: u8)
        ensures
            r == mode_number(self),
            r < 4,
    {
        match self {
            PpuMode::HBlank => 0,
            PpuMode::VBlank => 1,
            PpuMode::OamScan => 2,
            PpuMode::DrawingPixels => 3,
        }
    }
}

impl From<u8> for PpuMode {
    fn from(value: u8) -> (r: PpuMode) {
        PpuMode::from_number(value)
    }
}

impl vstd::std_specs::convert::FromSpecImpl<u8> for PpuMode {
    open spec fn obeys_from_spec() -> bool {
        true
    }

    open spec fn from_spec(v: u8) -> PpuMode {
        mode_from_number(v)
    }
}

/// The contents of the LCD status register.
#[derive(Copy, Clone, PartialEq, Eq, Debug, Structural)]
pub struct LcdStatus {
    pub lyc_interrupt: bool,
    pub mode2_interrupt: bool,
    pub mode1_interrupt: bool,
    pub mode0_interrupt: bool,
    pub lyc_equals_ly: bool,
    pub mode: PpuMode,
}

/// The LCD status register that a byte describes (bit 7 is unused).
pub open spec fn lcd_status_from_byte(value: u8) -> LcdStatus {
    LcdStatus {
        lyc_interrupt: has(value, 0x40),
        mode2_interrupt: has(value, 0x20),
        mode1_interrupt: has(value, 0x10),
        mode0_interrupt: has(value, 0x08),
        lyc_equals_ly: has(value, 0x04),
        mode: mode_from_number(value & 0x03),
    }
}

/// The byte that the LCD status register reads as.
pub open spec fn lcd_status_to_byte(s: LcdStatus) -> u8 {
    (pack8(
        false,
        s.lyc_interrupt,
        s.mode2_interrupt,
        s.mode1_interrupt,
        s.mode0_interrupt,
        s.lyc_equals_ly,
        false,
        false,
    ) + mode_number(s.mode)) as u8
}

impl LcdStatus {
    /// The register as it is after power-on: all clear, horizontal blank.
    pub fn new() -> (r: LcdStatus)
        ensures
            r == lcd_status_from_byte(0),
    {
        proof {
            lemma_pack8(false, false, false, false, false, false, false, false);
        }
        LcdStatus {
            lyc_interrupt: false,
            mode2_interrupt: false,
            mode1_interrupt: false,
            mode0_interrupt: false,
            lyc_equals_ly: false,
            mode: PpuMode::HBlank,
        }
    }

    pub fn lyc_interrupt(&self) -> (r: bool)
        ensures
            r == self.lyc_interrupt,
    {
        self.lyc_interrupt
    }

    pub fn lyc_equals_ly(&self) -> (r: bool)
        ensures
            r == self.lyc_equals_ly,
    {
        self.lyc_equals_ly
    }

    pub fn set_lyc_equals_ly(&mut self, status: bool)
        ensures
            *final(self) == (LcdStatus { lyc_equals_ly: status, ..*old(self) }),
    {
        self.lyc_equals_ly = status;
    }

    pub fn mode(&self) -> (r: PpuMode)
        ensures
            r == self.mode,
    {
        self.mode
    }

    /// Switches to `mode` and tells whether that switch raises the STAT
    /// interrupt: entering horizontal blank when its interrupt is enabled,
    /// and entering vertical blank or object scan when the vertical blank
    /// interrupt is enabled.
    pub fn set_mode(&mut self, mode: PpuMode) -> (r: bool)
        ensures
            *final(self) == (LcdStatus { mode, ..*old(self) }),
            r == match mode {
                PpuMode::HBlank => old(self).mode0_interrupt,
                PpuMode::VBlank => old(self).mode1_interrupt,
                PpuMode::OamScan => old(self).mode1_interrupt,
                PpuMode::DrawingPixels => false,
            },
    {
        self.mode = mode;
        match self.mode {
            PpuMode::HBlank => self.mode0_interrupt,
            PpuMode::VBlank => self.mode1_interrupt,
            PpuMode::OamScan => self.mode1_interrupt,
            PpuMode::DrawingPixels => false,
        }
    }

    /// The register that a byte describes.
    pub fn from_byte(value: u8) -> (r: LcdStatus)
        ensures
            r == lcd_status_from_byte(value),
    {
        LcdStatus {
            lyc_interrupt: (value & 0x40) != 0,
            mode2_interrupt: (value & 0x20) != 0,
            mode1_interrupt: (value & 0x10) != 0,
            mode0_interrupt: (value & 0x08) != 0,
            lyc_equals_ly: (value & 0x04) != 0,
            mode: PpuMode::from_number(value & 0x03),
        }
    }

    /// The byte that the register reads as.
    pub fn to_byte(&self) -> (r: u8)
        ensures
            r == lcd_status_to_byte(*self),
    {
        let flags = pack_bits(
            false,
            self.lyc_interrupt,
            self.mode2_interrupt,
            self.mode1_interrupt,
            self.mode0_interrupt,
            self.lyc_equals_ly,
            false,
            false,
        );
        proof {
            assert(flags <= 0x7C);
        }
        flags + self.mode.number()
    }
}

impl From<u8> for LcdStatus {
    fn from(value: u8) -> (r: LcdStatus) {
        LcdStatus::from_byte(value)
    }
}

impl vstd::std_specs::convert::FromSpecImpl<u8> for LcdStatus {
    open spec fn obeys_from_spec() -> bool {
        true
    }

    open spec fn from_spec(v: u8) -> LcdStatus {
        lcd_status_from_byte(v)
    }
}

impl From<&LcdStatus> for u8 {
    fn from(lcd_status: &LcdStatus) -> (r: u8) {
        lcd_status.to_byte()
    }
}

impl vstd::std_specs::convert::FromSpecImpl<&LcdStatus> for u8 {
    open spec fn obeys_from_spec() -> bool {
        true
    }

    open spec fn from_spec(v: &LcdStatus) -> u8 {
        lcd_status_to_byte(*v)
    }
}

/// Writing the byte that the LCD status register reads as restores it.
pub proof fn lemma_lcd_status_roundtrip(s: LcdStatus)
    ensures
        lcd_status_from_byte(lcd_status_to_byte(s)) == s,
{
    let p = pack8(false, s.lyc_interrupt, s.mode2_interrupt, s.mode1_interrupt, s.mode0_interrupt, s.lyc_equals_ly, false, false);
    lemma_pack8(false, s.lyc_interrupt, s.mode2_interrupt, s.mode1_interrupt, s.mode0_interrupt, s.lyc_equals_ly, false, false);
    lemma_low_bits_add(p, mode_number(s.mode));
}

/// Reading the LCD status register after writing a byte gives the byte with
/// its unused top bit cleared.
pub proof fn lemma_lcd_status_byte_roundtrip(value: u8)
    ensures
        lcd_status_to_byte(lcd_status_from_byte(value)) == value & 0x7F,
{
    let s = lcd_status_from_byte(value);
    lemma_byte_split(value);
    lemma_disjoint_bits(value & 0x80, value & 0x40, value & 0x20, value & 0x10, value & 0x08, value & 0x04, value & 0x02, value & 0x01);
    assert(mode_number(mode_from_number(value & 0x03)) == value & 0x03);
}

/// Adding a number below four to a byte whose two low bits are clear leaves
/// the high bits as they were and puts the number in the two low bits.
proof fn lemma_low_bits_add(p: u8, m: u8)
    requires
        p & 0x03 == 0,
        m < 4,
        p <= 0x7C,
    ensures
        ((p + m) as u8) & 0x40 == p & 0x40,
        ((p + m) as u8) & 0x20 == p & 0x20,
        ((p + m) as u8) & 0x10 == p & 0x10,
        ((p + m) as u8) & 0x08 == p & 0x08,
        ((p + m) as u8) & 0x04 == p & 0x04,
        ((p + m) as u8) & 0x03 == m,
{
    assert((p & 0x03 == 0 && m < 4 && p <= 0x7C) ==> (((p + m) as u8) & 0x40 == p & 0x40 && ((p + m) as u8) & 0x20 == p & 0x20
        && ((p + m) as u8) & 0x10 == p & 0x10 && ((p + m) as u8) & 0x08 == p & 0x08 && ((p + m) as u8) & 0x04 == p & 0x04
        && ((p + m) as u8) & 0x03 == m)) by (bit_vector);
}

} // verus!
