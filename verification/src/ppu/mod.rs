//! The pixel processing unit: LCD registers, tiles, palettes, objects and the
//! scanline renderer.
use vstd::prelude::*;

use palette::{Color, Palette, color_index, color_index_spec, color_rgb, palette_from_byte, palette_to_byte};
use registers::{PpuMode, has, mode_number, pack8, pack_bits};
use tile::{TileDataAddressingMode, TileMap, base_address_spec, tile_address_spec};

pub mod color;
pub mod oam;
pub mod object;
pub mod palette;
pub mod registers;
pub mod tile;

verus! {

pub const VRAM_SIZE: usize = 0x4000;

pub const OAM_SIZE: usize = 0xA0;

pub const VIEWPORT_WIDTH: usize = 160;

pub const VIEWPORT_HEIGHT: usize = 144;

/// Dots (T-cycles) in one scanline.
pub const LINE_TICKS: u32 = 456;

/// Number of scanlines, the ten vertical-blank lines included.
pub const LINES: u8 = 154;

/// Whether the background or window drew color 0 at a column (objects marked
/// as behind the background show only there).
#[derive(PartialEq, Eq, Copy, Clone, Debug, Structural)]
pub enum Priority {
    Blank,
    Normal,
}

/// The pixel processing unit of the monochrome Game Boy.
pub struct Ppu {
    pub mode: PpuMode,
    pub line_ticks: u32,
    pub line: u8,
    pub lyc: u8,
    pub lcd_enabled: bool,
    pub window_tile_map: TileMap,
    pub window_enabled: bool,
    pub tile_data: TileDataAddressingMode,
    pub bg_tile_map: TileMap,
    pub object_size: u8,
    pub object_enabled: bool,
    pub bg_window_enabled: bool,
    pub bg_window_priority: Vec<Priority>,
    pub lyc_interrupt: bool,
    pub mode0_interrupt: bool,
    pub mode1_interrupt: bool,
    pub mode2_interrupt: bool,
    pub scy: u8,
    pub scx: u8,
    pub wy: u8,
    pub wx: u8,
    pub wy_trigger: bool,
    pub wy_position: i32,
    pub bg_palette: Palette,
    pub obj0_palette: Palette,
    pub obj1_palette: Palette,
    pub vram: Vec<u8>,
    pub oam: Vec<u8>,
    pub vrambank: usize,
    pub screen_buffer: Vec<(u8, u8, u8)>,
    pub screen_updated: bool,
    pub interrupt: u8,
}

/// The state of the PPU as plain values.
#[verifier::ext_equal]
pub struct PpuView {
    pub mode: PpuMode,
    pub line_ticks: u32,
    pub line: u8,
    pub lyc: u8,
    pub lcd_enabled: bool,
    pub window_tile_map: TileMap,
    pub window_enabled: bool,
    pub tile_data: TileDataAddressingMode,
    pub bg_tile_map: TileMap,
    pub object_size: u8,
    pub object_enabled: bool,
    pub bg_window_enabled: bool,
    pub bg_window_priority: Seq<Priority>,
    pub lyc_interrupt: bool,
    pub mode0_interrupt: bool,
    pub mode1_interrupt: bool,
    pub mode2_interrupt: bool,
    pub scy: u8,
    pub scx: u8,
    pub wy: u8,
    pub wx: u8,
    pub wy_trigger: bool,
    pub wy_position: i32,
    pub bg_palette: Seq<Color>,
    pub obj0_palette: Seq<Color>,
    pub obj1_palette: Seq<Color>,
    pub vram: Seq<u8>,
    pub oam: Seq<u8>,
    pub vrambank: usize,
    pub screen_buffer: Seq<(u8, u8, u8)>,
    pub screen_updated: bool,
    pub interrupt: u8,
}

impl View for Ppu {
    type V = PpuView;

    open spec fn view(&self) -> PpuView {
        PpuView {
            mode: self.mode,
            line_ticks: self.line_ticks,
            line: self.line,
            lyc: self.lyc,
            lcd_enabled: self.lcd_enabled,
            window_tile_map: self.window_tile_map,
            window_enabled: self.window_enabled,
            tile_data: self.tile_data,
            bg_tile_map: self.bg_tile_map,
            object_size: self.object_size,
            object_enabled: self.object_enabled,
            bg_window_enabled: self.bg_window_enabled,
            bg_window_priority: self.bg_window_priority@,
            lyc_interrupt: self.lyc_interrupt,
            mode0_interrupt: self.mode0_interrupt,
            mode1_interrupt: self.mode1_interrupt,
            mode2_interrupt: self.mode2_interrupt,
            scy: self.scy,
            scx: self.scx,
            wy: self.wy,
            wx: self.wx,
            wy_trigger: self.wy_trigger,
            wy_position: self.wy_position,
            bg_palette: self.bg_palette.data@,
            obj0_palette: self.obj0_palette.data@,
            obj1_palette: self.obj1_palette.data@,
            vram: self.vram@,
            oam: self.oam@,
            vrambank: self.vrambank,
            screen_buffer: self.screen_buffer@,
            screen_updated: self.screen_updated,
            interrupt: self.interrupt,
        }
    }
}

impl PpuView {
    /// The invariant of the PPU: the memories have their sizes, the line is in
    /// range, vertical blank is exactly the lines from 144 on, and while the
    /// window is triggered its internal line counter trails the current line
    /// (it catches up with it only once the line has been drawn).
    pub open spec fn wf(self) -> bool {
        &&& self.shape()
        &&& (self.line >= 144) == (self.mode == PpuMode::VBlank)
        &&& self.line >= 144 ==> !self.wy_trigger
        &&& self.wy_trigger ==> -1 <= self.wy_position <= self.line
        &&& (self.wy_trigger && self.wy_position == self.line) ==> (self.mode == PpuMode::HBlank
            && self.line_ticks > 252)
    }

    /// The sizes of the memories, the object height and the line range.
    pub open spec fn shape(self) -> bool {
        &&& self.vram.len() == VRAM_SIZE
        &&& self.oam.len() == OAM_SIZE
        &&& self.screen_buffer.len() == VIEWPORT_WIDTH * VIEWPORT_HEIGHT
        &&& self.bg_window_priority.len() == VIEWPORT_WIDTH
        &&& self.bg_palette.len() == 4
        &&& self.obj0_palette.len() == 4
        &&& self.obj1_palette.len() == 4
        &&& self.object_size == 8 || self.object_size == 16
        &&& self.line < LINES
    }

    /// The byte that the LCD control register reads as.
    pub open spec fn lcdc(self) -> u8 {
        pack8(
            self.lcd_enabled,
            self.window_tile_map == TileMap::High,
            self.window_enabled,
            self.tile_data == TileDataAddressingMode::Low,
            self.bg_tile_map == TileMap::High,
            self.object_size == 16,
            self.object_enabled,
            self.bg_window_enabled,
        )
    }

    /// The byte that the LCD status register reads as.
    pub open spec fn stat(self) -> u8 {
        (pack8(
            false,
            self.lyc_interrupt,
            self.mode2_interrupt,
            self.mode1_interrupt,
            self.mode0_interrupt,
            self.line == self.lyc,
            false,
            false,
        ) + mode_number(self.mode)) as u8
    }

    /// What a read of `address` gives.
    pub open spec fn read(self, address: u16) -> u8 {
        if 0x8000 <= address <= 0x9FFF {
            self.vram[address - 0x8000]
        } else if 0xFE00 <= address <= 0xFE9F {
            self.oam[address - 0xFE00]
        } else if address == 0xFF40 {
            self.lcdc()
        } else if address == 0xFF41 {
            self.stat()
        } else if address == 0xFF42 {
            self.scy
        } else if address == 0xFF43 {
            self.scx
        } else if address == 0xFF44 {
            self.line
        } else if address == 0xFF45 {
            self.lyc
        } else if address == 0xFF46 {
            0
        } else if address == 0xFF47 {
            palette_to_byte(self.bg_palette)
        } else if address == 0xFF48 {
            palette_to_byte(self.obj0_palette)
        } else if address == 0xFF49 {
            palette_to_byte(self.obj1_palette)
        } else if address == 0xFF4A {
            self.wy
        } else if address == 0xFF4B {
            self.wx
        } else {
            0xFF
        }
    }

    /// The interrupt flags after comparing the current line with LYC: the STAT
    /// interrupt (bit 1) is requested when that comparison is enabled and they
    /// are equal.
    pub open spec fn lyc_checked(self) -> u8 {
        if self.lyc_interrupt && self.line == self.lyc {
            self.interrupt | 0x02
        } else {
            self.interrupt
        }
    }
}

/// The addresses that the PPU accepts writes to.
pub open spec fn ppu_write_accepted(address: u16) -> bool {
    ||| 0x8000 <= address <= 0x9FFF
    ||| 0xFE00 <= address <= 0xFE9F
    ||| 0xFF40 <= address <= 0xFF45
    ||| 0xFF47 <= address <= 0xFF4C
    ||| address == 0xFF4E
}

/// A screen buffer with every pixel set to `color`.
fn filled_screen(color: (u8, u8, u8)) -> (r: Vec<(u8, u8, u8)>)
    ensures
        r@ == Seq::new((VIEWPORT_WIDTH * VIEWPORT_HEIGHT) as nat, |i: int| color),
{
    let mut r: Vec<(u8, u8, u8)> = Vec::new();
    let mut i: usize = 0;
    while i < VIEWPORT_WIDTH * VIEWPORT_HEIGHT
        invariant
            i <= VIEWPORT_WIDTH * VIEWPORT_HEIGHT,
            r@ == Seq::new(i as nat, |k: int| color),
        decreases VIEWPORT_WIDTH * VIEWPORT_HEIGHT - i,
    {
        r.push(color);
        i = i + 1;
        assert(r@ =~= Seq::new(i as nat, |k: int| color));
    }
    r
}

impl Ppu {
    /// A PPU at power-on: display off, all memory cleared.
    pub fn new() -> (r: Ppu)
        ensures
            r@.wf(),
            r@.mode == PpuMode::HBlank,
            r@.line_ticks == 0,
            r@.line == 0,
            r@.lyc == 0,
            !r@.lcd_enabled,
            r@.window_tile_map == TileMap::High,
            !r@.window_enabled,
            r@.tile_data == TileDataAddressingMode::Low,
            r@.bg_tile_map == TileMap::High,
            r@.object_size == 8,
            !r@.object_enabled,
            !r@.bg_window_enabled,
            r@.bg_window_priority == Seq::new(VIEWPORT_WIDTH as nat, |i: int| Priority::Normal),
            !r@.lyc_interrupt && !r@.mode0_interrupt && !r@.mode1_interrupt && !r@.mode2_interrupt,
            r@.scy == 0 && r@.scx == 0 && r@.wy == 0 && r@.wx == 0,
            !r@.wy_trigger,
            r@.wy_position == -1,
            r@.bg_palette == palette_from_byte(0),
            r@.obj0_palette == palette_from_byte(0),
            r@.obj1_palette == palette_from_byte(1),
            r@.vram == Seq::new(VRAM_SIZE as nat, |i: int| 0u8),
            r@.oam == Seq::new(OAM_SIZE as nat, |i: int| 0u8),
            r@.vrambank == 0,
            r@.screen_buffer == Seq::new((VIEWPORT_WIDTH * VIEWPORT_HEIGHT) as nat, |i: int| (0u8, 0u8, 0u8)),
            !r@.screen_updated,
            r@.interrupt == 0,
    {
        let r = Ppu {
            mode: PpuMode::HBlank,
            line_ticks: 0,
            line: 0,
            lyc: 0,
            lcd_enabled: false,
            window_tile_map: TileMap::High,
            window_enabled: false,
            tile_data: TileDataAddressingMode::Low,
            bg_tile_map: TileMap::High,
            object_size: 8,
            object_enabled: false,
            bg_window_enabled: false,
            lyc_interrupt: false,
            mode2_interrupt: false,
            mode1_interrupt: false,
            mode0_interrupt: false,
            scy: 0,
            scx: 0,
            wy: 0,
            wx: 0,
            wy_trigger: false,
            wy_position: -1,
            bg_palette: Palette::from_byte(0),
            obj0_palette: Palette::from_byte(0),
            obj1_palette: Palette::from_byte(1),
            vram: vec![0; VRAM_SIZE],
            oam: vec![0; OAM_SIZE],
            screen_buffer: filled_screen((0, 0, 0)),
            bg_window_priority: vec![Priority::Normal; VIEWPORT_WIDTH],
            screen_updated: false,
            interrupt: 0,
            vrambank: 0,
        };
        assert(r@.vram =~= Seq::new(VRAM_SIZE as nat, |i: int| 0u8));
        assert(r@.oam =~= Seq::new(OAM_SIZE as nat, |i: int| 0u8));
        assert(r@.screen_buffer =~= Seq::new((VIEWPORT_WIDTH * VIEWPORT_HEIGHT) as nat, |i: int| (0u8, 0u8, 0u8)));
        assert(r@.bg_window_priority =~= Seq::new(VIEWPORT_WIDTH as nat, |i: int| Priority::Normal));
        r
    }

    /// The byte that the LCD control register reads as.
    fn lcdc_read(&self) -> (r: u8)
        ensures
            r == self@.lcdc(),
    {
        pack_bits(
            self.lcd_enabled,
            self.window_tile_map.to_bit(),
            self.window_enabled,
            self.tile_data.to_bit(),
            self.bg_tile_map.to_bit(),
            self.object_size == 16,
            self.object_enabled,
            self.bg_window_enabled,
        )
    }

    /// Sets the LCD control register; bit 2 selects 16-pixel-high objects.
    fn lcdc_write(&mut self, data: u8)
        ensures
            final(self)@ == (PpuView {
                lcd_enabled: has(data, 0x80),
                window_tile_map: if has(data, 0x40) { TileMap::High } else { TileMap::Low },
                window_enabled: has(data, 0x20),
                tile_data: if has(data, 0x10) { TileDataAddressingMode::Low } else { TileDataAddressingMode::High },
                bg_tile_map: if has(data, 0x08) { TileMap::High } else { TileMap::Low },
                object_size: if has(data, 0x04) { 16u8 } else { 8u8 },
                object_enabled: has(data, 0x02),
                bg_window_enabled: has(data, 0x01),
                ..old(self)@
            }),
    {
        self.lcd_enabled = (data & 0x80) != 0;
        self.window_tile_map = TileMap::from_bit((data & 0x40) != 0);
        self.window_enabled = (data & 0x20) != 0;
        self.tile_data = TileDataAddressingMode::from_bit((data & 0x10) != 0);
        self.bg_tile_map = TileMap::from_bit((data & 0x08) != 0);
        self.object_size = if (data & 0x04) != 0 { 16 } else { 8 };
        self.object_enabled = (data & 0x02) != 0;
        self.bg_window_enabled = (data & 0x01) != 0;
    }

    /// The byte that the LCD status register reads as.
    fn stat_read(&self) -> (r: u8)
        ensures
            r == self@.stat(),
    {
        let flags = pack_bits(
            false,
            self.lyc_interrupt,
            self.mode2_interrupt,
            self.mode1_interrupt,
            self.mode0_interrupt,
            self.line == self.lyc,
            false,
            false,
        );
        flags + self.mode.number()
    }

    /// Sets the interrupt-enable bits of the LCD status register; the mode and
    /// the coincidence bit are read-only.
    fn stat_write(&mut self, data: u8)
        ensures
            final(self)@ == (PpuView {
                lyc_interrupt: has(data, 0x40),
                mode2_interrupt: has(data, 0x20),
                mode1_interrupt: has(data, 0x10),
                mode0_interrupt: has(data, 0x08),
                ..old(self)@
            }),
    {
        self.lyc_interrupt = (data & 0x40) != 0;
        self.mode2_interrupt = (data & 0x20) != 0;
        self.mode1_interrupt = (data & 0x10) != 0;
        self.mode0_interrupt = (data & 0x08) != 0;
    }

    /// Reads a byte of video RAM, object memory or an LCD register.
    pub fn read_8(&self, address: u16) -> (r: u8)
        requires
            self@.wf(),
        ensures
            r == self@.read(address),
    {
        match address {
            0x8000..=0x9FFF => self.vram[address as usize - 0x8000],
            0xFE00..=0xFE9F => self.oam[address as usize - 0xFE00],
            0xFF40 => self.lcdc_read(),
            0xFF41 => self.stat_read(),
            0xFF42 => self.scy,
            0xFF43 => self.scx,
            0xFF44 => self.line,
            0xFF45 => self.lyc,
            0xFF46 => 0,
            0xFF47 => self.bg_palette.to_byte(),
            0xFF48 => self.obj0_palette.to_byte(),
            0xFF49 => self.obj1_palette.to_byte(),
            0xFF4A => self.wy,
            0xFF4B => self.wx,
            0xFF4C => 0xFF,
            0xFF4E => 0xFF,
            _ => 0xFF,
        }
    }

    /// Requests the STAT interrupt when the LYC comparison is enabled and the
    /// current line equals LYC.
    fn trigger_lyc_interrupt(&mut self)
        ensures
            final(self)@ == (PpuView { interrupt: old(self)@.lyc_checked(), ..old(self)@ }),
    {
        if self.lyc_interrupt && self.line == self.lyc {
            self.interrupt |= 0x02;
        }
    }

    /// Writes a byte of video RAM, object memory or an LCD register. LY is
    /// read-only; OAM DMA (0xFF46) belongs to the bus.
    #[verifier::spinoff_prover]
    pub fn write_8(&mut self, address: u16, data: u8)
        requires
            old(self)@.wf(),
            ppu_write_accepted(address),
        ensures
            final(self)@.wf(),
            final(self)@ == old(self)@.write(address, data),
    {
        let ghost pre = self@;
        proof {
            lemma_write_wf(pre, address, data);
            lemma_write_memory(pre, address, data);
        }
        if 0x8000 <= address && address <= 0x9FFF {
            self.vram[address as usize - 0x8000] = data;
            assert(self@ =~= PpuView { vram: pre.vram.update(address - 0x8000, data), ..pre });
        } else if 0xFE00 <= address && address <= 0xFE9F {
            self.oam[address as usize - 0xFE00] = data;
            assert(self@ =~= PpuView { oam: pre.oam.update(address - 0xFE00, data), ..pre });
        } else {
            self.write_register(address, data);
        }
    }

    /// Writes an LCD register.
    #[verifier::spinoff_prover]
    #[verifier::rlimit(80)]
    fn write_register(&mut self, address: u16, data: u8)
        requires
            old(self)@.wf(),
            0xFF40 <= address <= 0xFF4E,
        ensures
            final(self)@ == old(self)@.write(address, data),
    {
        let ghost pre = self@;
        proof {
            reveal(PpuView::write);
        }
        if address == 0xFF40 {
            self.lcdc_write(data);
            assert(self@ =~= pre.write(address, data));
            return;
        } else if address == 0xFF41 {
            self.stat_write(data);
            assert(self@ =~= pre.write(address, data));
            return;
        } else if address == 0xFF42 {
            self.scy = data;
            assert(self@ =~= pre.write(address, data));
            return;
        } else if address == 0xFF43 {
            self.scx = data;
            assert(self@ =~= pre.write(address, data));
            return;
        } else if address == 0xFF45 {
            self.lyc = data;
            self.trigger_lyc_interrupt();
            assert(self@ =~= pre.write(address, data));
            return;
        } else if address == 0xFF47 {
            self.bg_palette = Palette::from_byte(data);
            assert(self@ =~= pre.write(address, data));
            return;
        } else if address == 0xFF48 {
            self.obj0_palette = Palette::from_byte(data);
            assert(self@ =~= pre.write(address, data));
            return;
        } else if address == 0xFF49 {
            self.obj1_palette = Palette::from_byte(data);
            assert(self@ =~= pre.write(address, data));
            return;
        } else if address == 0xFF4A {
            self.wy = data;
            assert(self@ =~= pre.write(address, data));
            return;
        } else if address == 0xFF4B {
            self.wx = data;
            assert(self@ =~= pre.write(address, data));
            return;
        } else {
            assert(self@ =~= pre.write(address, data));
            return;
        }
    }
}

/// Writes keep the PPU's invariant.
pub proof fn lemma_write_wf(v: PpuView, address: u16, data: u8)
    requires
        v.wf(),
    ensures
        v.write(address, data).wf(),
{
    reveal(PpuView::write);
}

/// A write to video RAM or object memory changes that byte and nothing else.
pub proof fn lemma_write_memory(v: PpuView, address: u16, data: u8)
    ensures
        0x8000 <= address <= 0x9FFF ==> v.write(address, data) == (PpuView { vram: v.vram.update(address - 0x8000, data), ..v }),
        0xFE00 <= address <= 0xFE9F ==> v.write(address, data) == (PpuView { oam: v.oam.update(address - 0xFE00, data), ..v }),
{
    reveal(PpuView::write);
}

impl PpuView {
    /// The state after a write of `data` to `address`.
    #[verifier::opaque]
    pub open spec fn write(self, address: u16, data: u8) -> PpuView {
        if 0x8000 <= address <= 0x9FFF {
            PpuView { vram: self.vram.update(address - 0x8000, data), ..self }
        } else if 0xFE00 <= address <= 0xFE9F {
            PpuView { oam: self.oam.update(address - 0xFE00, data), ..self }
        } else if address == 0xFF40 {
            PpuView {
                lcd_enabled: has(data, 0x80),
                window_tile_map: if has(data, 0x40) { TileMap::High } else { TileMap::Low },
                window_enabled: has(data, 0x20),
                tile_data: if has(data, 0x10) { TileDataAddressingMode::Low } else { TileDataAddressingMode::High },
                bg_tile_map: if has(data, 0x08) { TileMap::High } else { TileMap::Low },
                object_size: if has(data, 0x04) { 16u8 } else { 8u8 },
                object_enabled: has(data, 0x02),
                bg_window_enabled: has(data, 0x01),
                ..self
            }
        } else if address == 0xFF41 {
            PpuView {
                lyc_interrupt: has(data, 0x40),
                mode2_interrupt: has(data, 0x20),
                mode1_interrupt: has(data, 0x10),
                mode0_interrupt: has(data, 0x08),
                ..self
            }
        } else if address == 0xFF42 {
            PpuView { scy: data, ..self }
        } else if address == 0xFF43 {
            PpuView { scx: data, ..self }
        } else if address == 0xFF45 {
            PpuView { lyc: data, ..self }.lyc_checked_view()
        } else if address == 0xFF47 {
            PpuView { bg_palette: palette_from_byte(data), ..self }
        } else if address == 0xFF48 {
            PpuView { obj0_palette: palette_from_byte(data), ..self }
        } else if address == 0xFF49 {
            PpuView { obj1_palette: palette_from_byte(data), ..self }
        } else if address == 0xFF4A {
            PpuView { wy: data, ..self }
        } else if address == 0xFF4B {
            PpuView { wx: data, ..self }
        } else {
            self
        }
    }

    /// This state with the LYC comparison applied to its interrupt flags.
    pub open spec fn lyc_checked_view(self) -> PpuView {
        PpuView { interrupt: self.lyc_checked(), ..self }
    }
}

} // verus!

verus! {

/// The color number of pixel (`px`, `py`) of the tile at (`tile_x`, `tile_y`)
/// of tile map `map`.
pub open spec fn tile_pixel(v: PpuView, map: TileMap, tile_y: int, tile_x: int, py: int, px: int) -> u8 {
    let map_address = base_address_spec(map) + tile_y * 32 + tile_x;
    let tile_index = v.vram[map_address - 0x8000];
    let row = tile_address_spec(v.tile_data, tile_index) + 2 * py;
    color_index_spec(v.vram[row - 0x8000], v.vram[row + 1 - 0x8000], (7 - px) as u8)
}

/// The color number that the window (on window line `wy`, when it is not
/// negative) or else the background shows at column `x` of the current line;
/// none where the window does not reach and the background is off.
pub open spec fn bgw_index(v: PpuView, wy: int, x: int) -> Option<u8> {
    let wx = x - (v.wx - 7);
    if wy >= 0 && wx >= 0 {
        Some(tile_pixel(v, v.window_tile_map, (wy / 8) % 32, wx / 8, wy % 8, wx % 8))
    } else if v.bg_window_enabled {
        let bgy = (v.scy + v.line) % 256;
        let bgx = v.scx + x;
        Some(tile_pixel(v, v.bg_tile_map, bgy / 8, (bgx / 8) % 32, bgy % 8, bgx % 8))
    } else {
        None
    }
}

/// The color number of the background image (256 by 256 pixels: the 32 by
/// 32 tiles that the background tile map names) at column `bx`, row `by`.
pub open spec fn background_pixel(v: PpuView, bx: int, by: int) -> u8 {
    let entry = v.vram[base_address_spec(v.bg_tile_map) + (by / 8) * 32 + bx / 8 - 0x8000];
    let row = tile_address_spec(v.tile_data, entry) + 2 * (by % 8);
    color_index_spec(v.vram[row - 0x8000], v.vram[row + 1 - 0x8000], (7 - bx % 8) as u8)
}

/// Where the window does not cover it, screen column `x` of line LY shows
/// the background pixel at ((SCX + x) mod 256, (SCY + LY) mod 256), in the
/// shade the background palette gives its color number.
pub proof fn lemma_background_scrolls(v: PpuView, x: int)
    requires
        v.shape(),
        v.line < 144,
        0 <= x < 160,
        v.bg_window_enabled,
        window_line(v) < 0 || x < v.wx - 7,
    ensures
        bgw_index(v, window_line(v), x) == Some(
            background_pixel(v, (v.scx + x) % 256, (v.scy + v.line) % 256),
        ),
        after_bg_window(v).screen_buffer[v.line * 160 + x] == color_rgb(
            v.bg_palette[background_pixel(v, (v.scx + x) % 256, (v.scy + v.line) % 256) as int],
        ),
{
    let n = v.scx + x;
    assert(((n / 8) % 32) == (n % 256) / 8 && n % 8 == (n % 256) % 8) by (nonlinear_arith)
        requires
            0 <= n < 512,
    ;
    let i = v.line * 160 + x;
    assert(0 <= i < v.screen_buffer.len()) by (nonlinear_arith)
        requires
            0 <= v.line < 144,
            0 <= x < 160,
            i == v.line * 160 + x,
            v.screen_buffer.len() == 160 * 144,
    ;
    assert(i - v.line * 160 == x);
}

/// Whether drawing this line advances the window's line counter.
pub open spec fn window_advances(v: PpuView) -> bool {
    v.window_enabled && v.wy_trigger && v.wx <= 166
}

/// The window line drawn on this line, or -1 when the window is not drawn.
pub open spec fn window_line(v: PpuView) -> int {
    if window_advances(v) { v.wy_position + 1 } else { -1 }
}

/// The screen after the background and window of the current line are drawn.
pub open spec fn bgw_screen(v: PpuView) -> Seq<(u8, u8, u8)> {
    Seq::new(v.screen_buffer.len(), |i: int| {
        let x = i - v.line * 160;
        if 0 <= x < 160 && bgw_index(v, window_line(v), x) is Some {
            color_rgb(v.bg_palette[bgw_index(v, window_line(v), x)->0 as int])
        } else {
            v.screen_buffer[i]
        }
    })
}

/// The background/window priority after the current line is drawn.
pub open spec fn bgw_priority(v: PpuView) -> Seq<Priority> {
    Seq::new(v.bg_window_priority.len(), |x: int| {
        if bgw_index(v, window_line(v), x) is Some {
            if bgw_index(v, window_line(v), x)->0 == 0 { Priority::Blank } else { Priority::Normal }
        } else {
            v.bg_window_priority[x]
        }
    })
}

/// The state after the background and window of the current line are drawn.
pub open spec fn after_bg_window(v: PpuView) -> PpuView {
    PpuView {
        wy_position: if window_advances(v) { (v.wy_position + 1) as i32 } else { v.wy_position },
        screen_buffer: bgw_screen(v),
        bg_window_priority: bgw_priority(v),
        ..v
    }
}

impl Ppu {
    /// Writes one pixel of the current line.
    fn set_pixel(&mut self, x: usize, color: (u8, u8, u8))
        requires
            old(self)@.shape(),
            old(self).line < 144,
            x < VIEWPORT_WIDTH,
        ensures
            final(self)@ == (PpuView {
                screen_buffer: old(self)@.screen_buffer.update(old(self).line * 160 + x, color),
                ..old(self)@
            }),
    {
        let index = self.line as usize * VIEWPORT_WIDTH + x;
        self.screen_buffer[index] = color;
    }

    /// The color number at (`px`, `py`) of tile (`tile_x`, `tile_y`) of a map.
    fn fetch_tile_pixel(&self, map: TileMap, tile_y: u16, tile_x: u16, py: u16, px: u16) -> (r: u8)
        requires
            self.vram@.len() == VRAM_SIZE,
            tile_y < 32,
            tile_x < 32,
            py < 8,
            px < 8,
        ensures
            r == tile_pixel(self@, map, tile_y as int, tile_x as int, py as int, px as int),
            r < 4,
    {
        let tile_map_address = map.base_address() + tile_y * 32 + tile_x;
        let tile_index: u8 = self.vram[(tile_map_address - 0x8000) as usize];
        let tile_address = self.tile_data.tile_address(tile_index);
        let tile_pixel_row_address = tile_address + (2 * py);
        let byte1 = self.vram[(tile_pixel_row_address - 0x8000) as usize];
        let byte2 = self.vram[(tile_pixel_row_address + 1 - 0x8000) as usize];
        color_index(byte1, byte2, (7 - px) as u8)
    }

    /// Draws the background and the window of the current line and records
    /// where they drew color 0.
    fn draw_bg_and_window(&mut self)
        requires
            old(self)@.shape(),
            old(self).line < 144,
            old(self).wy_trigger ==> -1 <= old(self).wy_position <= old(self).line,
        ensures
            final(self)@ == after_bg_window(old(self)@),
    {
        let ghost pre = self@;
        let draw_background = self.bg_window_enabled;

        let wx_trigger = self.wx <= 166;
        let wy: i32 = if self.window_enabled && self.wy_trigger && wx_trigger {
            self.wy_position += 1;
            self.wy_position
        } else {
            -1
        };
        let ghost mid = self@;

        if wy < 0 && draw_background == false {
            assert(bgw_screen(pre) =~= pre.screen_buffer);
            assert(bgw_priority(pre) =~= pre.bg_window_priority);
            return;
        }
        let window_tile_y: u16 = if wy >= 0 { ((wy / 8) % 32) as u16 } else { 0 };
        let window_pixel_y: u16 = if wy >= 0 { (wy % 8) as u16 } else { 0 };

        let bgy: u16 = ((self.scy as u16) + (self.line as u16)) % 256;
        let bg_tile_y: u16 = bgy / 8;
        let row_start: usize = self.line as usize * VIEWPORT_WIDTH;

        let mut screen: Vec<(u8, u8, u8)> = Vec::new();
        std::mem::swap(&mut screen, &mut self.screen_buffer);
        let mut priority: Vec<Priority> = Vec::new();
        std::mem::swap(&mut priority, &mut self.bg_window_priority);

        let mut x: usize = 0;
        while x < VIEWPORT_WIDTH
            invariant
                pre.shape(),
                pre.line < 144,
                wy == window_line(pre),
                0 <= x <= VIEWPORT_WIDTH,
                row_start == pre.line * 160,
                draw_background == pre.bg_window_enabled,
                wy >= 0 ==> window_tile_y == (wy / 8) % 32 && window_pixel_y == wy % 8,
                bgy == (pre.scy + pre.line) % 256,
                bg_tile_y == bgy / 8,
                self.vram@ == pre.vram,
                self.tile_data == pre.tile_data,
                self.window_tile_map == pre.window_tile_map,
                self.bg_tile_map == pre.bg_tile_map,
                self.wx == pre.wx,
                self.scx == pre.scx,
                self.bg_palette.data@ == pre.bg_palette,
                screen@.len() == pre.screen_buffer.len(),
                priority@.len() == VIEWPORT_WIDTH,
                forall|i: int| 0 <= i < screen@.len() ==> #[trigger] screen@[i]
                    == if pre.line * 160 <= i < pre.line * 160 + x { bgw_screen(pre)[i] } else { pre.screen_buffer[i] },
                forall|k: int| 0 <= k < VIEWPORT_WIDTH ==> #[trigger] priority@[k]
                    == if k < x { bgw_priority(pre)[k] } else { pre.bg_window_priority[k] },
            decreases VIEWPORT_WIDTH - x,
        {
            let wx: i32 = -((self.wx as i32) - 7) + (x as i32);
            let bgx: u32 = self.scx as u32 + x as u32;

            let color_index = if wy >= 0 && wx >= 0 {
                self.fetch_tile_pixel(
                    self.window_tile_map,
                    window_tile_y,
                    (wx / 8) as u16,
                    window_pixel_y,
                    (wx % 8) as u16,
                )
            } else if draw_background {
                self.fetch_tile_pixel(
                    self.bg_tile_map,
                    bg_tile_y,
                    ((bgx / 8) % 32) as u16,
                    bgy % 8,
                    (bgx % 8) as u16,
                )
            } else {
                x = x + 1;
                continue;
            };
            assert(bgw_index(pre, wy as int, x as int) == Some(color_index));

            priority[x] = match color_index {
                0 => Priority::Blank,
                _ => Priority::Normal,
            };

            let color = self.bg_palette.pixel_color(color_index);
            screen[row_start + x] = color.rgb();
            x = x + 1;
        }
        assert(screen@ =~= bgw_screen(pre));
        assert(priority@ =~= bgw_priority(pre));
        self.screen_buffer = screen;
        self.bg_window_priority = priority;
    }
}

} // verus!

verus! {

/// An object picked for a line: its screen column, its top screen line and
/// its index in object memory.
pub type Sprite = (i32, i32, u8);

/// The top screen line of object `idx`.
pub open spec fn sprite_top(v: PpuView, idx: int) -> int {
    v.oam[idx * 4] - 16
}

/// The left screen column of object `idx`.
pub open spec fn sprite_left(v: PpuView, idx: int) -> int {
    v.oam[idx * 4 + 1] - 8
}

/// Object `idx` covers the current line.
pub open spec fn on_line(v: PpuView, idx: int) -> bool {
    sprite_top(v, idx) <= v.line < sprite_top(v, idx) + v.object_size
}

/// The objects among the first `n` of object memory that the current line
/// shows: in memory order those covering the line, at most ten.
pub open spec fn selected(v: PpuView, n: nat) -> Seq<Sprite>
    decreases n,
{
    if n == 0 {
        Seq::empty()
    } else {
        let s = selected(v, (n - 1) as nat);
        let idx = n - 1;
        if s.len() < 10 && on_line(v, idx) {
            s.push((sprite_left(v, idx) as i32, sprite_top(v, idx) as i32, idx as u8))
        } else {
            s
        }
    }
}

/// The order in which objects are drawn, earliest first: larger columns
/// first, then larger indices (so that on monochrome hardware the object with
/// the smaller column, and then the smaller index, ends up on top).
pub open spec fn sprite_leq(a: Sprite, b: Sprite) -> bool {
    a.0 > b.0 || (a.0 == b.0 && (a.2 > b.2 || (a.2 == b.2 && a.1 >= b.1)))
}

/// The drawing order as a relation.
pub open spec fn sprite_order() -> spec_fn(Sprite, Sprite) -> bool {
    |a: Sprite, b: Sprite| sprite_leq(a, b)
}

/// The objects of the current line in the order they are drawn.
pub open spec fn draw_order(v: PpuView) -> Seq<Sprite> {
    selected(v, 40).sort_by(sprite_order())
}

/// The color that object `s` puts at screen column `px` of the current line,
/// if any: none outside the object, for color 0, and where the object is
/// behind a background that did not draw color 0.
pub open spec fn object_pixel(v: PpuView, s: Sprite, px: int) -> Option<(u8, u8, u8)> {
    let x = px - s.0;
    let addr = s.2 * 4;
    let tile_index = v.oam[addr + 2] & (if v.object_size == 16 { 0xFEu8 } else { 0xFFu8 });
    let flags = v.oam[addr + 3];
    let tile_y = if has(flags, 0x40) { v.object_size - 1 - (v.line - s.1) } else { v.line - s.1 };
    let row = tile_index * 16 + tile_y * 2;
    let pixel = if has(flags, 0x20) { x } else { 7 - x };
    let ci = color_index_spec(v.vram[row], v.vram[row + 1], pixel as u8);
    let palette = if has(flags, 0x10) { v.obj1_palette } else { v.obj0_palette };
    if !(0 <= x < 8) || !(0 <= px < 160) {
        None
    } else if ci == 0 {
        None
    } else if has(flags, 0x80) && v.bg_window_priority[px] != Priority::Blank {
        None
    } else {
        Some(color_rgb(palette[ci as int]))
    }
}

/// Setting an object's horizontal-flip flag (bit 5 of its attributes)
/// mirrors it: column `x` of the flipped object shows what column `7 - x`
/// showed, for an object drawn in front of the background (bit 7 clear)
/// whose eight columns are on the screen.
pub proof fn lemma_object_x_flip(v: PpuView, s: Sprite, x: int)
    requires
        v.shape(),
        0 <= s.2 < 40,
        0 <= s.0,
        s.0 + 8 <= 160,
        0 <= x < 8,
        v.oam[s.2 * 4 + 3] & 0xA0 == 0,
    ensures
        ({
            let flipped = PpuView { oam: v.oam.update(s.2 * 4 + 3, v.oam[s.2 * 4 + 3] | 0x20), ..v };
            object_pixel(flipped, s, s.0 + x) == object_pixel(v, s, s.0 + 7 - x)
        }),
{
    let f = v.oam[s.2 * 4 + 3];
    assert((f & 0xA0 == 0) ==> ((f | 0x20) & 0x20 != 0 && (f | 0x20) & 0x80 == 0 && (f | 0x20) & 0x40 == f & 0x40
        && (f | 0x20) & 0x10 == f & 0x10 && f & 0x20 == 0 && f & 0x80 == 0)) by (bit_vector);
}

/// The screen after object `s` is drawn over `screen` on the current line.
pub open spec fn draw_sprite(v: PpuView, screen: Seq<(u8, u8, u8)>, s: Sprite) -> Seq<(u8, u8, u8)> {
    Seq::new(screen.len(), |i: int| {
        let px = i - v.line * 160;
        if object_pixel(v, s, px) is Some { object_pixel(v, s, px)->0 } else { screen[i] }
    })
}

/// The screen after the first `k` objects of `order` are drawn.
pub open spec fn objects_screen(v: PpuView, order: Seq<Sprite>, k: nat) -> Seq<(u8, u8, u8)>
    decreases k,
{
    if k == 0 {
        v.screen_buffer
    } else {
        draw_sprite(v, objects_screen(v, order, (k - 1) as nat), order[k - 1])
    }
}

/// The state after the objects of the current line are drawn.
pub open spec fn after_objects(v: PpuView) -> PpuView {
    if !v.object_enabled {
        v
    } else {
        PpuView { screen_buffer: objects_screen(v, draw_order(v), draw_order(v).len()), ..v }
    }
}

/// Only the first ten objects covering the line are kept.
proof fn lemma_selected_full(v: PpuView, m: nat, n: nat)
    requires
        m <= n,
        selected(v, m).len() >= 10,
    ensures
        selected(v, n) == selected(v, m),
    decreases n - m,
{
    if n > m {
        lemma_selected_full(v, m, (n - 1) as nat);
    }
}

/// The selected objects have indices below `n`, are at most ten, and are in
/// increasing index order.
proof fn lemma_selected_shape(v: PpuView, n: nat)
    requires
        n <= 40,
    ensures
        selected(v, n).len() <= 10,
        forall|i: int| 0 <= i < selected(v, n).len() ==> (#[trigger] selected(v, n)[i]).2 < n,
    decreases n,
{
    if n > 0 {
        lemma_selected_shape(v, (n - 1) as nat);
    }
}

/// The draw order is a total order on objects.
proof fn lemma_sprite_leq_total()
    ensures
        vstd::relations::total_ordering(sprite_order()),
{
}

/// The draw order is transitive.
proof fn lemma_sprite_leq_transitive(a: Sprite, b: Sprite, c: Sprite)
    requires
        sprite_leq(a, b),
        sprite_leq(b, c),
    ensures
        sprite_leq(a, c),
{
}

/// Whether sprite `a` is drawn strictly before sprite `b`, first by the
/// monochrome ordering and, where that sees them as equal, by line.
fn sprite_before(a: &Sprite, b: &Sprite) -> (r: bool)
    ensures
        r == (sprite_leq(*a, *b) && *a != *b),
{
    match dmg_sprite_order(a, b) {
        core::cmp::Ordering::Less => true,
        core::cmp::Ordering::Greater => false,
        core::cmp::Ordering::Equal => a.1 > b.1,
    }
}

/// The monochrome drawing order of two objects: the one with the larger
/// column comes first, and at equal columns the one with the larger index.
fn dmg_sprite_order(a: &Sprite, b: &Sprite) -> (r: core::cmp::Ordering)
    ensures
        r == (if a.0 > b.0 || (a.0 == b.0 && a.2 > b.2) {
            core::cmp::Ordering::Less
        } else if a.0 == b.0 && a.2 == b.2 {
            core::cmp::Ordering::Equal
        } else {
            core::cmp::Ordering::Greater
        }),
{
    if a.0 != b.0 {
        if b.0 < a.0 {
            return core::cmp::Ordering::Less;
        } else {
            return core::cmp::Ordering::Greater;
        }
    }
    if b.2 < a.2 {
        core::cmp::Ordering::Less
    } else if b.2 == a.2 {
        core::cmp::Ordering::Equal
    } else {
        core::cmp::Ordering::Greater
    }
}

/// Sorts objects into drawing order.
fn sort_sprites(items: &Vec<Sprite>) -> (r: Vec<Sprite>)
    ensures
        r@ == items@.sort_by(sprite_order()),
{
    let mut out: Vec<Sprite> = Vec::new();
    let mut i: usize = 0;
    proof {
        lemma_sprite_leq_total();
        assert(out@ =~= items@.subrange(0, 0));
    }
    while i < items.len()
        invariant
            i <= items.len(),
            vstd::relations::sorted_by(out@, sprite_order()),
            out@.to_multiset() == items@.subrange(0, i as int).to_multiset(),
            out@.len() == i,
            vstd::relations::total_ordering(sprite_order()),
        decreases items.len() - i,
    {
        let e = items[i];
        let mut p: usize = 0;
        while p < out.len() && !sprite_before(&e, &out[p])
            invariant
                p <= out@.len(),
                forall|k: int| 0 <= k < p ==> sprite_leq(#[trigger] out@[k], e),
                vstd::relations::total_ordering(sprite_order()),
                vstd::relations::sorted_by(out@, sprite_order()),
            decreases out@.len() - p,
        {
            p = p + 1;
        }
        let ghost before = out@;
        proof {
            if p < before.len() {
                assert(sprite_leq(e, before[p as int]));
            }
        }
        out.insert(p, e);
        proof {
            assert forall|a: int, b: int| 0 <= a < b < out@.len() implies #[trigger] sprite_order()(out@[a], out@[b]) by {
                if b < p {
                    assert(out@[a] == before[a] && out@[b] == before[b]);
                    assert(sprite_order()(before[a], before[b]));
                } else if a < p && b == p {
                    assert(out@[a] == before[a] && out@[b] == e);
                    assert(sprite_leq(before[a], e));
                } else if a < p && b > p {
                    assert(out@[a] == before[a] && out@[b] == before[b - 1]);
                    assert(sprite_order()(before[a], before[b - 1]));
                } else if a == p {
                    assert(out@[a] == e && out@[b] == before[b - 1]);
                    assert(sprite_leq(e, before[p as int]));
                    if b - 1 > p {
                        assert(sprite_order()(before[p as int], before[b - 1]));
                        assert(sprite_leq(before[p as int], before[b - 1]));
                        lemma_sprite_leq_transitive(e, before[p as int], before[b - 1]);
                    }
                    assert(sprite_leq(e, before[b - 1]));
                } else {
                    assert(out@[a] == before[a - 1] && out@[b] == before[b - 1]);
                    assert(sprite_order()(before[a - 1], before[b - 1]));
                }
            }
            vstd::seq_lib::to_multiset_insert(before, p as int, e);
            assert(items@.subrange(0, i + 1) == items@.subrange(0, i as int).push(e));
            vstd::seq_lib::to_multiset_build(items@.subrange(0, i as int), e);
            broadcast use vstd::multiset::group_multiset_axioms;
            assert(out@.to_multiset() =~= items@.subrange(0, i + 1).to_multiset());
        }
        i = i + 1;
    }
    proof {
        assert(items@.subrange(0, items@.len() as int) =~= items@);
        items@.lemma_sort_by_ensures(sprite_order());
        vstd::seq_lib::lemma_sorted_unique(out@, items@.sort_by(sprite_order()), sprite_order());
    }
    out
}

} // verus!

verus! {

/// `s` is object `s.2` as picked for the current line.
pub open spec fn valid_sprite(v: PpuView, s: Sprite) -> bool {
    &&& 0 <= s.2 < 40
    &&& s.0 == sprite_left(v, s.2 as int)
    &&& s.1 == sprite_top(v, s.2 as int)
    &&& on_line(v, s.2 as int)
}

/// Every selected object is a valid pick for the line.
proof fn lemma_selected_valid(v: PpuView, n: nat)
    requires
        n <= 40,
        v.oam.len() == OAM_SIZE,
    ensures
        forall|i: int| 0 <= i < selected(v, n).len() ==> valid_sprite(v, #[trigger] selected(v, n)[i]),
    decreases n,
{
    if n > 0 {
        lemma_selected_valid(v, (n - 1) as nat);
        let s = selected(v, (n - 1) as nat);
        let idx = n - 1;
        if s.len() < 10 && on_line(v, idx) {
            let e = (sprite_left(v, idx) as i32, sprite_top(v, idx) as i32, idx as u8);
            assert(valid_sprite(v, e));
            assert forall|i: int| 0 <= i < selected(v, n).len() implies valid_sprite(v, #[trigger] selected(v, n)[i]) by {
                if i < s.len() {
                    assert(selected(v, n)[i] == s[i]);
                }
            }
        }
    }
}

/// Every object in the draw order is a valid pick for the line.
proof fn lemma_draw_order_valid(v: PpuView)
    requires
        v.oam.len() == OAM_SIZE,
    ensures
        forall|i: int| 0 <= i < draw_order(v).len() ==> valid_sprite(v, #[trigger] draw_order(v)[i]),
{
    lemma_selected_valid(v, 40);
    lemma_sprite_leq_total();
    selected(v, 40).lemma_sort_by_ensures(sprite_order());
    assert forall|i: int| 0 <= i < draw_order(v).len() implies valid_sprite(v, #[trigger] draw_order(v)[i]) by {
        let x = draw_order(v)[i];
        assert(draw_order(v).contains(x));
        assert(selected(v, 40).contains(x));
        let j = choose|j: int| 0 <= j < selected(v, 40).len() && selected(v, 40)[j] == x;
        assert(valid_sprite(v, selected(v, 40)[j]));
    }
}

/// Drawing an object reads only the line, the object height, the memories,
/// the palettes and the background priority.
proof fn lemma_draw_sprite_frame(v1: PpuView, v2: PpuView, screen: Seq<(u8, u8, u8)>, s: Sprite)
    requires
        v1.line == v2.line,
        v1.object_size == v2.object_size,
        v1.oam == v2.oam,
        v1.vram == v2.vram,
        v1.obj0_palette == v2.obj0_palette,
        v1.obj1_palette == v2.obj1_palette,
        v1.bg_window_priority == v2.bg_window_priority,
    ensures
        draw_sprite(v1, screen, s) == draw_sprite(v2, screen, s),
{
    assert(draw_sprite(v1, screen, s) =~= draw_sprite(v2, screen, s));
}

impl Ppu {
    /// Draws object `s` of the current line over `screen`.
    fn draw_sprite_row(&self, screen: &mut Vec<(u8, u8, u8)>, s: Sprite)
        requires
            self.vram@.len() == VRAM_SIZE,
            self.oam@.len() == OAM_SIZE,
            self.bg_window_priority@.len() == VIEWPORT_WIDTH,
            self.obj0_palette.data@.len() == 4,
            self.obj1_palette.data@.len() == 4,
            self.object_size == 8 || self.object_size == 16,
            self.line < 144,
            old(screen)@.len() == VIEWPORT_WIDTH * VIEWPORT_HEIGHT,
            valid_sprite(self@, s),
        ensures
            final(screen)@ == draw_sprite(self@, old(screen)@, s),
    {
        let ghost v = self@;
        let ghost start = screen@;
        let (object_x, object_y, i) = s;
        if object_x < -7 || object_x >= (VIEWPORT_WIDTH as i32) {
            assert(draw_sprite(v, start, s) =~= start);
            return;
        }
        let line = self.line as i32;
        let object_size = self.object_size as i32;
        let object_address = (i as usize) * 4;
        let tile_index = (self.oam[object_address + 2] & (if self.object_size == 16 { 0xFEu8 } else { 0xFFu8 })) as u16;
        proof {
            crate::bits::lemma_byte_split(self.oam@[object_address + 2]);
        }
        let flags = self.oam[object_address + 3];
        let dmg_palette: bool = flags & 0x10 != 0;
        let x_flip: bool = flags & 0x20 != 0;
        let y_flip: bool = flags & 0x40 != 0;
        let priority: bool = flags & 0x80 != 0;

        let tile_y: u16 = if y_flip {
            (object_size - 1 - (line - object_y)) as u16
        } else {
            (line - object_y) as u16
        };

        let tile_pixel_row_address = (tile_index * 16 + tile_y * 2) as usize;
        let byte1 = self.vram[tile_pixel_row_address];
        let byte2 = self.vram[tile_pixel_row_address + 1];
        let row_start: usize = self.line as usize * VIEWPORT_WIDTH;

        let mut x: i32 = 0;
        while x < 8
            invariant
                0 <= x <= 8,
                v == self@,
                row_start == v.line * 160,
                v.line < 144,
                -7 <= object_x < 160,
                s == (object_x, object_y, i),
                screen@.len() == start.len(),
                start.len() == VIEWPORT_WIDTH * VIEWPORT_HEIGHT,
                v.bg_window_priority.len() == VIEWPORT_WIDTH,
                v.obj0_palette.len() == 4,
                v.obj1_palette.len() == 4,
                tile_pixel_row_address == (v.oam[i * 4 + 2] & (if v.object_size == 16 { 0xFEu8 } else { 0xFFu8 })) * 16 + tile_y * 2,
                tile_pixel_row_address + 1 < VRAM_SIZE,
                tile_y == (if has(v.oam[i * 4 + 3], 0x40) { v.object_size - 1 - (v.line - object_y) } else { v.line - object_y }),
                byte1 == v.vram[tile_pixel_row_address as int],
                byte2 == v.vram[tile_pixel_row_address + 1],
                dmg_palette == has(v.oam[i * 4 + 3], 0x10),
                x_flip == has(v.oam[i * 4 + 3], 0x20),
                priority == has(v.oam[i * 4 + 3], 0x80),
                forall|k: int| 0 <= k < screen@.len() ==> #[trigger] screen@[k]
                    == if row_start + object_x <= k < row_start + object_x + x { draw_sprite(v, start, s)[k] } else { start[k] },
            decreases 8 - x,
        {
            let px = object_x + x;
            if px < 0 || px >= (VIEWPORT_WIDTH as i32) {
                x = x + 1;
                continue;
            }
            let pixel = if x_flip { x } else { 7 - x };
            let color_index = color_index(byte1, byte2, pixel as u8);
            if color_index == 0 {
                x = x + 1;
                continue;
            }
            if priority && self.bg_window_priority[px as usize] != Priority::Blank {
                x = x + 1;
                continue;
            }
            let color = match dmg_palette {
                true => self.obj1_palette.pixel_color(color_index),
                false => self.obj0_palette.pixel_color(color_index),
            };
            screen[row_start + px as usize] = color.rgb();
            x = x + 1;
        }
        assert(screen@ =~= draw_sprite(v, start, s));
    }
}

} // verus!

verus! {

/// The screen with the current line blanked to white.
pub open spec fn cleared_line(v: PpuView) -> PpuView {
    PpuView {
        screen_buffer: Seq::new(v.screen_buffer.len(), |i: int|
            if v.line * 160 <= i < v.line * 160 + 160 { (255u8, 255u8, 255u8) } else { v.screen_buffer[i] }),
        ..v
    }
}

/// The state after the current line is rendered: blanked, then background and
/// window, then objects.
#[verifier::opaque]
pub open spec fn rendered(v: PpuView) -> PpuView {
    after_objects(after_bg_window(cleared_line(v)))
}

/// Rendering a line changes only the screen, the background priority and the
/// window's line counter, which it advances exactly when the window is drawn.
pub proof fn lemma_rendered_fields(v: PpuView)
    requires
        v.shape(),
    ensures
        rendered(v) == (PpuView {
            screen_buffer: rendered(v).screen_buffer,
            bg_window_priority: rendered(v).bg_window_priority,
            wy_position: rendered(v).wy_position,
            ..v
        }),
        rendered(v).screen_buffer.len() == v.screen_buffer.len(),
        rendered(v).bg_window_priority.len() == v.bg_window_priority.len(),
        rendered(v).wy_position == if window_advances(v) { (v.wy_position + 1) as i32 } else { v.wy_position },
{
    reveal(rendered);
    let w = after_bg_window(cleared_line(v));
    lemma_objects_screen_len(w, draw_order(w), draw_order(w).len());
}

/// Drawing objects keeps the screen's size.
proof fn lemma_objects_screen_len(v: PpuView, order: Seq<Sprite>, k: nat)
    ensures
        objects_screen(v, order, k).len() == v.screen_buffer.len(),
    decreases k,
{
    if k > 0 {
        lemma_objects_screen_len(v, order, (k - 1) as nat);
    }
}

impl Ppu {
    /// Draws the objects of the current line.
    fn draw_objects(&mut self)
        requires
            old(self)@.shape(),
            old(self).line < 144,
        ensures
            final(self)@ == after_objects(old(self)@),
    {
        if !self.object_enabled {
            return;
        }
        let ghost pre = self@;
        let line = self.line as i32;
        let object_size = self.object_size as i32;

        let mut objects_to_draw: Vec<Sprite> = Vec::new();
        let mut index: usize = 0;
        while index < 40 && objects_to_draw.len() < 10
            invariant
                index <= 40,
                objects_to_draw@ == selected(pre, index as nat),
                objects_to_draw@.len() <= 10,
                self@ == pre,
                line == pre.line,
                object_size == pre.object_size,
                pre.shape(),
            decreases 40 - index,
        {
            let object_address = index * 4;
            let object_y = self.oam[object_address] as i32 - 16;
            if line < object_y || line >= object_y + object_size {
                index = index + 1;
                continue;
            }
            let object_x = self.oam[object_address + 1] as i32 - 8;
            objects_to_draw.push((object_x, object_y, index as u8));
            index = index + 1;
        }
        proof {
            if index < 40 {
                lemma_selected_full(pre, index as nat, 40);
            }
            lemma_draw_order_valid(pre);
        }
        let sorted = sort_sprites(&objects_to_draw);

        let mut screen: Vec<(u8, u8, u8)> = Vec::new();
        std::mem::swap(&mut screen, &mut self.screen_buffer);
        let mut k: usize = 0;
        while k < sorted.len()
            invariant
                k <= sorted@.len(),
                sorted@ == draw_order(pre),
                forall|j: int| 0 <= j < draw_order(pre).len() ==> valid_sprite(pre, #[trigger] draw_order(pre)[j]),
                self@ == (PpuView { screen_buffer: self@.screen_buffer, ..pre }),
                pre.shape(),
                pre.line < 144,
                screen@ == objects_screen(pre, draw_order(pre), k as nat),
                screen@.len() == VIEWPORT_WIDTH * VIEWPORT_HEIGHT,
            decreases sorted@.len() - k,
        {
            let ghost before = screen@;
            let s = sorted[k];
            assert(valid_sprite(pre, draw_order(pre)[k as int]));
            self.draw_sprite_row(&mut screen, s);
            proof {
                lemma_draw_sprite_frame(self@, pre, before, s);
            }
            k = k + 1;
        }
        self.screen_buffer = screen;
    }

    /// Renders the current line: blanks it, then draws background, window
    /// and objects.
    fn render_scanline(&mut self)
        requires
            old(self)@.shape(),
            old(self).line < 144,
            old(self).wy_trigger ==> -1 <= old(self).wy_position <= old(self).line,
        ensures
            final(self)@ == rendered(old(self)@),
    {
        let ghost pre = self@;
        let mut x: usize = 0;
        while x < VIEWPORT_WIDTH
            invariant
                x <= VIEWPORT_WIDTH,
                pre.shape(),
                pre.line < 144,
                self@ == (PpuView { screen_buffer: self@.screen_buffer, ..pre }),
                self@.screen_buffer.len() == pre.screen_buffer.len(),
                forall|i: int| 0 <= i < pre.screen_buffer.len() ==> #[trigger] self@.screen_buffer[i]
                    == if pre.line * 160 <= i < pre.line * 160 + x { (255u8, 255u8, 255u8) } else { pre.screen_buffer[i] },
            decreases VIEWPORT_WIDTH - x,
        {
            self.set_pixel(x, (255, 255, 255));
            x = x + 1;
        }
        assert(self@ =~= cleared_line(pre));
        self.draw_bg_and_window();
        self.draw_objects();
        proof {
            reveal(rendered);
        }
    }

    /// Blanks the whole screen to white and marks the frame as updated.
    fn clear_screen(&mut self)
        requires
            old(self)@.shape(),
        ensures
            final(self)@ == (PpuView {
                screen_buffer: Seq::new(old(self)@.screen_buffer.len(), |i: int| (255u8, 255u8, 255u8)),
                screen_updated: true,
                ..old(self)@
            }),
    {
        let ghost pre = self@;
        let mut i: usize = 0;
        while i < self.screen_buffer.len()
            invariant
                self@ == (PpuView { screen_buffer: self@.screen_buffer, ..pre }),
                self@.screen_buffer.len() == pre.screen_buffer.len(),
                i <= self@.screen_buffer.len(),
                forall|k: int| 0 <= k < pre.screen_buffer.len() ==> #[trigger] self@.screen_buffer[k]
                    == if k < i { (255u8, 255u8, 255u8) } else { pre.screen_buffer[k] },
            decreases self@.screen_buffer.len() - i,
        {
            self.screen_buffer[i] = (255, 255, 255);
            i = i + 1;
        }
        self.screen_updated = true;
        assert(self@.screen_buffer =~= Seq::new(pre.screen_buffer.len(), |i: int| (255u8, 255u8, 255u8)));
    }
}

} // verus!

verus! {

/// The state after switching to `mode`: entering horizontal blank renders the
/// line; entering vertical blank ends the window for the frame, requests the
/// vertical blank interrupt and marks the frame ready; entering drawing on the
/// window's first line starts the window. The STAT interrupt is then requested
/// when the entered mode's STAT source is enabled.
#[verifier::opaque]
pub open spec fn mode_entered(v: PpuView, mode: PpuMode) -> PpuView {
    let v1 = PpuView { mode, ..v };
    let v2 = match mode {
        PpuMode::HBlank => rendered(v1),
        PpuMode::VBlank => PpuView { wy_trigger: false, interrupt: v1.interrupt | 0x01, screen_updated: true, ..v1 },
        PpuMode::OamScan => v1,
        PpuMode::DrawingPixels => if v.window_enabled && !v.wy_trigger && v.line == v.wy {
            PpuView { wy_trigger: true, wy_position: -1i32, ..v1 }
        } else {
            v1
        },
    };
    let raise = match mode {
        PpuMode::HBlank => v.mode0_interrupt,
        PpuMode::VBlank => v.mode1_interrupt,
        PpuMode::OamScan => v.mode2_interrupt,
        PpuMode::DrawingPixels => false,
    };
    if raise { PpuView { interrupt: v2.interrupt | 0x02, ..v2 } } else { v2 }
}

/// What entering a mode does to the fields that the invariant speaks of.
pub proof fn lemma_mode_entered(v: PpuView, mode: PpuMode)
    requires
        v.shape(),
    ensures
        mode_entered(v, mode).shape(),
        mode_entered(v, mode).mode == mode,
        mode_entered(v, mode).line == v.line,
        mode_entered(v, mode).line_ticks == v.line_ticks,
        mode_entered(v, mode).lcd_enabled == v.lcd_enabled,
        mode == PpuMode::HBlank ==> mode_entered(v, mode).wy_trigger == v.wy_trigger
            && mode_entered(v, mode).wy_position == (if window_advances(v) { (v.wy_position + 1) as i32 } else { v.wy_position }),
        mode == PpuMode::VBlank ==> !mode_entered(v, mode).wy_trigger,
        mode == PpuMode::OamScan ==> mode_entered(v, mode).wy_trigger == v.wy_trigger
            && mode_entered(v, mode).wy_position == v.wy_position,
        mode == PpuMode::DrawingPixels ==> if v.window_enabled && !v.wy_trigger && v.line == v.wy {
            mode_entered(v, mode).wy_trigger && mode_entered(v, mode).wy_position == -1
        } else {
            mode_entered(v, mode).wy_trigger == v.wy_trigger && mode_entered(v, mode).wy_position == v.wy_position
        },
{
    reveal(mode_entered);
    lemma_rendered_fields(PpuView { mode, ..v });
}

/// The mode that a dot count within a visible line falls in.
pub open spec fn line_mode(ticks: u32) -> PpuMode {
    if ticks <= 80 {
        PpuMode::OamScan
    } else if ticks <= 252 {
        PpuMode::DrawingPixels
    } else {
        PpuMode::HBlank
    }
}

/// The state when a line has ended: LY advances (wrapping after line 153) and
/// is compared with LYC, and line 144 enters vertical blank.
pub open spec fn line_started(v: PpuView) -> PpuView {
    let vv = PpuView { line_ticks: (v.line_ticks - 456) as u32, line: ((v.line + 1) % 154) as u8, ..v }.lyc_checked_view();
    if vv.line >= 144 && vv.mode != PpuMode::VBlank { mode_entered(vv, PpuMode::VBlank) } else { vv }
}

/// The state after a visible line's mode is brought in line with its dot count.
pub open spec fn mode_followed(v: PpuView) -> PpuView {
    if v.line < 144 && v.mode != line_mode(v.line_ticks) {
        mode_entered(v, line_mode(v.line_ticks))
    } else {
        v
    }
}

/// The state after `ticks` dots: the dots are counted, a line that has ended
/// gives way to the next, and on visible lines the mode follows the dot count.
pub open spec fn cycled(v: PpuView, ticks: u32) -> PpuView {
    if !v.lcd_enabled || ticks == 0 {
        v
    } else {
        let vt = PpuView { line_ticks: (v.line_ticks + ticks) as u32, ..v };
        let v1 = if vt.line_ticks >= 456 { line_started(vt) } else { vt };
        mode_followed(v1)
    }
}

/// The invariant as it holds between the dot count and the mode update: the
/// window's line counter may equal the line only in horizontal blank late in
/// the line.
pub open spec fn settled_window(v: PpuView) -> bool {
    &&& v.shape()
    &&& v.line >= 144 ==> v.mode == PpuMode::VBlank && !v.wy_trigger
    &&& v.wy_trigger ==> -1 <= v.wy_position && (v.wy_position < v.line || (v.wy_position == v.line
        && v.mode == PpuMode::HBlank && v.line_ticks > 252))
}

/// Counting dots and starting the next line keep the window settled.
pub proof fn lemma_line_started(v: PpuView)
    requires
        v.wf(),
    ensures
        settled_window(v),
        v.line_ticks >= 456 ==> settled_window(line_started(v)),
{
    if v.line_ticks >= 456 {
        let vv = PpuView { line_ticks: (v.line_ticks - 456) as u32, line: ((v.line + 1) % 154) as u8, ..v }.lyc_checked_view();
        if vv.line >= 144 && vv.mode != PpuMode::VBlank {
            lemma_mode_entered(vv, PpuMode::VBlank);
            reveal(mode_entered);
        }
    }
}

/// Bringing the mode in line with the dot count restores the invariant.
pub proof fn lemma_mode_followed(v: PpuView)
    requires
        settled_window(v),
    ensures
        mode_followed(v).wf(),
{
    if v.line < 144 && v.mode != line_mode(v.line_ticks) {
        lemma_mode_entered(v, line_mode(v.line_ticks));
    }
}

/// The state with the STAT interrupt requested when `raise` holds.
pub open spec fn raised(v: PpuView, raise: bool) -> PpuView {
    if raise { PpuView { interrupt: v.interrupt | 0x02, ..v } } else { v }
}

/// Entering each mode, spelled out.
proof fn lemma_mode_entered_cases(v: PpuView)
    ensures
        mode_entered(v, PpuMode::HBlank) == raised(rendered(PpuView { mode: PpuMode::HBlank, ..v }), v.mode0_interrupt),
        mode_entered(v, PpuMode::VBlank) == raised(
            PpuView { mode: PpuMode::VBlank, wy_trigger: false, interrupt: v.interrupt | 0x01, screen_updated: true, ..v },
            v.mode1_interrupt,
        ),
        mode_entered(v, PpuMode::OamScan) == raised(PpuView { mode: PpuMode::OamScan, ..v }, v.mode2_interrupt),
        mode_entered(v, PpuMode::DrawingPixels) == (if v.window_enabled && !v.wy_trigger && v.line == v.wy {
            PpuView { mode: PpuMode::DrawingPixels, wy_trigger: true, wy_position: -1i32, ..v }
        } else {
            PpuView { mode: PpuMode::DrawingPixels, ..v }
        }),
{
    reveal(mode_entered);
}

impl Ppu {
    /// Switches to `mode` with its side effects (see `mode_entered`).
    #[verifier::spinoff_prover]
    #[verifier::rlimit(60)]
    fn change_mode(&mut self, mode: PpuMode)
        requires
            old(self)@.shape(),
            mode == PpuMode::HBlank ==> old(self).line < 144 && (old(self).wy_trigger ==> -1 <= old(self).wy_position <= old(self).line),
        ensures
            final(self)@ == mode_entered(old(self)@, mode),
    {
        let ghost pre = self@;
        proof {
            lemma_mode_entered_cases(pre);
        }
        self.mode = mode;
        match self.mode {
            PpuMode::HBlank => {
                proof {
                    lemma_rendered_fields(self@);
                }
                self.render_scanline();
                if self.mode0_interrupt {
                    self.interrupt |= 0x02;
                }
                assert(self@ =~= mode_entered(pre, mode));
            },
            PpuMode::VBlank => {
                self.wy_trigger = false;
                self.interrupt |= 0x01;
                self.screen_updated = true;
                if self.mode1_interrupt {
                    self.interrupt |= 0x02;
                }
                assert(self@ =~= mode_entered(pre, mode));
            },
            PpuMode::OamScan => {
                if self.mode2_interrupt {
                    self.interrupt |= 0x02;
                }
                assert(self@ =~= mode_entered(pre, mode));
            },
            PpuMode::DrawingPixels => {
                if self.window_enabled && self.wy_trigger == false && self.line == self.wy {
                    self.wy_trigger = true;
                    self.wy_position = -1;
                }
                assert(self@ =~= mode_entered(pre, mode));
            },
        }
    }

    /// Ends the current line and starts the next (see `line_started`).
    fn start_next_line(&mut self)
        requires
            settled_window(old(self)@),
            old(self).line_ticks >= LINE_TICKS,
        ensures
            final(self)@ == line_started(old(self)@),
    {
        self.line_ticks -= LINE_TICKS;
        self.line = (self.line + 1) % LINES;
        self.trigger_lyc_interrupt();

        if self.line >= 144 && self.mode != PpuMode::VBlank {
            self.change_mode(PpuMode::VBlank);
        }
    }

    /// Brings a visible line's mode in line with its dot count (see
    /// `mode_followed`).
    fn follow_mode(&mut self)
        requires
            settled_window(old(self)@),
        ensures
            final(self)@ == mode_followed(old(self)@),
    {
        if self.line < 144 {
            let target = if self.line_ticks <= 80 {
                PpuMode::OamScan
            } else if self.line_ticks <= 252 {
                PpuMode::DrawingPixels
            } else {
                PpuMode::HBlank
            };
            if self.mode != target {
                self.change_mode(target);
            }
        }
    }

    /// Advances the PPU by `ticks` dots (see `cycled`); does nothing while the
    /// display is off.
    pub fn cycle(&mut self, ticks: u32)
        requires
            old(self)@.wf(),
            old(self).lcd_enabled && ticks > 0 ==> old(self).line_ticks + ticks <= u32::MAX,
        ensures
            final(self)@.wf(),
            final(self)@ == cycled(old(self)@, ticks),
    {
        if !self.lcd_enabled {
            return;
        }
        if ticks <= 0 {
            return;
        }
        self.line_ticks += ticks;
        proof {
            lemma_line_started(self@);
        }
        if self.line_ticks >= LINE_TICKS {
            self.start_next_line();
        }
        proof {
            lemma_mode_followed(self@);
        }
        self.follow_mode();
    }
}

} // verus!

verus! {

/// Reading back a byte of video RAM or object memory, or a register that
/// stores what is written (LCDC, SCY, SCX, LYC, the three palettes, WY, WX),
/// gives the byte that was written.
pub proof fn lemma_read_after_write(v: PpuView, address: u16, data: u8)
    requires
        v.wf(),
        ppu_write_accepted(address),
        address != 0xFF41,
        address != 0xFF44,
        address != 0xFF4C,
        address != 0xFF4E,
    ensures
        v.write(address, data).read(address) == data,
{
    reveal(PpuView::write);
    if address == 0xFF40 {
        registers::lemma_unpack8(data);
    } else if address == 0xFF47 || address == 0xFF48 || address == 0xFF49 {
        palette::lemma_palette_byte_roundtrip(data);
    }
}

/// A write changes what reads of other video RAM and object memory addresses
/// give not at all.
pub proof fn lemma_write_leaves_other_memory(v: PpuView, address: u16, data: u8, other: u16)
    requires
        v.wf(),
        ppu_write_accepted(address),
        other != address,
        (0x8000 <= other <= 0x9FFF) || (0xFE00 <= other <= 0xFE9F),
    ensures
        v.write(address, data).read(other) == v.read(other),
{
    reveal(PpuView::write);
}

/// The timing of a display that is on: a line is 456 dots and LY counts 0 to
/// 153; on lines 0 to 143 the mode is OAM scan for dots 0-80, drawing for
/// 81-252 and horizontal blank after that; lines 144-153 are vertical blank,
/// and reaching line 144 requests the V-Blank interrupt.
pub proof fn lemma_ppu_timing(v: PpuView, ticks: u32)
    requires
        v.wf(),
        v.lcd_enabled,
        0 < ticks,
        v.line_ticks + ticks <= u32::MAX,
    ensures
        ({
            let t = v.line_ticks + ticks;
            let w = cycled(v, ticks);
            &&& t >= 456 ==> w.line == (v.line + 1) % 154 && w.line_ticks == t - 456
            &&& t < 456 ==> w.line == v.line && w.line_ticks == t
            &&& w.line < 144 ==> w.mode == (if w.line_ticks <= 80 {
                PpuMode::OamScan
            } else if w.line_ticks <= 252 {
                PpuMode::DrawingPixels
            } else {
                PpuMode::HBlank
            })
            &&& w.line >= 144 ==> w.mode == PpuMode::VBlank
            &&& v.line == 143 && t >= 456 ==> w.interrupt & 0x01 != 0
        }),
{
    let vt = PpuView { line_ticks: (v.line_ticks + ticks) as u32, ..v };
    lemma_line_started(vt);
    let v1 = if vt.line_ticks >= 456 { line_started(vt) } else { vt };
    if vt.line_ticks >= 456 {
        let vv = PpuView { line_ticks: (vt.line_ticks - 456) as u32, line: ((vt.line + 1) % 154) as u8, ..vt }.lyc_checked_view();
        if vv.line >= 144 && vv.mode != PpuMode::VBlank {
            lemma_mode_entered(vv, PpuMode::VBlank);
            reveal(mode_entered);
            let i = vv.interrupt;
            assert((i | 0x01) & 0x01 != 0 && ((i | 0x01) | 0x02) & 0x01 != 0) by (bit_vector);
        }
    }
    lemma_mode_followed(v1);
    if v1.line < 144 && v1.mode != line_mode(v1.line_ticks) {
        lemma_mode_entered(v1, line_mode(v1.line_ticks));
    }
}

} // verus!
