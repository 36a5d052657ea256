//! Monochrome palettes: a byte maps each of the four color numbers to a shade.
use vstd::prelude::*;

verus! {

/// A shade of grey, numbered 0 (white) to 3 (black).
#[derive(Debug, Clone, Copy, PartialEq, Eq, Structural)]
pub enum Color {
    White,
    LightGrey,
    DarkGrey,
    Black,
}

/// The shade with number `value`; values above 2 give black.
pub open spec fn color_of(value: u8) -> Color {
    if value == 0 {
        Color::White
    } else if value == 1 {
        Color::LightGrey
    } else if value == 2 {
        Color::DarkGrey
    } else {
        Color::Black
    }
}

/// The number of a shade.
pub open spec fn color_number(c: Color) -> u8 {
    match c {
        Color::White => 0,
        Color::LightGrey => 1,
        Color::DarkGrey => 2,
        Color::Black => 3,
    }
}

/// The RGB triple a shade is displayed as.
pub open spec fn color_rgb(c: Color) -> (u8, u8, u8) {
    match c {
        Color::White => (255, 255, 255),
        Color::LightGrey => (192, 192, 192),
        Color::DarkGrey => (96, 96, 96),
        Color::Black => (0, 0, 0),
    }
}

impl Color {
    /// The number of this shade, 0 to 3.
    pub fn number(self) -> (r: u8)
        ensures
            r == color_number(self),
    {
        match self {
            Color::White => 0,
            Color::LightGrey => 1,
            Color::DarkGrey => 2,
            Color::Black => 3,
        }
    }

    /// The RGB triple that this shade is displayed as.
    pub fn rgb(self) -> (r: (u8, u8, u8))
        ensures
            r == color_rgb(self),
    {
        match self {
            Color::White => (255, 255, 255),
            Color::LightGrey => (192, 192, 192),
            Color::DarkGrey => (96, 96, 96),
            Color::Black => (0, 0, 0),
        }
    }
}

impl From<u8> for Color {
    fn from(value: u8) -> (r: Color) {
        match value {
            0 => Color::White,
            1 => Color::LightGrey,
            2 => Color::DarkGrey,
            _ => Color::Black,
        }
    }
}

impl vstd::std_specs::convert::FromSpecImpl<u8> for Color {
    open spec fn obeys_from_spec() -> bool {
        true
    }

    open spec fn from_spec(v: u8) -> Color {
        color_of(v)
    }
}

impl From<Color> for (u8, u8, u8) {
    fn from(color: Color) -> (r: (u8, u8, u8)) {
        color.rgb()
    }
}

impl vstd::std_specs::convert::FromSpecImpl<Color> for (u8, u8, u8) {
    open spec fn obeys_from_spec() -> bool {
        true
    }

    open spec fn from_spec(v: Color) -> (u8, u8, u8) {
        color_rgb(v)
    }
}

/// A palette: the shades of color numbers 0, 1, 2 and 3.
#[derive(Copy, Clone, Debug)]
pub struct Palette {
    pub data: [Color; 4],
}

/// The palette that a palette register byte describes: color number `i`
/// takes the shade in bits `2i` and `2i + 1`.
pub open spec fn palette_from_byte(value: u8) -> Seq<Color> {
    seq![
        color_of(value & 3),
        color_of((value >> 2) & 3),
        color_of((value >> 4) & 3),
        color_of((value >> 6) & 3),
    ]
}

/// The palette register byte that four shades are written as.
pub open spec fn palette_to_byte(data: Seq<Color>) -> u8 {
    (color_number(data[0]) + color_number(data[1]) * 4 + color_number(data[2]) * 16 + color_number(
        data[3],
    ) * 64) as u8
}

impl Palette {
    /// The palette that a palette register byte describes.
    pub fn from_byte(value: u8) -> (r: Palette)
        ensures
            r.data@ == palette_from_byte(value),
    {
        let data = [
            Color::from(value & 0b11),
            Color::from((value >> 2) & 0b11),
            Color::from((value >> 4) & 0b11),
            Color::from((value >> 6) & 0b11),
        ];
        assert(data@ =~= palette_from_byte(value));
        Palette { data }
    }

    /// The palette register byte for this palette.
    pub fn to_byte(&self) -> (r: u8)
        ensures
            r == palette_to_byte(self.data@),
    {
        let c0 = self.data[0].number();
        let c1 = self.data[1].number();
        let c2 = self.data[2].number();
        let c3 = self.data[3].number();
        c0 + c1 * 4 + c2 * 16 + c3 * 64
    }

    /// The shade of color number `color`.
    pub fn pixel_color(&self, color: u8) -> (r: Color)
        requires
            color < 4,
        ensures
            r == self.data@[color as int],
    {
        self.data[color as usize]
    }
}

/// The two-bit color number of pixel `pixel_index` (0 is the rightmost) of a
/// tile row stored as two bytes: the low bit from `byte1`, the high from `byte2`.
pub open spec fn color_index_spec(byte1: u8, byte2: u8, pixel_index: u8) -> u8 {
    (((byte2 >> pixel_index) & 1) * 2 + ((byte1 >> pixel_index) & 1)) as u8
}

/// The color number of one pixel of a tile row.
pub fn color_index(byte1: u8, byte2: u8, pixel_index: u8) -> (r: u8)
    requires
        pixel_index < 8,
    ensures
        r == color_index_spec(byte1, byte2, pixel_index),
        r < 4,
{
    let lsb = (byte1 >> pixel_index) & 0b1;
    let msb = ((byte2 >> pixel_index) & 0b1) << 1;
    assert(((byte2 >> pixel_index) & 1) << 1 == ((byte2 >> pixel_index) & 1) * 2
        && ((byte2 >> pixel_index) & 1) <= 1 && ((byte1 >> pixel_index) & 1) <= 1
        && (((byte2 >> pixel_index) & 1) << 1) | ((byte1 >> pixel_index) & 1)
            == ((byte2 >> pixel_index) & 1) * 2 + ((byte1 >> pixel_index) & 1)) by (bit_vector);
    msb | lsb
}

/// Reading back the palette that a byte describes gives the byte again.
pub proof fn lemma_palette_byte_roundtrip(value: u8)
    ensures
        palette_to_byte(palette_from_byte(value)) == value,
{
    let d = palette_from_byte(value);
    assert(forall|c: u8| c < 4 ==> #[trigger] color_number(color_of(c)) == c);
    assert((value & 3) < 4 && ((value >> 2) & 3) < 4 && ((value >> 4) & 3) < 4 && ((value >> 6) & 3) < 4
        && (value & 3) + ((value >> 2) & 3) * 4 + ((value >> 4) & 3) * 16 + ((value >> 6) & 3) * 64
        == value) by (bit_vector);
    assert(color_number(d[0]) == value & 3);
    assert(color_number(d[1]) == (value >> 2) & 3);
    assert(color_number(d[2]) == (value >> 4) & 3);
    assert(color_number(d[3]) == (value >> 6) & 3);
}

/// Describing a palette as a byte and decoding it gives the same four shades.
pub proof fn lemma_palette_shades_roundtrip(data: Seq<Color>)
    requires
        data.len() == 4,
    ensures
        palette_from_byte(palette_to_byte(data)) == data,
{
    let (c0, c1, c2, c3) = (
        color_number(data[0]),
        color_number(data[1]),
        color_number(data[2]),
        color_number(data[3]),
    );
    let v = palette_to_byte(data);
    assert(c0 < 4 && c1 < 4 && c2 < 4 && c3 < 4);
    assert(v == c0 + c1 * 4 + c2 * 16 + c3 * 64);
    assert((c0 < 4 && c1 < 4 && c2 < 4 && c3 < 4 && v == c0 + c1 * 4 + c2 * 16 + c3 * 64) ==> ((v
        & 3) == c0 && ((v >> 2) & 3) == c1 && ((v >> 4) & 3) == c2 && ((v >> 6) & 3) == c3))
        by (bit_vector);
    assert(forall|c: Color| color_of(#[trigger] color_number(c)) == c);
    assert(palette_from_byte(v) =~= data);
}

/// Color number `n` of a palette register takes the shade in bits 2n and
/// 2n + 1 of the byte, and shades 0 to 3 are displayed white, light grey
/// (192), dark grey (96) and black.
pub proof fn lemma_palette_shade(value: u8, n: int)
    requires
        0 <= n < 4,
    ensures
        color_number(palette_from_byte(value)[n]) == (value as int / seq![1int, 4, 16, 64][n]) % 4,
        color_rgb(palette_from_byte(value)[n]) == seq![
            (255u8, 255u8, 255u8),
            (192u8, 192u8, 192u8),
            (96u8, 96u8, 96u8),
            (0u8, 0u8, 0u8),
        ][(value as int / seq![1int, 4, 16, 64][n]) % 4],
{
    assert(value & 3 == value % 4 && (value >> 2) & 3 == (value / 4) % 4 && (value >> 4) & 3 == (value / 16) % 4
        && (value >> 6) & 3 == (value / 64) % 4) by (bit_vector);
    let d = palette_from_byte(value);
    let k = (value as int / seq![1int, 4, 16, 64][n]) % 4;
    assert(forall|c: u8| c < 4 ==> #[trigger] color_number(color_of(c)) == c);
    if n == 0 {
        assert(d[n] == color_of(value % 4));
        assert(seq![1int, 4, 16, 64][n] == 1);
        assert(color_number(color_of(value % 4)) == value % 4);
        assert(value as int / 1 == value as int) by (nonlinear_arith);
        assert(k == value % 4);
    } else if n == 1 {
        assert(d[n] == color_of((value / 4) % 4));
        assert(seq![1int, 4, 16, 64][n] == 4);
        assert(color_number(color_of((value / 4) % 4)) == (value / 4) % 4);
        assert(k == (value / 4) % 4);
    } else if n == 2 {
        assert(d[n] == color_of((value / 16) % 4));
        assert(seq![1int, 4, 16, 64][n] == 16);
        assert(color_number(color_of((value / 16) % 4)) == (value / 16) % 4);
        assert(k == (value / 16) % 4);
    } else {
        assert(d[n] == color_of((value / 64) % 4));
        assert(seq![1int, 4, 16, 64][n] == 64);
        assert(color_number(color_of((value / 64) % 4)) == (value / 64) % 4);
        assert(k == (value / 64) % 4);
    }
    assert(color_number(d[n]) == k);
    assert(0 <= k < 4);
}

} // verus!
