//! Facts about the bits of a byte, shared by the register encodings.
use vstd::prelude::*;

verus! {

/// Eight single-bit parts, each either zero or its own bit, sum to a byte whose
/// bits are exactly those parts.
pub proof fn lemma_disjoint_bits(x7: u8, x6: u8, x5: u8, x4: u8, x3: u8, x2: u8, x1: u8, x0: u8)
    by (bit_vector)
    requires
        x7 == 0 || x7 == 0x80,
        x6 == 0 || x6 == 0x40,
        x5 == 0 || x5 == 0x20,
        x4 == 0 || x4 == 0x10,
        x3 == 0 || x3 == 0x08,
        x2 == 0 || x2 == 0x04,
        x1 == 0 || x1 == 0x02,
        x0 == 0 || x0 == 0x01,
    ensures
        ((x7 + x6 + x5 + x4 + x3 + x2 + x1 + x0) as u8) & 0x80 == x7,
        ((x7 + x6 + x5 + x4 + x3 + x2 + x1 + x0) as u8) & 0x40 == x6,
        ((x7 + x6 + x5 + x4 + x3 + x2 + x1 + x0) as u8) & 0x20 == x5,
        ((x7 + x6 + x5 + x4 + x3 + x2 + x1 + x0) as u8) & 0x10 == x4,
        ((x7 + x6 + x5 + x4 + x3 + x2 + x1 + x0) as u8) & 0x08 == x3,
        ((x7 + x6 + x5 + x4 + x3 + x2 + x1 + x0) as u8) & 0x04 == x2,
        ((x7 + x6 + x5 + x4 + x3 + x2 + x1 + x0) as u8) & 0x02 == x1,
        ((x7 + x6 + x5 + x4 + x3 + x2 + x1 + x0) as u8) & 0x01 == x0,
        ((x7 + x6 + x5 + x4 + x3 + x2 + x1 + x0) as u8) & 0x03 == x1 + x0,
        ((x7 + x6 + x5 + x4 + x3 + x2 + x1 + x0) as u8) & 0x7F == x6 + x5 + x4 + x3 + x2 + x1 + x0,
{
}

/// A byte is the sum of its eight bits, each of which is zero or itself.
pub proof fn lemma_byte_split(v: u8)
    by (bit_vector)
    ensures
        v & 0x80 == 0 || v & 0x80 == 0x80,
        v & 0x40 == 0 || v & 0x40 == 0x40,
        v & 0x20 == 0 || v & 0x20 == 0x20,
        v & 0x10 == 0 || v & 0x10 == 0x10,
        v & 0x08 == 0 || v & 0x08 == 0x08,
        v & 0x04 == 0 || v & 0x04 == 0x04,
        v & 0x02 == 0 || v & 0x02 == 0x02,
        v & 0x01 == 0 || v & 0x01 == 0x01,
        v == (v & 0x80) + (v & 0x40) + (v & 0x20) + (v & 0x10) + (v & 0x08) + (v & 0x04) + (v & 0x02) + (v & 0x01),
        v & 0x03 == (v & 0x02) + (v & 0x01),
        v & 0x07 == (v & 0x04) + (v & 0x02) + (v & 0x01),
        v & 0xFE == v - (v & 0x01),
        v & 0xFF == v,
        v & 0x03 < 4,
{
}

/// The bit fields of a byte as arithmetic: masks of low bits are remainders
/// and right shifts are quotients.
pub proof fn lemma_byte_fields(v: u8)
    by (bit_vector)
    ensures
        v & 0x01 == v % 2,
        v & 0x03 == v % 4,
        v & 0x07 == v % 8,
        v & 0x0F == v % 16,
        v & 0x1F == v % 32,
        v & 0x3F == v % 64,
        v & 0x7F == v % 128,
        v >> 1 == v / 2,
        v >> 2 == v / 4,
        v >> 3 == v / 8,
        v >> 4 == v / 16,
        v >> 5 == v / 32,
        v >> 6 == v / 64,
        v >> 7 == v / 128,
        v & 0xF0 == v / 16 * 16,
        v & 0xF8 == v / 8 * 8,
        v & 0x70 == v / 16 % 8 * 16,
        v & 0x30 == v / 16 % 4 * 16,
        v & 0xCF == v - v / 16 % 4 * 16,
        v & 0x38 == v / 8 % 8 * 8,
        v & 0x18 == v / 8 % 4 * 8,
        v & 0xC0 == v / 64 * 64,
{
}

/// Two bytes joined into a little-endian word.
pub proof fn lemma_word_join(hi: u8, lo: u8)
    by (bit_vector)
    ensures
        ((hi as u16) << 8u16 | (lo as u16)) == hi * 256 + lo,
        0xFF00u16 | (lo as u16) == 0xFF00 + lo,
{
}

/// A word split into its low and high bytes.
pub proof fn lemma_word_split(w: u16)
    by (bit_vector)
    ensures
        w & 0xFF == w % 256,
        w >> 8u16 == w / 256,
        w / 256 < 256,
{
}

} // verus!

verus! {

/// Or-ing with zero, and shifting zero, change nothing.
pub proof fn lemma_or_zero(x: u8)
    by (bit_vector)
    ensures
        x | 0 == x,
        (0u8 << 2u8) == 0u8,
{
}

} // verus!
