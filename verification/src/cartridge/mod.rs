//! The cartridge: its header and its ROM.
use vstd::prelude::*;
use vstd::slice::slice_subrange;

use crate::mmu::Memory;

pub mod header;

use self::header::Header;

verus! {

/// The header checksum of a ROM image, computed over 0x0134 up to `end`:
/// starting from 0, each byte and one more are subtracted, modulo 256.
pub open spec fn header_checksum_spec(bytes: Seq<u8>, end: int) -> u8
    decreases end,
{
    if end <= 0x0134 {
        0
    } else {
        ((header_checksum_spec(bytes, end - 1) - bytes[end - 1] - 1) % 256) as u8
    }
}

/// The header checksum of a ROM image (over 0x0134-0x014C).
pub fn header_checksum(bytes: &[u8]) -> (r: u8)
    requires
        bytes@.len() >= 0x0150,
    ensures
        r == header_checksum_spec(bytes@, 0x014D),
{
    let mut checksum: u8 = 0;
    for address in 0x0134..0x014Dusize
        invariant
            bytes@.len() >= 0x0150,
            checksum == header_checksum_spec(bytes@, address as int),
    {
        checksum = checksum.wrapping_sub(bytes[address]).wrapping_sub(1)
    }
    checksum
}

/// A ROM-only cartridge: its header, the file it came from, its size and
/// its bytes.
pub struct Cartridge {
    pub header: Header,
    pub filename: String,
    pub rom_size: u32,
    pub buffer: Vec<u8>,
}

impl Cartridge {
    /// An empty 4 KiB ROM.
    pub fn default() -> (r: Cartridge)
        ensures
            r.filename@ == Seq::<char>::empty(),
            r.rom_size == 0,
            r.buffer@ == Seq::new(0x1000, |i: int| 0u8),
    {
        let r = Cartridge { header: Header::default(), filename: String::new(), rom_size: 0, buffer: vec![0; 0x1000] };
        assert(r.buffer@ =~= Seq::new(0x1000, |i: int| 0u8));
        r
    }

    /// The cartridge of a ROM image read from `filename`, with its header.
    pub fn load(filename: &str, buffer: Vec<u8>) -> (r: Cartridge)
        requires
            buffer@.len() >= 0x0150,
            buffer@.len() <= u32::MAX,
        ensures
            r.header.read_from(buffer@),
            r.filename@ == filename@,
            r.rom_size == buffer@.len(),
            r.buffer@ == buffer@,
    {
        let head = slice_subrange(buffer.as_slice(), 0, 0x0150);
        let header = Header::load(head);
        assert(head@.subrange(0x0100, 0x0104) =~= buffer@.subrange(0x0100, 0x0104));
        assert(head@.subrange(0x0104, 0x0134) =~= buffer@.subrange(0x0104, 0x0134));
        assert(head@.subrange(0x0134, 0x0144) =~= buffer@.subrange(0x0134, 0x0144));
        assert(head@.subrange(0x0144, 0x0146) =~= buffer@.subrange(0x0144, 0x0146));
        let rom_size = buffer.len() as u32;
        Cartridge { header, filename: filename.to_owned(), rom_size, buffer }
    }

    /// Whether the header checksum matches the header.
    pub fn checksum_passed(&self) -> (r: bool)
        requires
            self.buffer@.len() >= 0x0150,
        ensures
            r == (header_checksum_spec(self.buffer@, 0x014D) == self.header.checksum),
    {
        header_checksum(self.buffer.as_slice()) == self.header.checksum
    }
}

impl Memory for Cartridge {
    /// The ROM's bytes; writes change nothing.
    open spec fn contents(&self) -> Map<u16, u8> {
        Map::new(|a: u16| a < self.buffer@.len(), |a: u16| self.buffer@[a as int])
    }

    open spec fn write_spec(contents: Map<u16, u8>, address: u16, data: u8) -> Map<u16, u8> {
        contents
    }

    fn mem_read(&self, address: u16) -> (r: u8) {
        proof {
            assert(self.contents().dom() =~= Set::new(|a: u16| a < self.buffer@.len()));
        }
        self.buffer[address as usize]
    }

    fn mem_write(&mut self, address: u16, data: u8)
        ensures
            *final(self) == *old(self),
    {
    }
}

} // verus!
