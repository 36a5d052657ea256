//! The cartridge header at 0x0100-0x014F of the ROM.
use vstd::prelude::*;
use vstd::slice::slice_subrange;
use vstd::string::StringSliceAdditionalSpecFns;
use vstd::utf8::{decode_utf8, valid_utf8};

use crate::GbMode;

verus! {

/// The fields of the cartridge header.
pub struct Header {
    pub entry: [u8; 4],
    pub logo: [u8; 48],
    pub title: String,
    pub cgb_flag: u8,
    pub new_licensee_code: [u8; 2],
    pub sgb_flag: u8,
    pub cartridge_type: u8,
    pub rom_size: u8,
    pub ram_size: u8,
    pub destination_code: u8,
    pub old_licensee_code: u8,
    pub version: u8,
    pub checksum: u8,
    pub global_checksum: u16,
}

/// `std::str::from_utf8`: the bytes read as text, when they are valid
/// UTF-8, and then the text is exactly those bytes; no text otherwise.
#[verifier::external_body]
fn str_from_utf8(bytes: &[u8]) -> (r: Option<&str>)
    ensures
        r is Some <==> valid_utf8(bytes@),
        r matches Some(s) ==> s.spec_bytes() == bytes@,
{
    std::str::from_utf8(bytes).ok()
}

/// The title that the title bytes give: their text when they are valid
/// UTF-8, else "NO NAME".
pub open spec fn title_of(bytes: Seq<u8>) -> Seq<char> {
    if valid_utf8(bytes) {
        decode_utf8(bytes)
    } else {
        seq!['N', 'O', ' ', 'N', 'A', 'M', 'E']
    }
}

/// The title a decoding gives: the text, or "NO NAME" when there is none.
pub fn title_or_default(decoded: Option<&str>) -> (r: String)
    ensures
        r@ == (match decoded {
            Some(s) => s@,
            None => seq!['N', 'O', ' ', 'N', 'A', 'M', 'E'],
        }),
{
    let s = match decoded {
        Some(s) => s,
        None => "NO NAME",
    };
    proof {
        reveal_strlit("NO NAME");
    }
    s.to_owned()
}

/// The number of 16 KiB ROM banks of a ROM size code: 2 << code for codes
/// up to 8, else 0.
pub open spec fn rom_banks_spec(rom_size: u8) -> int {
    if rom_size <= 8 {
        2 * vstd::arithmetic::power2::pow2(rom_size as nat) as int
    } else {
        0
    }
}

/// The number of 8 KiB RAM banks of a RAM size code.
pub open spec fn ram_banks_spec(ram_size: u8) -> int {
    if ram_size == 1 || ram_size == 2 {
        1
    } else if ram_size == 3 {
        4
    } else if ram_size == 4 {
        16
    } else if ram_size == 5 {
        8
    } else {
        0
    }
}

impl Header {
    /// An empty header.
    pub fn default() -> (r: Header)
        ensures
            r.title@ == Seq::<char>::empty(),
            r.cgb_flag == 0,
            r.cartridge_type == 0,
            r.rom_size == 0,
            r.ram_size == 0,
            r.checksum == 0,
            r.global_checksum == 0,
    {
        Header {
            entry: [0; 4],
            logo: [0; 48],
            title: String::new(),
            cgb_flag: 0,
            new_licensee_code: [0; 2],
            sgb_flag: 0,
            cartridge_type: 0,
            rom_size: 0,
            ram_size: 0,
            destination_code: 0,
            old_licensee_code: 0,
            version: 0,
            checksum: 0,
            global_checksum: 0,
        }
    }

    /// Reads the header from a ROM image: each field from its bytes, the
    /// title from 0x0134-0x0143, and the global checksum big-endian.
    /// Whether every field is the one that `load` reads from `bytes`.
    pub open spec fn read_from(self, bytes: Seq<u8>) -> bool {
        &&& self.entry@ == bytes.subrange(0x0100, 0x0104)
        &&& self.logo@ == bytes.subrange(0x0104, 0x0134)
        &&& self.title@ == title_of(bytes.subrange(0x0134, 0x0144))
        &&& self.cgb_flag == bytes[0x0143]
        &&& self.new_licensee_code@ == bytes.subrange(0x0144, 0x0146)
        &&& self.sgb_flag == bytes[0x0146]
        &&& self.cartridge_type == bytes[0x0147]
        &&& self.rom_size == bytes[0x0148]
        &&& self.ram_size == bytes[0x0149]
        &&& self.destination_code == bytes[0x014A]
        &&& self.old_licensee_code == bytes[0x014B]
        &&& self.version == bytes[0x014C]
        &&& self.checksum == bytes[0x014D]
        &&& self.global_checksum == bytes[0x014E] * 256 + bytes[0x014F]
    }

    pub fn load(bytes: &[u8]) -> (r: Header)
        requires
            bytes@.len() >= 0x0150,
        ensures
            r.read_from(bytes@),
            r.entry@ == bytes@.subrange(0x0100, 0x0104),
            r.logo@ == bytes@.subrange(0x0104, 0x0134),
            r.title@ == title_of(bytes@.subrange(0x0134, 0x0144)),
            r.cgb_flag == bytes@[0x0143],
            r.new_licensee_code@ == bytes@.subrange(0x0144, 0x0146),
            r.sgb_flag == bytes@[0x0146],
            r.cartridge_type == bytes@[0x0147],
            r.rom_size == bytes@[0x0148],
            r.ram_size == bytes@[0x0149],
            r.destination_code == bytes@[0x014A],
            r.old_licensee_code == bytes@[0x014B],
            r.version == bytes@[0x014C],
            r.checksum == bytes@[0x014D],
            r.global_checksum == bytes@[0x014E] * 256 + bytes@[0x014F],
    {
        let entry = [bytes[0x0100], bytes[0x0101], bytes[0x0102], bytes[0x0103]];
        let mut logo = [0u8; 48];
        for i in 0..48usize
            invariant
                bytes@.len() >= 0x0150,
                logo@.len() == 48,
                forall|j: int| 0 <= j < i ==> logo@[j] == bytes@[0x0104 + j],
        {
            logo[i] = bytes[0x0104 + i];
        }
        let title_bytes = slice_subrange(bytes, 0x0134, 0x0144);
        let decoded = str_from_utf8(title_bytes);
        proof {
            if let Some(s) = decoded {
                vstd::utf8::encode_utf8_decode_utf8(s@);
            }
        }
        let title = title_or_default(decoded);
        proof {
            crate::bits::lemma_word_join(bytes@[0x014E], bytes@[0x014F]);
        }
        let r = Header {
            entry,
            logo,
            title,
            cgb_flag: bytes[0x0143],
            new_licensee_code: [bytes[0x0144], bytes[0x0145]],
            sgb_flag: bytes[0x0146],
            cartridge_type: bytes[0x0147],
            rom_size: bytes[0x0148],
            ram_size: bytes[0x0149],
            destination_code: bytes[0x014A],
            old_licensee_code: bytes[0x014B],
            version: bytes[0x014C],
            checksum: bytes[0x014D],
            global_checksum: (bytes[0x014E] as u16) << 8 | bytes[0x014F] as u16,
        };
        assert(r.entry@ =~= bytes@.subrange(0x0100, 0x0104));
        assert(r.logo@ =~= bytes@.subrange(0x0104, 0x0134));
        assert(r.new_licensee_code@ =~= bytes@.subrange(0x0144, 0x0146));
        r
    }

    pub fn title(&self) -> (r: &str)
        ensures
            r@ == self.title@,
    {
        self.title.as_str()
    }

    /// The hardware the cartridge is made for: the Color model for a CGB
    /// flag of 0xC0, else the DMG.
    pub fn mode(&self) -> (r: GbMode)
        ensures
            r == (if self.cgb_flag == 0xC0 { GbMode::Color } else { GbMode::Monochrome }),
    {
        match self.cgb_flag {
            0xC0 => GbMode::Color,
            _ => GbMode::Monochrome,
        }
    }

    /// The number of ROM banks (see `rom_banks_spec`).
    pub fn rom_banks(&self) -> (r: usize)
        ensures
            r == rom_banks_spec(self.rom_size),
    {
        if self.rom_size <= 8 {
            proof {
                vstd::arithmetic::power2::lemma2_to64();
                vstd::bits::lemma_usize_shl_is_mul(2, self.rom_size as usize);
            }
            2usize << (self.rom_size as usize)
        } else {
            0
        }
    }

    /// The number of RAM banks (see `ram_banks_spec`).
    pub fn ram_banks(&self) -> (r: usize)
        ensures
            r == ram_banks_spec(self.ram_size),
    {
        match self.ram_size {
            0x1 | 0x2 => 1,
            0x3 => 4,
            0x4 => 16,
            0x5 => 8,
            _ => 0,
        }
    }

    /// Whether the cartridge type has RAM.
    pub fn has_ram(&self) -> (r: bool)
        ensures
            r == (self.cartridge_type == 0x02 || self.cartridge_type == 0x03 || self.cartridge_type == 0x0F
                || self.cartridge_type == 0x10 || self.cartridge_type == 0x12 || self.cartridge_type == 0x13
                || self.cartridge_type == 0x1A || self.cartridge_type == 0x1B || self.cartridge_type == 0x1D
                || self.cartridge_type == 0x1E),
    {
        match self.cartridge_type {
            0x02 | 0x03 | 0x0F | 0x10 | 0x12 | 0x13 | 0x1A | 0x1B | 0x1D | 0x1E => true,
            _ => false,
        }
    }

    /// Whether the cartridge type has a battery.
    pub fn has_battery(&self) -> (r: bool)
        ensures
            r == (self.cartridge_type == 0x03 || self.cartridge_type == 0x06 || self.cartridge_type == 0x0F
                || self.cartridge_type == 0x10 || self.cartridge_type == 0x13 || self.cartridge_type == 0x1B
                || self.cartridge_type == 0x1E),
    {
        match self.cartridge_type {
            0x03 | 0x06 | 0x0F | 0x10 | 0x13 | 0x1B | 0x1E => true,
            _ => false,
        }
    }

    /// Whether the cartridge type has a real-time clock.
    pub fn has_real_time_clock(&self) -> (r: bool)
        ensures
            r == (self.cartridge_type == 0x0F || self.cartridge_type == 0x10),
    {
        match self.cartridge_type {
            0x0F | 0x10 => true,
            _ => false,
        }
    }
}

} // verus!
