//! The cartridge-and-RAM memory bus: the cartridge, banked work RAM with
//! its echo, and high RAM.
use vstd::prelude::*;
use vstd::array::spec_array_update;

use crate::cartridge::Cartridge;
use crate::mmu::Memory;
use crate::GbSpeed;

verus! {

/// Bytes of work RAM (eight 4 KiB banks).
pub const WRAM_SIZE: usize = 0x8000;

/// Bytes of high RAM.
pub const HRAM_SIZE: usize = 0x007F;

/// Whether an address is in the fixed work RAM bank or its echo.
pub open spec fn in_wram_fixed(a: u16) -> bool {
    (0xC000 <= a <= 0xCFFF) || (0xE000 <= a <= 0xEFFF)
}

/// Whether an address is in the switchable work RAM bank or its echo.
pub open spec fn in_wram_banked(a: u16) -> bool {
    (0xD000 <= a <= 0xDFFF) || (0xF000 <= a <= 0xFDFF)
}

/// Whether an address is in high RAM.
pub open spec fn in_hram(a: u16) -> bool {
    0xFF80 <= a <= 0xFFFE
}

/// Whether an address reaches the cartridge (ROM and external RAM).
pub open spec fn in_cartridge(a: u16) -> bool {
    a <= 0x7FFF || (0xA000 <= a <= 0xBFFF)
}

/// The RAM cell an address reaches, the same for an address and its echo;
/// -1 for an address outside RAM.
pub open spec fn ram_cell(a: u16) -> int {
    if in_wram_fixed(a) {
        (a % 0x1000) as int
    } else if in_wram_banked(a) {
        0x1000 + a % 0x1000
    } else if in_hram(a) {
        0x2000 + a - 0xFF80
    } else {
        -1
    }
}

/// The memory bus. `wram_bank` (1 to 7) is the bank at 0xD000.
pub struct Bus {
    pub cartridge: Cartridge,
    pub wram: [u8; WRAM_SIZE],
    pub hram: [u8; HRAM_SIZE],
    pub wram_bank: usize,
    pub speed: GbSpeed,
    pub speed_change_requested: bool,
}

proof fn lemma_wram_index(a: u16, bank: usize)
    by (bit_vector)
    requires
        1 <= bank <= 7,
    ensures
        (a as usize) & 0x0FFF == (a % 0x1000) as usize,
        ((bank * 0x1000) as usize) | ((a as usize) & 0x0FFF) == (bank * 0x1000 + (a % 0x1000)) as usize,
        (a as usize) & 0x007F == (a % 0x80) as usize,
{
}

impl Bus {
    /// The bus's invariant: full work and high RAM, and a switchable bank
    /// from 1 to 7.
    pub open spec fn wf(self) -> bool {
        &&& self.wram@.len() == WRAM_SIZE
        &&& self.hram@.len() == HRAM_SIZE
        &&& 1 <= self.wram_bank <= 7
    }

    /// Whether the bus serves reads and writes at `a`: the cartridge's
    /// bytes, work RAM and its echo, and high RAM (video RAM, OAM, the I/O
    /// registers and IE are not there).
    pub open spec fn serves(self, a: u16) -> bool {
        (in_cartridge(a) && a < self.cartridge.buffer@.len()) || in_wram_fixed(a) || in_wram_banked(a) || in_hram(a)
    }

    /// The byte at a served address.
    pub open spec fn byte(self, a: u16) -> u8 {
        if in_cartridge(a) {
            self.cartridge.buffer@[a as int]
        } else if in_wram_fixed(a) {
            self.wram@[(a % 0x1000) as int]
        } else if in_wram_banked(a) {
            self.wram@[self.wram_bank * 0x1000 + a % 0x1000]
        } else {
            self.hram@[(a % 0x80) as int]
        }
    }

    /// A bus over `cartridge` with cleared RAM, bank 1 and normal speed.
    pub fn new(cartridge: Cartridge) -> (r: Bus)
        ensures
            r.wf(),
            r.cartridge == cartridge,
            r.wram_bank == 1,
            r.speed == GbSpeed::Normal,
            !r.speed_change_requested,
            forall|a: u16| r.serves(a) && !in_cartridge(a) ==> r.byte(a) == 0,
    {
        Bus {
            cartridge,
            wram: [0; WRAM_SIZE],
            hram: [0; HRAM_SIZE],
            wram_bank: 1,
            speed: GbSpeed::Normal,
            speed_change_requested: false,
        }
    }

    /// The bus after a write of `data` at a served address: the RAM cell of
    /// the address takes it; the cartridge ignores writes.
    pub open spec fn written(self, a: u16, data: u8) -> Bus {
        if in_cartridge(a) {
            self
        } else if in_wram_fixed(a) {
            Bus { wram: spec_array_update(self.wram, (a % 0x1000) as int, data), ..self }
        } else if in_wram_banked(a) {
            Bus { wram: spec_array_update(self.wram, self.wram_bank * 0x1000 + a % 0x1000, data), ..self }
        } else {
            Bus { hram: spec_array_update(self.hram, (a % 0x80) as int, data), ..self }
        }
    }

    /// Completes a requested speed switch, and clears the request.
    pub fn change_speed(&mut self)
        ensures
            final(self).speed == (if old(self).speed_change_requested {
                match old(self).speed {
                    GbSpeed::Normal => GbSpeed::Double,
                    GbSpeed::Double => GbSpeed::Normal,
                }
            } else {
                old(self).speed
            }),
            !final(self).speed_change_requested,
            final(self).wram == old(self).wram,
            final(self).hram == old(self).hram,
            final(self).wram_bank == old(self).wram_bank,
            final(self).cartridge == old(self).cartridge,
    {
        if self.speed_change_requested {
            self.speed = match self.speed {
                GbSpeed::Normal => GbSpeed::Double,
                GbSpeed::Double => GbSpeed::Normal,
            }
        }
        self.speed_change_requested = false;
    }

    /// Decides the hardware mode; nothing to do yet.
    pub fn determine_mode(&mut self)
        ensures
            *final(self) == *old(self),
    {
    }
}

impl Memory for Bus {
    open spec fn contents(&self) -> Map<u16, u8> {
        Map::new(|a: u16| self.wf() && self.serves(a), |a: u16| self.byte(a))
    }

    /// A write reaches the RAM cell of its address, seen at the address and
    /// its echo; the cartridge ignores writes.
    open spec fn write_spec(contents: Map<u16, u8>, address: u16, data: u8) -> Map<u16, u8> {
        Map::new(
            |b: u16| contents.contains_key(b),
            |b: u16|
                if ram_cell(address) >= 0 && ram_cell(b) == ram_cell(address) {
                    data
                } else {
                    contents[b]
                },
        )
    }

    fn mem_read(&self, address: u16) -> (r: u8) {
        proof {
            lemma_wram_index(address, self.wram_bank);
        }
        match address {
            0x0000..=0x7FFF => self.cartridge.mem_read(address),
            0xA000..=0xBFFF => self.cartridge.mem_read(address),
            0xC000..=0xCFFF | 0xE000..=0xEFFF => self.wram[address as usize & 0x0FFF],
            0xD000..=0xDFFF | 0xF000..=0xFDFF => self.wram[(self.wram_bank * 0x1000) | address as usize & 0x0FFF],
            _ => self.hram[address as usize & 0x007F],
        }
    }

    fn mem_write(&mut self, address: u16, data: u8)
        ensures
            *final(self) == old(self).written(address, data),
    {
        proof {
            lemma_wram_index(address, self.wram_bank);
        }
        match address {
            0x0000..=0x7FFF => self.cartridge.mem_write(address, data),
            0xA000..=0xBFFF => self.cartridge.mem_write(address, data),
            0xC000..=0xCFFF | 0xE000..=0xEFFF => self.wram[address as usize & 0x0FFF] = data,
            0xD000..=0xDFFF | 0xF000..=0xFDFF => self.wram[(self.wram_bank * 0x1000) | address as usize & 0x0FFF] = data,
            _ => self.hram[address as usize & 0x007F] = data,
        }
        assert(self.contents() =~= Self::write_spec(old(self).contents(), address, data));
        assert(self.wram =~= old(self).written(address, data).wram);
        assert(self.hram =~= old(self).written(address, data).hram);
    }
}

/// Echo RAM: 0xE000-0xFDFF reads what 0xC000-0xDDFF holds.
pub proof fn lemma_echo_ram(bus: Bus, offset: u16)
    requires
        bus.wf(),
        offset < 0x1E00,
    ensures
        bus.contents().contains_key((0xE000 + offset) as u16),
        bus.contents().contains_key((0xC000 + offset) as u16),
        bus.contents()[(0xE000 + offset) as u16] == bus.contents()[(0xC000 + offset) as u16],
{
}

/// A read of RAM gives back the last byte written there, or at its echo.
pub proof fn lemma_bus_read_after_write(m: Map<u16, u8>, address: u16, other: u16, data: u8)
    requires
        ram_cell(address) >= 0,
        m.contains_key(other),
        ram_cell(other) == ram_cell(address),
    ensures
        <Bus as Memory>::write_spec(m, address, data)[other] == data,
{
}

} // verus!
