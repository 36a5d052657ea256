//! DMA: the OAM transfer (a byte per M-cycle into sprite memory) and the
//! Color model's VRAM transfer (general purpose, or 16 bytes per H-blank).
use vstd::prelude::*;

use crate::memory::SystemMemoryAccess;
use crate::ppu::registers::PpuMode;
use crate::ppu::{Ppu, PpuView};
use crate::{t_cycles, t_cycles_spec, GbSpeed};

verus! {

/// T-cycles that an OAM transfer takes.
pub const OAM_DMA_T_CYCLES: u16 = 640;

/// Bytes a VRAM transfer moves per block.
pub const VRAM_DMA_BLOCK_SIZE: u8 = 16;

/// The state of the VRAM transfer.
#[derive(Debug, Clone, Copy, PartialEq, Eq, Structural)]
pub enum VramDmaMode {
    Stopped,
    HdmaPending,
    HdmaActive,
    GdmaActive,
}

/// The two DMA units. `speed` is the CPU speed, which decides how many
/// T-cycles an M-cycle takes.
#[derive(Debug, Clone, Copy, PartialEq, Eq, Structural)]
pub struct Dma {
    pub oam_dma_source_address: u16,
    pub oam_dma_pending: bool,
    pub oam_dma_active: bool,
    pub oam_dma_cycles: u16,
    pub vram_dma_mode: VramDmaMode,
    pub vram_dma_source_address: u16,
    pub vram_dma_destination_address: u16,
    pub vram_dma_length: u8,
    pub vram_bytes_transferred: u8,
    pub speed: GbSpeed,
}

/// The byte an OAM transfer reads at `address`: from the cartridge (ROM and
/// external RAM), video RAM or work RAM; 0xFF above work RAM.
pub open spec fn oam_source_byte<C: SystemMemoryAccess, M: SystemMemoryAccess>(
    address: u16,
    cartridge: C,
    memory: M,
    ppu: PpuView,
) -> u8 {
    if address <= 0x7FFF {
        cartridge.byte_at(address)
    } else if address <= 0x9FFF {
        ppu.read(address)
    } else if address <= 0xBFFF {
        cartridge.byte_at(address)
    } else if address <= 0xDFFF {
        memory.byte_at(address)
    } else {
        0xFF
    }
}

/// The byte a VRAM transfer reads at `address`: from the cartridge or work
/// RAM; 0xFF from video RAM and above work RAM.
pub open spec fn vram_source_byte<C: SystemMemoryAccess, M: SystemMemoryAccess>(
    address: u16,
    cartridge: C,
    memory: M,
) -> u8 {
    if address <= 0x7FFF || (0xA000 <= address <= 0xBFFF) {
        cartridge.byte_at(address)
    } else if 0xC000 <= address <= 0xDFFF {
        memory.byte_at(address)
    } else {
        0xFF
    }
}

impl Dma {
    /// The invariant: an active VRAM transfer has blocks left, and it moves
    /// bytes in pairs within a block.
    pub open spec fn wf(self) -> bool {
        &&& self.vram_dma_mode != VramDmaMode::Stopped ==> self.vram_dma_length >= 1
        &&& self.vram_bytes_transferred < VRAM_DMA_BLOCK_SIZE
        &&& self.vram_bytes_transferred % 2 == 0
    }

    /// Whether the next M-cycle of an OAM transfer stays within sprite
    /// memory and the address space, and has the T-cycles it counts down.
    pub open spec fn oam_step_in_range(self) -> bool {
        !self.oam_dma_pending && self.oam_dma_cycles != 0 ==> {
            &&& self.oam_dma_source_address % 256 < 0xA0
            &&& self.oam_dma_source_address < 0xFFFF
            &&& self.oam_dma_cycles >= t_cycles_spec(self.speed)
        }
    }

    /// The DMA and the PPU after one M-cycle of the OAM transfer. A pending
    /// transfer starts (640 T-cycles); a running one copies the byte at its
    /// source to the same offset in sprite memory and moves on.
    pub open spec fn oam_cycled<C: SystemMemoryAccess, M: SystemMemoryAccess>(
        self,
        cartridge: C,
        memory: M,
        ppu: PpuView,
    ) -> (Dma, PpuView) {
        if self.oam_dma_pending {
            (Dma { oam_dma_cycles: OAM_DMA_T_CYCLES, oam_dma_pending: false, ..self }, ppu)
        } else if self.oam_dma_cycles == 0 {
            (Dma { oam_dma_active: false, ..self }, ppu)
        } else {
            let src = self.oam_dma_source_address;
            let byte = oam_source_byte(src, cartridge, memory, ppu);
            (
                Dma {
                    oam_dma_active: true,
                    oam_dma_source_address: (src + 1) as u16,
                    oam_dma_cycles: (self.oam_dma_cycles - t_cycles_spec(self.speed)) as u16,
                    ..self
                },
                ppu.write((0xFE00 + src % 256) as u16, byte),
            )
        }
    }

    /// The DMA and the PPU after one byte of the VRAM transfer is copied to
    /// video RAM.
    pub open spec fn vram_byte_copied<C: SystemMemoryAccess, M: SystemMemoryAccess>(
        self,
        cartridge: C,
        memory: M,
        ppu: PpuView,
    ) -> (Dma, PpuView) {
        let src = self.vram_dma_source_address;
        let dst = self.vram_dma_destination_address;
        (
            Dma {
                vram_dma_source_address: ((src + 1) % 65536) as u16,
                vram_dma_destination_address: ((dst + 1) % 65536) as u16,
                vram_bytes_transferred: (self.vram_bytes_transferred + 1) as u8,
                ..self
            },
            ppu.write((0x8000 + dst % 0x2000) as u16, vram_source_byte(src, cartridge, memory)),
        )
    }

    /// The DMA and the PPU after one M-cycle of the VRAM transfer: a pending
    /// H-blank transfer starts in H-blank while the CPU runs; a running one
    /// copies two bytes, ends a block of 16 (an H-blank transfer then waits
    /// for the next H-blank), and stops after its last block or when the
    /// destination wraps to 0.
    pub open spec fn vram_cycled<C: SystemMemoryAccess, M: SystemMemoryAccess>(
        self,
        cartridge: C,
        memory: M,
        ppu: PpuView,
        cpu_halted: bool,
    ) -> (Dma, PpuView) {
        if self.vram_dma_mode == VramDmaMode::Stopped {
            (self, ppu)
        } else if self.vram_dma_mode == VramDmaMode::HdmaPending && (cpu_halted || ppu.mode != PpuMode::HBlank) {
            (self, ppu)
        } else {
            let d0 = if self.vram_dma_mode == VramDmaMode::HdmaPending {
                Dma { vram_dma_mode: VramDmaMode::HdmaActive, ..self }
            } else {
                self
            };
            let (d1, p1) = d0.vram_byte_copied(cartridge, memory, ppu);
            let (d2, p2) = d1.vram_byte_copied(cartridge, memory, p1);
            let d3 = if d2.vram_bytes_transferred == VRAM_DMA_BLOCK_SIZE {
                Dma {
                    vram_dma_length: (d2.vram_dma_length - 1) as u8,
                    vram_bytes_transferred: 0,
                    vram_dma_mode: if d2.vram_dma_mode == VramDmaMode::HdmaActive {
                        VramDmaMode::HdmaPending
                    } else {
                        d2.vram_dma_mode
                    },
                    ..d2
                }
            } else {
                d2
            };
            if d3.vram_dma_length == 0 || d3.vram_dma_destination_address == 0 {
                (Dma { vram_dma_mode: VramDmaMode::Stopped, ..d3 }, p2)
            } else {
                (d3, p2)
            }
        }
    }

    /// The DMA after a write of `value` to one of its registers.
    pub open spec fn written(self, address: u16, value: u8) -> Dma {
        if address == 0xFF46 {
            Dma { oam_dma_source_address: (value * 256) as u16, oam_dma_pending: true, ..self }
        } else if address == 0xFF51 {
            Dma { vram_dma_source_address: (self.vram_dma_source_address % 256 + value * 256) as u16, ..self }
        } else if address == 0xFF52 {
            Dma {
                vram_dma_source_address: (self.vram_dma_source_address / 256 * 256 + value / 16 * 16) as u16,
                ..self
            }
        } else if address == 0xFF53 {
            Dma {
                vram_dma_destination_address: (self.vram_dma_destination_address % 256 + value % 32 * 256) as u16,
                ..self
            }
        } else if address == 0xFF54 {
            Dma {
                vram_dma_destination_address: (self.vram_dma_destination_address / 256 * 256 + value / 16 * 16) as u16,
                ..self
            }
        } else {
            if self.vram_dma_mode == VramDmaMode::Stopped {
                Dma {
                    vram_dma_mode: if value >= 0x80 { VramDmaMode::HdmaPending } else { VramDmaMode::GdmaActive },
                    vram_dma_length: (value % 128 + 1) as u8,
                    ..self
                }
            } else if value < 0x80 {
                Dma { vram_dma_mode: VramDmaMode::Stopped, ..self }
            } else {
                self
            }
        }
    }

    /// Both units idle; the OAM source reads as 0xFF.
    pub fn new(speed: GbSpeed) -> (r: Dma)
        ensures
            r.wf(),
            r == (Dma {
                oam_dma_source_address: 0xFF00,
                oam_dma_pending: false,
                oam_dma_active: false,
                oam_dma_cycles: 0,
                vram_dma_mode: VramDmaMode::Stopped,
                vram_dma_source_address: 0,
                vram_dma_destination_address: 0,
                vram_dma_length: 0xFF,
                vram_bytes_transferred: 0,
                speed,
            }),
    {
        Self {
            oam_dma_source_address: 0xFF00,
            oam_dma_pending: false,
            oam_dma_active: false,
            oam_dma_cycles: 0,
            vram_dma_source_address: 0,
            vram_dma_destination_address: 0,
            vram_dma_mode: VramDmaMode::Stopped,
            vram_dma_length: 0xFF,
            vram_bytes_transferred: 0,
            speed,
        }
    }

    pub fn oam_dma_active(&self) -> (r: bool)
        ensures
            r == self.oam_dma_active,
    {
        self.oam_dma_active
    }

    /// Reads a DMA register: the OAM source page, the VRAM transfer's
    /// registers (write-only, 0xFF) and its status (bit 7 set when stopped,
    /// then the blocks left).
    pub fn read_8(&self, address: u16) -> (r: u8)
        requires
            address == 0xFF46 || (0xFF51 <= address <= 0xFF55),
        ensures
            r == (if address == 0xFF46 {
                (self.oam_dma_source_address / 256) as u8
            } else if address == 0xFF55 {
                (if self.vram_dma_mode == VramDmaMode::Stopped { 0x80u8 } else { 0u8 }) | self.vram_dma_length
            } else {
                0xFF
            }),
    {
        proof {
            crate::bits::lemma_word_split(self.oam_dma_source_address);
        }
        match address {
            0xFF46 => (self.oam_dma_source_address >> 8) as u8,
            0xFF51..=0xFF54 => 0xFF,
            _ => {
                let stopped: u8 = if self.vram_dma_mode == VramDmaMode::Stopped { 0x80 } else { 0 };
                stopped | self.vram_dma_length
            },
        }
    }

    /// Writes a DMA register (see `written`). A general purpose transfer
    /// cannot be cancelled.
    pub fn write_8(&mut self, address: u16, value: u8)
        requires
            old(self).wf(),
            address == 0xFF46 || (0xFF51 <= address <= 0xFF55),
            address == 0xFF55 ==> old(self).vram_dma_mode != VramDmaMode::GdmaActive,
        ensures
            final(self).wf(),
            *final(self) == old(self).written(address, value),
    {
        proof {
            crate::bits::lemma_byte_fields(value);
            crate::cpu::alu::lemma_shift_facts(value);
            crate::bits::lemma_word_split(self.vram_dma_source_address);
            crate::bits::lemma_word_split(self.vram_dma_destination_address);
            lemma_register_bits(self.vram_dma_source_address, value);
            lemma_register_bits(self.vram_dma_destination_address, value);
        }
        match address {
            0xFF46 => {
                self.oam_dma_source_address = (value as u16) << 8u16;
                self.oam_dma_pending = true;
            },
            0xFF51 => self.vram_dma_source_address = (self.vram_dma_source_address & 0x00FF) | (value as u16) << 8u16,
            0xFF52 => self.vram_dma_source_address = (self.vram_dma_source_address & 0xFF00) | (value & 0xF0) as u16,
            0xFF53 => self.vram_dma_destination_address = (self.vram_dma_destination_address & 0x00FF) | ((value
                & 0x1F) as u16) << 8u16,
            0xFF54 => self.vram_dma_destination_address = (self.vram_dma_destination_address & 0xFF00) | (value
                & 0xF0) as u16,
            _ => match self.vram_dma_mode {
                VramDmaMode::HdmaActive | VramDmaMode::HdmaPending => {
                    if value & 0x80 == 0 {
                        self.vram_dma_mode = VramDmaMode::Stopped;
                    }
                },
                _ => {
                    self.vram_dma_mode = match value & 0x80 != 0 {
                        true => VramDmaMode::HdmaPending,
                        false => VramDmaMode::GdmaActive,
                    };
                    self.vram_dma_length = (value & 0x7F) + 1;
                },
            },
        }
    }

    /// One M-cycle of both transfers: the OAM transfer, then the VRAM
    /// transfer.
    pub fn cycle<C: SystemMemoryAccess, M: SystemMemoryAccess>(
        &mut self,
        cartridge: &C,
        memory: &M,
        ppu: &mut Ppu,
        cpu_halted: bool,
    )
        requires
            old(self).wf(),
            old(self).oam_step_in_range(),
            old(ppu)@.wf(),
            cartridge.inv(),
            memory.inv(),
        ensures
            final(self).wf(),
            final(ppu)@.wf(),
            ({
                let (d1, p1) = old(self).oam_cycled(*cartridge, *memory, old(ppu)@);
                (*final(self), final(ppu)@) == d1.vram_cycled(*cartridge, *memory, p1, cpu_halted)
            }),
    {
        self.oam_dma_cycle(cartridge, memory, ppu);
        self.vram_dma_cycle(cartridge, memory, ppu, cpu_halted);
    }

    fn oam_dma_cycle<C: SystemMemoryAccess, M: SystemMemoryAccess>(&mut self, cartridge: &C, memory: &M, ppu: &mut Ppu)
        requires
            old(self).wf(),
            old(self).oam_step_in_range(),
            old(ppu)@.wf(),
            cartridge.inv(),
            memory.inv(),
        ensures
            final(self).wf(),
            final(ppu)@.wf(),
            (*final(self), final(ppu)@) == old(self).oam_cycled(*cartridge, *memory, old(ppu)@),
    {
        if self.oam_dma_pending {
            self.oam_dma_cycles = OAM_DMA_T_CYCLES;
            self.oam_dma_pending = false;
            return;
        }

        if self.oam_dma_cycles == 0 {
            self.oam_dma_active = false;
            return;
        }
        self.oam_dma_active = true;

        let src = self.oam_dma_source_address;
        let byte = if src <= 0x7FFF {
            cartridge.read_8(src)
        } else if src <= 0x9FFF {
            ppu.read_8(src)
        } else if src <= 0xBFFF {
            cartridge.read_8(src)
        } else if src <= 0xDFFF {
            memory.read_8(src)
        } else {
            0xFF
        };
        proof {
            crate::bits::lemma_word_split(src);
            lemma_page_bits(src);
        }
        ppu.write_8(0xFE00 | (src & 0x00FF), byte);

        self.oam_dma_source_address += 1;
        self.oam_dma_cycles -= t_cycles(self.speed) as u16;
    }

    fn vram_dma_byte<C: SystemMemoryAccess, M: SystemMemoryAccess>(&mut self, cartridge: &C, memory: &M, ppu: &mut Ppu)
        requires
            old(self).vram_bytes_transferred < 255,
            old(ppu)@.wf(),
            cartridge.inv(),
            memory.inv(),
        ensures
            final(ppu)@.wf(),
            (*final(self), final(ppu)@) == old(self).vram_byte_copied(*cartridge, *memory, old(ppu)@),
    {
        let src = self.vram_dma_source_address;
        let byte = if src <= 0x7FFF || (0xA000 <= src && src <= 0xBFFF) {
            cartridge.read_8(src)
        } else if 0xC000 <= src && src <= 0xDFFF {
            memory.read_8(src)
        } else {
            0xFF
        };
        proof {
            lemma_page_bits(self.vram_dma_destination_address);
        }
        ppu.write_8(0x8000 | (self.vram_dma_destination_address & 0x1FFF), byte);

        self.vram_dma_source_address = self.vram_dma_source_address.wrapping_add(1);
        self.vram_dma_destination_address = self.vram_dma_destination_address.wrapping_add(1);
        self.vram_bytes_transferred += 1;
    }

    fn vram_dma_cycle<C: SystemMemoryAccess, M: SystemMemoryAccess>(
        &mut self,
        cartridge: &C,
        memory: &M,
        ppu: &mut Ppu,
        cpu_halted: bool,
    )
        requires
            old(self).wf(),
            old(ppu)@.wf(),
            cartridge.inv(),
            memory.inv(),
        ensures
            final(self).wf(),
            final(ppu)@.wf(),
            (*final(self), final(ppu)@) == old(self).vram_cycled(*cartridge, *memory, old(ppu)@, cpu_halted),
    {
        match self.vram_dma_mode {
            VramDmaMode::Stopped => return,
            VramDmaMode::HdmaPending => {
                if !cpu_halted && ppu.mode == PpuMode::HBlank {
                    self.vram_dma_mode = VramDmaMode::HdmaActive;
                } else {
                    return;
                }
            },
            _ => {},
        }

        self.vram_dma_byte(cartridge, memory, ppu);
        self.vram_dma_byte(cartridge, memory, ppu);

        if self.vram_bytes_transferred == VRAM_DMA_BLOCK_SIZE {
            self.vram_dma_length -= 1;
            self.vram_bytes_transferred = 0;
            if self.vram_dma_mode == VramDmaMode::HdmaActive {
                self.vram_dma_mode = VramDmaMode::HdmaPending
            }
        }

        if self.vram_dma_length == 0 || self.vram_dma_destination_address == 0x0000 {
            self.vram_dma_mode = VramDmaMode::Stopped;
        }
    }
}

proof fn lemma_page_bits(a: u16)
    by (bit_vector)
    ensures
        0xFE00u16 | (a & 0x00FF) == 0xFE00 + a % 256,
        0x8000u16 | (a & 0x1FFF) == 0x8000 + a % 0x2000,
{
}

proof fn lemma_register_bits(address: u16, value: u8)
    by (bit_vector)
    ensures
        (address & 0x00FF) | ((value as u16) << 8u16) == address % 256 + value * 256,
        (address & 0xFF00) | ((value & 0xF0) as u16) == address / 256 * 256 + value / 16 * 16,
        (address & 0x00FF) | (((value & 0x1F) as u16) << 8u16) == address % 256 + value % 32 * 256,
        (value as u16) << 8u16 == value * 256,
{
}

/// Reading back the OAM transfer register gives the page written.
pub proof fn lemma_oam_source_read_after_write(dma: Dma, value: u8)
    ensures
        (dma.written(0xFF46, value).oam_dma_source_address / 256) as u8 == value,
        dma.written(0xFF46, value).oam_dma_pending,
{
}

} // verus!
