//! A Game Boy / Game Boy Color emulation core: CPU registers and instruction
//! semantics, interrupts, the pixel processing unit, the audio processing unit,
//! DMA, the joypad and the cartridge header, each with its contract proved.
use vstd::prelude::*;

pub mod apu;
pub mod bits;
pub mod bus;
pub mod cartridge;
pub mod cpu;
pub mod dma;
pub mod interrupts;
pub mod joypad;
pub mod memory;
pub mod mmu;
pub mod opcode;
pub mod ppu;
pub mod system_bus;

verus! {

/// Number of T-cycles that one M-cycle takes at normal speed.
pub const T_CYCLES_PER_STEP: u8 = 4;

/// The kind of hardware a cartridge runs on.
#[derive(Debug, PartialEq, Eq, Copy, Clone, Structural)]
pub enum GbMode {
    Monochrome,
    Color,
    ColorAsMonochrome,
}

/// The CPU clock speed (the Color model can run at double speed).
#[derive(Debug, PartialEq, Eq, Copy, Clone, Structural)]
pub enum GbSpeed {
    Normal,
    Double,
}

/// T-cycles per M-cycle as a number, at the given speed.
pub open spec fn t_cycles_spec(speed: GbSpeed) -> u8 {
    match speed {
        GbSpeed::Double => 2,
        GbSpeed::Normal => 4,
    }
}

/// T-cycles that elapse in one M-cycle at the given speed.
pub fn t_cycles(speed: GbSpeed) -> (r: u8)
    ensures
        r == t_cycles_spec(speed),
{
    match speed {
        GbSpeed::Double => T_CYCLES_PER_STEP / 2,
        GbSpeed::Normal => T_CYCLES_PER_STEP,
    }
}

} // verus!
