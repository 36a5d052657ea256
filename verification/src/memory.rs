//! How the components expose their registers and memory to the system bus.
use vstd::prelude::*;

use crate::GbSpeed;

pub use crate::t_cycles;

verus! {

/// The system bus as the CPU sees it. A load returns `peek` of the state
/// before it and moves the bus to `loaded`; a store moves it to `stored`;
/// with `with_cycles` the access also takes an M-cycle. The spec functions
/// are the implementation's model of its state; an implementation that
/// gives no model leaves them unspecified.
pub trait MemoryInterface: Sized {
    /// The byte that a load at `address` returns.
    closed spec fn peek(&self, address: u16) -> u8 {
        vstd::pervasive::arbitrary()
    }

    /// The bus after a load at `address`.
    closed spec fn loaded(&self, address: u16, with_cycles: bool) -> Self {
        vstd::pervasive::arbitrary()
    }

    /// The bus after a store of `value` at `address`.
    closed spec fn stored(&self, address: u16, value: u8, with_cycles: bool) -> Self {
        vstd::pervasive::arbitrary()
    }

    /// The bus after one M-cycle.
    closed spec fn ticked(&self) -> Self {
        vstd::pervasive::arbitrary()
    }

    /// The number of M-cycles so far.
    closed spec fn m_cycles(&self) -> u64 {
        vstd::pervasive::arbitrary()
    }

    /// The interrupts that are both requested and enabled.
    closed spec fn pending(&self) -> u8 {
        vstd::pervasive::arbitrary()
    }

    /// The bus after the request of interrupt `bit` is cleared.
    closed spec fn cleared(&self, bit: u8) -> Self {
        vstd::pervasive::arbitrary()
    }

    /// The bus after a speed switch.
    closed spec fn speed_switched(&self) -> Self {
        vstd::pervasive::arbitrary()
    }

    /// The current speed.
    closed spec fn current_speed(&self) -> GbSpeed {
        vstd::pervasive::arbitrary()
    }

    fn load_8(&mut self, address: u16, with_cycles: bool) -> (r: u8)
        ensures
            r == old(self).peek(address),
            *final(self) == old(self).loaded(address, with_cycles),
    ;

    /// Loads the little-endian word at `address` and `address + 1`.
    fn load_16(&mut self, address: u16, with_cycles: bool) -> (r: u16)
        requires
            address < 0xFFFF,
        ensures
            r == old(self).peek(address) + 256 * old(self).loaded(address, with_cycles).peek((address + 1) as u16),
            *final(self) == old(self).loaded(address, with_cycles).loaded((address + 1) as u16, with_cycles),
    {
        let lo = self.load_8(address, with_cycles) as u16;
        let hi = self.load_8(address + 1, with_cycles) as u16;
        proof {
            crate::bits::lemma_word_join(hi as u8, lo as u8);
        }
        hi << 8 | lo
    }

    fn store_8(&mut self, address: u16, value: u8, with_cycles: bool)
        ensures
            *final(self) == old(self).stored(address, value, with_cycles),
    ;

    /// Stores `value` little-endian at `address` and `address + 1`.
    fn store_16(&mut self, address: u16, value: u16, with_cycles: bool)
        requires
            address < 0xFFFF,
        ensures
            *final(self) == old(self).stored(address, (value % 256) as u8, with_cycles).stored(
                (address + 1) as u16,
                (value / 256) as u8,
                with_cycles,
            ),
    {
        proof {
            crate::bits::lemma_word_split(value);
        }
        self.store_8(address, (value & 0xFF) as u8, with_cycles);
        self.store_8(address + 1, (value >> 8) as u8, with_cycles);
    }

    /// Lets one M-cycle pass.
    fn m_cycle(&mut self)
        ensures
            *final(self) == old(self).ticked(),
    ;

    fn total_m_cycles(&self) -> (r: u64)
        ensures
            r == self.m_cycles(),
    ;

    /// The interrupts that are both requested and enabled.
    fn pending_interrupt(&self) -> (r: u8)
        ensures
            r == self.pending(),
    ;

    /// Clears the request of interrupt `mask` (a bit number).
    fn clear_interrupt(&mut self, mask: u8)
        ensures
            *final(self) == old(self).cleared(mask),
    ;

    /// Switches between normal and double speed.
    fn change_speed(&mut self)
        ensures
            *final(self) == old(self).speed_switched(),
    ;

    fn speed(&self) -> (r: GbSpeed)
        ensures
            r == self.current_speed(),
    ;
}

/// A component that the system bus reads and writes a byte at a time.
/// `inv` is the component's own invariant, which every write keeps, and
/// `byte_at` what a read returns.
pub trait SystemMemoryAccess {
    spec fn inv(&self) -> bool;

    /// The byte a read at `address` returns.
    spec fn byte_at(&self, address: u16) -> u8;

    /// The byte at `address`.
    fn read_8(&self, address: u16) -> (r: u8)
        requires
            self.inv(),
        ensures
            r == self.byte_at(address),
    ;

    /// Writes `value` at `address`.
    fn write_8(&mut self, address: u16, value: u8)
        requires
            old(self).inv(),
        ensures
            final(self).inv(),
    ;
}

} // verus!
