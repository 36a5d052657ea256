//! The interrupt flag (IF) and interrupt enable (IE) registers.
use vstd::prelude::*;

verus! {

/// The interrupt flag register.
pub const IF_ADDRESS: u16 = 0xFF0F;

/// The interrupt enable register.
pub const IE_ADDRESS: u16 = 0xFFFF;

/// An interrupt register: one bit per source, VBlank in bit 0, then LCD,
/// timer, serial and joypad in bit 4; bits 5-7 are unused.
#[derive(Debug, Clone, Copy, PartialEq, Eq, Structural)]
pub struct Interrupts {
    pub bits: u8,
}

/// Whether bit `n` of `bits` is set.
pub open spec fn bit_set(bits: u8, n: u8) -> bool {
    (bits >> n) & 1 == 1
}

/// `bits` with bit `n` set to `value`.
pub open spec fn with_bit(bits: u8, n: u8, value: bool) -> u8 {
    if value {
        bits | (1u8 << n)
    } else {
        bits & !(1u8 << n)
    }
}

impl Interrupts {
    pub fn from_bits(bits: u8) -> (r: Interrupts)
        ensures
            r.bits == bits,
    {
        Interrupts { bits }
    }

    pub fn into_bits(&self) -> (r: u8)
        ensures
            r == self.bits,
    {
        self.bits
    }

    fn bit(&self, n: u8) -> (r: bool)
        requires
            n < 8,
        ensures
            r == bit_set(self.bits, n),
    {
        (self.bits >> n) & 1 == 1
    }

    fn set_bit(&mut self, n: u8, value: bool)
        requires
            n < 8,
        ensures
            final(self).bits == with_bit(old(self).bits, n, value),
    {
        if value {
            self.bits = self.bits | (1u8 << n);
        } else {
            self.bits = self.bits & !(1u8 << n);
        }
    }

    pub fn vblank(&self) -> (r: bool)
        ensures
            r == bit_set(self.bits, 0),
    {
        self.bit(0)
    }

    pub fn lcd(&self) -> (r: bool)
        ensures
            r == bit_set(self.bits, 1),
    {
        self.bit(1)
    }

    pub fn timer(&self) -> (r: bool)
        ensures
            r == bit_set(self.bits, 2),
    {
        self.bit(2)
    }

    pub fn serial(&self) -> (r: bool)
        ensures
            r == bit_set(self.bits, 3),
    {
        self.bit(3)
    }

    pub fn joypad(&self) -> (r: bool)
        ensures
            r == bit_set(self.bits, 4),
    {
        self.bit(4)
    }

    pub fn set_vblank(&mut self, value: bool)
        ensures
            final(self).bits == with_bit(old(self).bits, 0, value),
    {
        self.set_bit(0, value)
    }

    pub fn set_lcd(&mut self, value: bool)
        ensures
            final(self).bits == with_bit(old(self).bits, 1, value),
    {
        self.set_bit(1, value)
    }

    pub fn set_timer(&mut self, value: bool)
        ensures
            final(self).bits == with_bit(old(self).bits, 2, value),
    {
        self.set_bit(2, value)
    }

    pub fn set_serial(&mut self, value: bool)
        ensures
            final(self).bits == with_bit(old(self).bits, 3, value),
    {
        self.set_bit(3, value)
    }

    pub fn set_joypad(&mut self, value: bool)
        ensures
            final(self).bits == with_bit(old(self).bits, 4, value),
    {
        self.set_bit(4, value)
    }
}

/// Setting a bit of an interrupt register and reading it back gives the
/// value set, and leaves the other bits as they were.
pub proof fn lemma_with_bit(bits: u8, n: u8, m: u8, value: bool)
    requires
        n < 8,
        m < 8,
    ensures
        bit_set(with_bit(bits, n, value), n) == value,
        m != n ==> bit_set(with_bit(bits, n, value), m) == bit_set(bits, m),
{
    lemma_bit_ops(bits, n, m);
}

proof fn lemma_bit_ops(bits: u8, n: u8, m: u8)
    by (bit_vector)
    requires
        n < 8,
        m < 8,
    ensures
        ((bits | (1u8 << n)) >> n) & 1 == 1,
        m != n ==> ((bits | (1u8 << n)) >> m) & 1 == (bits >> m) & 1,
        ((bits & !(1u8 << n)) >> n) & 1 == 0,
        m != n ==> ((bits & !(1u8 << n)) >> m) & 1 == (bits >> m) & 1,
{
}

/// The two interrupt registers.
pub struct InterruptController {
    pub interrupt_flags: Interrupts,
    pub interrupt_enable: Interrupts,
}

impl InterruptController {
    /// No interrupt requested or enabled.
    pub fn new() -> (r: InterruptController)
        ensures
            r.interrupt_flags.bits == 0,
            r.interrupt_enable.bits == 0,
    {
        InterruptController { interrupt_flags: Interrupts::from_bits(0), interrupt_enable: Interrupts::from_bits(0) }
    }

    pub fn interrupt_flags(&self) -> (r: &Interrupts)
        ensures
            *r == self.interrupt_flags,
    {
        &self.interrupt_flags
    }

    pub fn interrupt_flags_mut(&mut self) -> (r: &mut Interrupts)
        ensures
            *r == old(self).interrupt_flags,
            final(self).interrupt_flags == *final(r),
            final(self).interrupt_enable == old(self).interrupt_enable,
    {
        &mut self.interrupt_flags
    }

    pub fn interrupt_enable(&self) -> (r: &Interrupts)
        ensures
            *r == self.interrupt_enable,
    {
        &self.interrupt_enable
    }

    pub fn interrupt_enable_mut(&mut self) -> (r: &mut Interrupts)
        ensures
            *r == old(self).interrupt_enable,
            final(self).interrupt_enable == *final(r),
            final(self).interrupt_flags == old(self).interrupt_flags,
    {
        &mut self.interrupt_enable
    }
}

} // verus!
