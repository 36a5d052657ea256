//! What the sound channels have in common.
use vstd::prelude::*;

verus! {

/// The operations the frame sequencer and the mixer use on every channel.
/// `inv` is the channel's own invariant, kept by every operation.
pub trait Channel {
    spec fn inv(&self) -> bool;

    /// One M-cycle of the channel's frequency timer.
    fn cycle(&mut self)
        requires
            old(self).inv(),
        ensures
            final(self).inv(),
    ;

    /// One tick of the length timer.
    fn length_timer_cycle(&mut self)
        requires
            old(self).inv(),
        ensures
            final(self).inv(),
    ;

    /// One tick of the volume envelope.
    fn volume_envelope_cycle(&mut self)
        requires
            old(self).inv(),
        ensures
            final(self).inv(),
    ;

    /// Starts a new note.
    fn trigger(&mut self)
        requires
            old(self).inv(),
        ensures
            final(self).inv(),
    ;

    /// Powers the channel off.
    fn reset(&mut self)
        requires
            old(self).inv(),
        ensures
            final(self).inv(),
    ;

    fn enabled(&self) -> bool;

    /// The channel's current output, 0 when it is off.
    fn sample(&self) -> u8
        requires
            self.inv(),
    ;
}

/// State that every channel carries.
#[derive(Debug, Clone, Copy, PartialEq, Eq, Structural)]
pub struct ChannelBase {
    pub sample: u8,
    pub enabled: bool,
    pub dac_enabled: bool,
    pub triggered: bool,
    pub timer: i32,
}

impl ChannelBase {
    /// The powered-off state.
    pub open spec fn off() -> ChannelBase {
        ChannelBase { sample: 0, enabled: false, dac_enabled: false, triggered: false, timer: 0 }
    }

    /// A channel that is off, with everything at zero.
    pub fn new() -> (r: ChannelBase)
        ensures
            r == ChannelBase::off(),
    {
        Self { sample: 0, enabled: false, dac_enabled: false, triggered: false, timer: 0 }
    }

    /// The output: the sample while the channel and its DAC are on, else 0.
    pub fn sample(&self) -> (r: u8)
        ensures
            r == (if self.enabled && self.dac_enabled { self.sample } else { 0 }),
    {
        if self.enabled && self.dac_enabled {
            self.sample
        } else {
            0
        }
    }

    /// Powers the channel off.
    pub fn reset(&mut self)
        ensures
            *final(self) == ChannelBase::off(),
    {
        self.enabled = false;
        self.dac_enabled = false;
        self.sample = 0;
        self.timer = 0;
        self.triggered = false;
    }
}

} // verus!
