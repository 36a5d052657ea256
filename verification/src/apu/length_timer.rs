//! The length timer, which silences a channel after a set number of ticks.
use vstd::prelude::*;

verus! {

/// A length timer: when enabled, each tick counts `time` down, and the channel
/// is switched off when it reaches zero.
#[derive(Debug, Clone, Copy, PartialEq, Eq, Structural)]
pub struct LengthTimer {
    pub enabled: bool,
    pub time: u16,
}

impl LengthTimer {
    /// The timer and the channel's enable flag after one tick.
    pub open spec fn ticked(self, channel_enabled: bool) -> (LengthTimer, bool) {
        if !self.enabled || self.time == 0 {
            (self, channel_enabled)
        } else {
            (LengthTimer { time: (self.time - 1) as u16, ..self }, channel_enabled && self.time != 1)
        }
    }

    /// A disabled timer at zero.
    pub fn new() -> (r: LengthTimer)
        ensures
            r == (LengthTimer { enabled: false, time: 0 }),
    {
        Self { enabled: false, time: 0 }
    }

    /// One tick: an enabled timer with time left counts down, and switches the
    /// channel off when it reaches zero.
    pub fn cycle(&mut self, channel_enabled: &mut bool)
        ensures
            (*final(self), *final(channel_enabled)) == old(self).ticked(*old(channel_enabled)),
    {
        if !self.enabled || self.time == 0 {
            return;
        }

        self.time = self.time.saturating_sub(1);
        if self.time == 0 {
            *channel_enabled = false
        }
    }

    /// Disables the timer and clears it.
    pub fn reset(&mut self)
        ensures
            *final(self) == (LengthTimer { enabled: false, time: 0 }),
    {
        self.enabled = false;
        self.time = 0;
    }

    pub fn enabled(&self) -> (r: bool)
        ensures
            r == self.enabled,
    {
        self.enabled
    }

    pub fn set_enabled(&mut self, value: bool)
        ensures
            *final(self) == (LengthTimer { enabled: value, ..*old(self) }),
    {
        self.enabled = value;
    }

    pub fn time(&self) -> (r: u16)
        ensures
            r == self.time,
    {
        self.time
    }

    pub fn set_time(&mut self, value: u16)
        ensures
            *final(self) == (LengthTimer { time: value, ..*old(self) }),
    {
        self.time = value
    }
}

} // verus!
