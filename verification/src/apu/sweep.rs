//! The frequency sweep unit of the first square channel.
use vstd::prelude::*;

verus! {

/// Whether the sweep raises or lowers the period.
#[derive(Clone, Copy, PartialEq, Eq, Debug, Structural)]
pub enum Direction {
    Increasing,
    Decreasing,
}

impl Direction {
    /// The direction that the sweep register's bit 3 selects: set lowers.
    pub fn from_bit(value: bool) -> (r: Direction)
        ensures
            r == (if value { Direction::Decreasing } else { Direction::Increasing }),
    {
        match value {
            false => Direction::Increasing,
            true => Direction::Decreasing,
        }
    }
}

impl From<bool> for Direction {
    fn from(value: bool) -> (r: Direction) {
        Direction::from_bit(value)
    }
}

impl vstd::std_specs::convert::FromSpecImpl<bool> for Direction {
    open spec fn obeys_from_spec() -> bool {
        true
    }

    open spec fn from_spec(v: bool) -> Direction {
        if v { Direction::Decreasing } else { Direction::Increasing }
    }
}

/// The sweep unit: every `pace` ticks it moves the period by the period
/// shifted right by `step`, up or down, and switches the channel off when the
/// period would leave eleven bits.
#[derive(Clone, Copy, PartialEq, Eq, Debug, Structural)]
pub struct Sweep {
    pub pace: u8,
    pub direction: Direction,
    pub step: u8,
    pub timer: u8,
    pub enabled: bool,
    pub shadow_period: u16,
    pub period_calculated: bool,
}

/// The period that the next sweep step computes (saturating at the ends of
/// the sixteen-bit range).
pub open spec fn next_period(s: Sweep) -> u16 {
    let delta = s.shadow_period >> s.step;
    match s.direction {
        Direction::Increasing => if s.shadow_period + delta > u16::MAX {
            u16::MAX
        } else {
            (s.shadow_period + delta) as u16
        },
        Direction::Decreasing => if s.shadow_period - delta < 0 {
            0u16
        } else {
            (s.shadow_period - delta) as u16
        },
    }
}

/// The sweep and channel state after a period is computed: an overflowing
/// period switches the channel off, any other marks that a period was
/// computed.
pub open spec fn calculated(s: Sweep, channel_enabled: bool) -> (Sweep, bool) {
    if next_period(s) > 0x07FF {
        (s, false)
    } else {
        (Sweep { period_calculated: true, ..s }, channel_enabled)
    }
}

/// The timer value that a pace reloads: the pace, or 8 for a pace of 0.
pub open spec fn reload_value(pace: u8) -> u8 {
    if pace > 0 { pace } else { 8 }
}

impl Sweep {
    /// The sweep unit's invariant: the pace and the shift fit in three bits.
    pub open spec fn wf(self) -> bool {
        &&& self.pace < 8
        &&& self.step < 8
    }

    /// A sweep unit with everything cleared.
    pub fn new() -> (r: Sweep)
        ensures
            r == (Sweep {
                pace: 0,
                direction: Direction::Increasing,
                step: 0,
                timer: 0,
                enabled: false,
                shadow_period: 0,
                period_calculated: false,
            }),
    {
        Self {
            pace: 0,
            direction: Direction::Increasing,
            step: 0,
            timer: 0,
            enabled: false,
            shadow_period: 0,
            period_calculated: false,
        }
    }

    /// The sweep, the channel's period and its enable flag after one sweep
    /// tick. The timer counts down; when it runs out it reloads and, if the
    /// sweep is enabled with a nonzero pace, computes the next period: one
    /// that fits and with a nonzero shift becomes the channel's period and is
    /// checked once more for overflow.
    pub open spec fn cycled(self, period: u16, channel_enabled: bool) -> (Sweep, u16, bool) {
        let t = if self.timer > 0 { (self.timer - 1) as u8 } else { 0u8 };
        let s1 = Sweep { timer: t, ..self };
        if t != 0 {
            (s1, period, channel_enabled)
        } else {
            let s2 = Sweep { timer: reload_value(s1.pace), ..s1 };
            if s2.enabled && s2.pace > 0 {
                let (s3, e3) = calculated(s2, channel_enabled);
                let np = next_period(s2);
                if np > 0x07FF || s2.step == 0 {
                    (s3, period, e3)
                } else {
                    let s4 = Sweep { shadow_period: np, ..s3 };
                    let (s5, e5) = calculated(s4, e3);
                    (s5, np, e5)
                }
            } else {
                (Sweep { period_calculated: false, ..s2 }, period, channel_enabled)
            }
        }
    }

    /// The sweep and the channel's enable flag after a note starts at
    /// `period`: the shadow period is set, the timer reloaded, the sweep
    /// enabled when its pace or shift is nonzero, and with a nonzero shift
    /// the next period is checked for overflow at once.
    pub open spec fn triggered(self, period: u16, channel_enabled: bool) -> (Sweep, bool) {
        let s1 = Sweep {
            shadow_period: period,
            timer: reload_value(self.pace),
            enabled: self.pace > 0 || self.step > 0,
            ..self
        };
        if s1.step > 0 {
            calculated(s1, channel_enabled)
        } else {
            (Sweep { period_calculated: false, ..s1 }, channel_enabled)
        }
    }

    /// The sweep and the channel's enable flag after a write of its register.
    pub open spec fn written(self, value: u8, channel_enabled: bool) -> (Sweep, bool) {
        (Sweep {
            pace: (value & 0x70) / 16,
            direction: if value & 0x08 != 0 { Direction::Decreasing } else { Direction::Increasing },
            step: value & 0x07,
            ..self
        }, channel_enabled && !(self.direction == Direction::Decreasing && value & 0x08 == 0 && self.period_calculated))
    }

    /// The sweep register as read: bit 7 reads as set.
    pub open spec fn register(self) -> u8 {
        (0x80 + (self.pace & 0x07) * 16 + (if self.direction == Direction::Decreasing { 8int } else { 0int }) + (self.step & 0x07)) as u8
    }

    /// One sweep tick (see `cycled`).
    pub fn cycle(&mut self, period: &mut u16, channel_enabled: &mut bool)
        requires
            old(self).wf(),
        ensures
            final(self).wf(),
            (*final(self), *final(period), *final(channel_enabled)) == old(self).cycled(*old(period), *old(channel_enabled)),
    {
        if self.timer > 0 {
            self.timer -= 1;
        }

        if self.timer == 0 {
            match self.pace > 0 {
                true => self.timer = self.pace,
                false => self.timer = 8,
            }

            if self.enabled && self.pace > 0 {
                let new_period = self.calculate_period(channel_enabled);
                if new_period > 0x07FF || self.step == 0 {
                    return;
                }
                self.shadow_period = new_period;
                *period = new_period;
                self.calculate_period(channel_enabled);
            } else {
                self.period_calculated = false;
            }
        }
    }

    /// Sets the sweep from its register: pace in bits 6-4, direction in bit 3
    /// (set lowers), shift in bits 2-0. Switching from lowering to raising
    /// after a lowering period was computed switches the channel off.
    pub fn write(&mut self, value: u8, channel_enabled: &mut bool)
        ensures
            final(self).wf(),
            (*final(self), *final(channel_enabled)) == old(self).written(value, *old(channel_enabled)),
    {
        self.pace = (value & 0x70) >> 4;
        proof {
            assert((value & 0x70) >> 4 == (value & 0x70) / 16) by (bit_vector);
            assert((value & 0x70) >> 4 < 8) by (bit_vector);
            crate::bits::lemma_byte_split(value);
        }

        let new_direction = Direction::from_bit((value & 0x08) != 0);
        if self.direction == Direction::Decreasing && new_direction == Direction::Increasing && self.period_calculated {
            *channel_enabled = false;
        }
        self.direction = new_direction;

        self.step = value & 0x07;
    }

    /// The sweep register: bit 7 reads as set.
    pub fn read(&self) -> (r: u8)
        ensures
            r == self.register(),
    {
        proof {
            crate::bits::lemma_byte_split(self.pace);
            crate::bits::lemma_byte_split(self.step);
        }
        let pace = (self.pace & 0x07) * 16;
        let direction: u8 = match self.direction {
            Direction::Increasing => 0,
            Direction::Decreasing => 8,
        };
        let shift = self.step & 0x07;
        0x80 + pace + direction + shift
    }

    /// Clears the sweep unit.
    pub fn reset(&mut self)
        ensures
            *final(self) == Sweep::new_spec(),
    {
        self.pace = 0;
        self.direction = Direction::Increasing;
        self.step = 0;
        self.timer = 0;
        self.enabled = false;
        self.shadow_period = 0;
        self.period_calculated = false;
    }

    /// The cleared sweep unit.
    pub open spec fn new_spec() -> Sweep {
        Sweep {
            pace: 0,
            direction: Direction::Increasing,
            step: 0,
            timer: 0,
            enabled: false,
            shadow_period: 0,
            period_calculated: false,
        }
    }

    /// Computes the next period (see `calculated`).
    fn calculate_period(&mut self, channel_enabled: &mut bool) -> (r: u16)
        requires
            old(self).wf(),
        ensures
            r == next_period(*old(self)),
            (*final(self), *final(channel_enabled)) == calculated(*old(self), *old(channel_enabled)),
    {
        let delta = self.shadow_period >> self.step;
        let new_period = match self.direction {
            Direction::Increasing => self.shadow_period.saturating_add(delta),
            Direction::Decreasing => self.shadow_period.saturating_sub(delta),
        };

        match new_period > 0x07FF {
            true => *channel_enabled = false,
            false => self.period_calculated = true,
        }
        new_period
    }

    /// Starts the sweep for a new note at `period` (see `triggered`).
    pub fn trigger(&mut self, period: u16, channel_enabled: &mut bool)
        requires
            old(self).wf(),
        ensures
            final(self).wf(),
            (*final(self), *final(channel_enabled)) == old(self).triggered(period, *old(channel_enabled)),
    {
        self.shadow_period = period;
        match self.pace > 0 {
            true => self.timer = self.pace,
            false => self.timer = 8,
        }

        self.enabled = self.pace > 0 || self.step > 0;

        if self.step > 0 {
            self.calculate_period(channel_enabled);
        } else {
            self.period_calculated = false;
        }
    }
}

/// Reading the sweep register back gives the byte written, with bit 7 set.
pub proof fn lemma_sweep_read_after_write(s: Sweep, value: u8, channel_enabled: bool)
    ensures
        s.written(value, channel_enabled).0.register() == (value | 0x80),
{
    crate::bits::lemma_byte_fields(value);
    crate::bits::lemma_byte_split(value);
    crate::bits::lemma_byte_fields((value & 0x70) / 16);
    crate::bits::lemma_byte_fields(value & 0x07);
    assert((value | 0x80) as int == 0x80 + (value & 0x70) + (value & 0x08) + (value & 0x07)) by (bit_vector);
}

/// A sweep tick keeps the sweep register, never switches a silent channel
/// on, and changes the channel's period only when the register holds a
/// nonzero pace and a nonzero shift, to a period that fits in eleven bits.
pub proof fn lemma_sweep_cycle(s: Sweep, period: u16, channel_enabled: bool)
    requires
        s.wf(),
        period <= 0x07FF,
    ensures
        ({
            let (s2, p2, e2) = s.cycled(period, channel_enabled);
            &&& p2 == period || (p2 <= 0x07FF && s.register() & 0x70 != 0 && s.register() & 0x07 != 0)
            &&& !channel_enabled ==> !e2
            &&& s2.register() == s.register()
        }),
{
    let pace = s.pace;
    let step = s.step;
    let d: u8 = if s.direction == Direction::Decreasing { 8 } else { 0 };
    assert(pace < 8 && step < 8 && (d == 0 || d == 8) && pace != 0 && step != 0 ==> ({
        let r = (0x80 + (pace & 0x07) * 16 + d + (step & 0x07)) as u8;
        r & 0x70 != 0 && r & 0x07 != 0
    })) by (bit_vector);
}

} // verus!
