//! The square-wave channels: channel 1 (with the frequency sweep) and
//! channel 2 (without).
use vstd::prelude::*;

use super::channel::Channel;
use super::length_timer::LengthTimer;
use super::sweep::Sweep;
use super::volume_envelope::VolumeEnvelope;
use crate::memory::SystemMemoryAccess;
use crate::T_CYCLES_PER_STEP;

verus! {

/// The number of ticks a full length timer of a square channel runs.
pub const LENGTH_TIMER_MAX: u16 = 64;

/// Step `amplitude_index` (0 to 7) of duty pattern `wave_index`: the
/// patterns are 0000_0001 (12.5%), 0000_0011 (25%), 0000_1111 (50%) and
/// 1111_1100 (75%).
pub open spec fn duty(wave_index: u8, amplitude_index: u8) -> bool {
    if wave_index == 0 {
        amplitude_index == 7
    } else if wave_index == 1 {
        amplitude_index >= 6
    } else if wave_index == 2 {
        amplitude_index >= 4
    } else {
        amplitude_index < 6
    }
}

/// Whether the frame sequencer's next step does not clock the length
/// timers (its odd steps).
pub open spec fn in_first_half(div_apu_step: u8) -> bool {
    div_apu_step == 1 || div_apu_step == 3 || div_apu_step == 5 || div_apu_step == 7
}

/// A square-wave channel. `div_apu_step` is the frame sequencer's step,
/// which the frame sequencer keeps up to date.
#[derive(Debug, Clone, Copy, PartialEq, Eq, Structural)]
pub struct SquareChannel {
    pub sample: u8,
    pub enabled: bool,
    pub dac_enabled: bool,
    pub trigger: bool,
    pub period_timer: i32,
    pub length_timer: LengthTimer,
    pub volume_envelope: VolumeEnvelope,
    pub sweep: Option<Sweep>,
    pub period: u16,
    pub wave_index: u8,
    pub amplitude_index: u8,
    pub div_apu_step: u8,
}

proof fn lemma_period_bits(p: u16, v: u8)
    by (bit_vector)
    ensures
        ((p & 0x0700) | (v as u16)) <= 0x07FF,
        ((p & 0x00FF) | (((v & 0x07) as u16) << 8)) <= 0x07FF,
{
}

proof fn lemma_duty_register(w: u8)
    by (bit_vector)
    requires
        w < 4,
    ensures
        (w << 6u8) | 0x3F == w * 64 + 0x3F,
{
}

impl SquareChannel {
    /// The channel's invariant: an eleven-bit period, a duty pattern and a
    /// step within the table, a valid envelope and sweep, and a four-bit
    /// sample.
    pub open spec fn wf(self) -> bool {
        &&& self.sample < 16
        &&& self.period <= 0x07FF
        &&& self.wave_index < 4
        &&& self.amplitude_index < 8
        &&& self.volume_envelope.wf()
        &&& (self.sweep matches Some(s) ==> s.wf())
    }

    /// The output: the sample while the channel and its DAC are on, else 0.
    pub open spec fn output(self) -> u8 {
        if self.enabled && self.dac_enabled {
            self.sample
        } else {
            0
        }
    }

    /// The T-cycles between two steps of the duty pattern.
    pub open spec fn period_reload(self) -> int {
        (2048 - self.period) * 4
    }

    /// The channel after one M-cycle: while it and its DAC are on the period
    /// timer counts down by one M-cycle (saturating); when it is no longer
    /// positive, the current step of the duty pattern is output at the
    /// envelope's volume, the timer is reloaded and the pattern advances.
    pub open spec fn cycled(self) -> SquareChannel {
        if !self.enabled || !self.dac_enabled {
            self
        } else {
            let t = if self.period_timer < i32::MIN + 4 {
                i32::MIN as int
            } else {
                self.period_timer - 4
            };
            if t > 0 {
                SquareChannel { period_timer: t as i32, ..self }
            } else {
                SquareChannel {
                    sample: if duty(self.wave_index, self.amplitude_index) {
                        self.volume_envelope.volume
                    } else {
                        0
                    },
                    period_timer: (t + self.period_reload()) as i32,
                    amplitude_index: ((self.amplitude_index + 1) % 8) as u8,
                    ..self
                }
            }
        }
    }

    /// The channel after a tick of its length timer.
    pub open spec fn length_ticked(self) -> SquareChannel {
        SquareChannel {
            length_timer: self.length_timer.ticked(self.enabled).0,
            enabled: self.length_timer.ticked(self.enabled).1,
            ..self
        }
    }

    /// The channel after a tick of its envelope, which only runs while the
    /// channel is on.
    pub open spec fn envelope_ticked(self) -> SquareChannel {
        if self.enabled {
            SquareChannel { volume_envelope: self.volume_envelope.stepped(), ..self }
        } else {
            self
        }
    }

    /// The channel after a tick of its sweep (channel 2 has none).
    pub open spec fn sweep_ticked(self) -> SquareChannel {
        match self.sweep {
            Some(s) => {
                let (s2, p2, e2) = s.cycled(self.period, self.enabled);
                SquareChannel { sweep: Some(s2), period: p2, enabled: e2, ..self }
            },
            None => self,
        }
    }

    /// The channel after a new note starts: on if its DAC is, the period
    /// timer reloaded, the envelope and the sweep restarted, and an expired
    /// length timer set to its full length.
    pub open spec fn triggered(self) -> SquareChannel {
        let e1 = self.enabled || self.dac_enabled;
        let lt = if self.length_timer.time == 0 {
            LengthTimer { time: LENGTH_TIMER_MAX, ..self.length_timer }
        } else {
            self.length_timer
        };
        let s1 = SquareChannel {
            enabled: e1,
            period_timer: self.period_reload() as i32,
            volume_envelope: self.volume_envelope.restarted(),
            length_timer: lt,
            ..self
        };
        match self.sweep {
            Some(s) => {
                let (s2, e2) = s.triggered(self.period, e1);
                SquareChannel { sweep: Some(s2), enabled: e2, ..s1 }
            },
            None => s1,
        }
    }

    /// The channel after power-off.
    pub open spec fn reset_state(self) -> SquareChannel {
        SquareChannel {
            enabled: false,
            dac_enabled: false,
            sample: 0,
            period_timer: 0,
            trigger: false,
            length_timer: LengthTimer { enabled: false, time: 0 },
            volume_envelope: self.volume_envelope.restarted(),
            amplitude_index: 0,
            period: 0,
            wave_index: 0,
            sweep: match self.sweep {
                Some(s) => Some(Sweep::new_spec()),
                None => None,
            },
            ..self
        }
    }

    /// The channel after a write of its control register (NRx4): the top
    /// three bits of the period, the length enable (bit 6) and the trigger
    /// (bit 7). In the first half of a frame-sequencer period, enabling the
    /// length timer, and a trigger that leaves it full, clock it once more.
    pub open spec fn control_written(self, value: u8) -> SquareChannel {
        let p = (self.period & 0x00FF) | (((value & 0x07) as u16) << 8);
        let first_half = in_first_half(self.div_apu_step);
        let len_on = value & 0x40 != 0;
        let enabling = !self.length_timer.enabled && len_on;
        let s1 = SquareChannel {
            period: p,
            length_timer: LengthTimer { enabled: len_on, ..self.length_timer },
            ..self
        };
        let s2 = if first_half && enabling {
            s1.length_ticked()
        } else {
            s1
        };
        if value & 0x80 != 0 {
            let s3 = s2.triggered();
            if first_half && s3.length_timer.time == LENGTH_TIMER_MAX {
                s3.length_ticked()
            } else {
                s3
            }
        } else {
            s2
        }
    }

    /// The channel after a write of `value` at `address`.
    pub open spec fn written(self, address: u16, value: u8) -> SquareChannel {
        if address == 0xFF10 {
            match self.sweep {
                Some(s) => {
                    let (s2, e2) = s.written(value, self.enabled);
                    SquareChannel { sweep: Some(s2), enabled: e2, ..self }
                },
                None => self,
            }
        } else if address == 0xFF11 || address == 0xFF16 {
            SquareChannel {
                wave_index: value / 64,
                length_timer: LengthTimer { time: (LENGTH_TIMER_MAX - value % 64) as u16, ..self.length_timer },
                ..self
            }
        } else if address == 0xFF12 || address == 0xFF17 {
            let dac = value / 8 != 0;
            SquareChannel {
                volume_envelope: self.volume_envelope.written(value),
                dac_enabled: dac,
                enabled: self.enabled && dac,
                ..self
            }
        } else if address == 0xFF13 || address == 0xFF18 {
            SquareChannel { period: (self.period & 0x0700) | (value as u16), ..self }
        } else if address == 0xFF14 || address == 0xFF19 {
            self.control_written(value)
        } else {
            self
        }
    }

    /// The byte read at `address`: unused bits read as set, and the low
    /// period bits cannot be read.
    pub open spec fn register(self, address: u16) -> u8 {
        if address == 0xFF10 {
            match self.sweep {
                Some(s) => s.register(),
                None => 0xFF,
            }
        } else if address == 0xFF11 || address == 0xFF16 {
            (self.wave_index * 64 + 0x3F) as u8
        } else if address == 0xFF12 || address == 0xFF17 {
            self.volume_envelope.register() as u8
        } else if address == 0xFF14 || address == 0xFF19 {
            if self.length_timer.enabled {
                0xFF
            } else {
                0xBF
            }
        } else {
            0xFF
        }
    }

    /// A cleared channel, with a sweep unit when `with_sweep`.
    pub open spec fn initial(with_sweep: bool) -> SquareChannel {
        SquareChannel {
            sample: 0,
            enabled: false,
            dac_enabled: false,
            trigger: false,
            period_timer: 0,
            length_timer: LengthTimer { enabled: false, time: 0 },
            volume_envelope: VolumeEnvelope { initial_volume: 0, direction: false, pace: 0, volume: 0, timer: 0 },
            sweep: if with_sweep { Some(Sweep::new_spec()) } else { None },
            period: 0,
            wave_index: 0,
            amplitude_index: 0,
            div_apu_step: 0,
        }
    }

    /// A powered-off channel, with a sweep unit when `with_sweep`.
    pub fn new(with_sweep: bool) -> (r: SquareChannel)
        ensures
            r.wf(),
            r == SquareChannel::initial(with_sweep),
    {
        let sweep = match with_sweep {
            true => Some(Sweep::new()),
            false => None,
        };
        Self {
            sample: 0,
            enabled: false,
            dac_enabled: false,
            trigger: false,
            period_timer: 0,
            length_timer: LengthTimer::new(),
            volume_envelope: VolumeEnvelope::new(),
            sweep,
            amplitude_index: 0,
            period: 0,
            wave_index: 0,
            div_apu_step: 0,
        }
    }

    /// One tick of the sweep unit, which may change the period or switch the
    /// channel off.
    pub fn sweep_cycle(&mut self)
        requires
            old(self).wf(),
        ensures
            final(self).wf(),
            *final(self) == old(self).sweep_ticked(),
    {
        if let Some(s) = self.sweep {
            let mut s = s;
            s.cycle(&mut self.period, &mut self.enabled);
            self.sweep = Some(s);
        }
    }

    fn write_timer_and_duty(&mut self, value: u8)
        requires
            old(self).wf(),
        ensures
            final(self).wf(),
            *final(self) == old(self).written(0xFF11, value),
    {
        proof {
            crate::bits::lemma_byte_fields(value);
        }
        self.wave_index = value >> 6;
        self.length_timer.set_time(LENGTH_TIMER_MAX - (value & 0x3F) as u16);
    }

    fn volume_envelope_write(&mut self, value: u8)
        requires
            old(self).wf(),
        ensures
            final(self).wf(),
            *final(self) == old(self).written(0xFF12, value),
    {
        proof {
            crate::bits::lemma_byte_fields(value);
        }
        self.volume_envelope.write(value);
        self.dac_enabled = value & 0xF8 != 0x00;
        if !self.dac_enabled {
            self.enabled = false;
        }
    }

    fn period_high_write(&mut self, value: u8)
        requires
            old(self).wf(),
        ensures
            final(self).wf(),
            *final(self) == old(self).control_written(value),
    {
        proof {
            lemma_period_bits(self.period, value);
        }
        self.period = (self.period & 0x00FF) | ((value & 0x07) as u16) << 8;

        let first_half_of_cycle = self.div_apu_step == 1 || self.div_apu_step == 3 || self.div_apu_step == 5
            || self.div_apu_step == 7;
        let length_will_enabled = !self.length_timer.enabled() && value & 0x40 != 0;
        self.length_timer.set_enabled(value & 0x40 != 0);
        if first_half_of_cycle && length_will_enabled {
            self.length_timer.cycle(&mut self.enabled);
        }

        if value & 0x80 != 0 {
            self.trigger();
            if first_half_of_cycle && self.length_timer.time() == LENGTH_TIMER_MAX {
                self.length_timer.cycle(&mut self.enabled);
            }
        }
    }
}

impl Channel for SquareChannel {
    open spec fn inv(&self) -> bool {
        self.wf()
    }

    fn cycle(&mut self)
        ensures
            *final(self) == old(self).cycled(),
    {
        if !self.enabled || !self.dac_enabled {
            return;
        }

        self.period_timer = if self.period_timer < i32::MIN + 4 {
            i32::MIN
        } else {
            self.period_timer - T_CYCLES_PER_STEP as i32
        };
        if self.period_timer > 0 {
            return;
        }

        let high = if self.wave_index == 0 {
            self.amplitude_index == 7
        } else if self.wave_index == 1 {
            self.amplitude_index >= 6
        } else if self.wave_index == 2 {
            self.amplitude_index >= 4
        } else {
            self.amplitude_index < 6
        };
        self.sample = if high {
            self.volume_envelope.volume
        } else {
            0
        };

        self.period_timer += ((2048 - self.period) * 4) as i32;
        self.amplitude_index = (self.amplitude_index + 1) % 8;
    }

    fn length_timer_cycle(&mut self)
        ensures
            *final(self) == old(self).length_ticked(),
    {
        self.length_timer.cycle(&mut self.enabled)
    }

    fn volume_envelope_cycle(&mut self)
        ensures
            *final(self) == old(self).envelope_ticked(),
    {
        if self.enabled {
            self.volume_envelope.cycle();
        }
    }

    fn trigger(&mut self)
        ensures
            *final(self) == old(self).triggered(),
    {
        if self.dac_enabled {
            self.enabled = true;
        }

        self.period_timer = ((2048 - self.period) * 4) as i32;
        self.volume_envelope.reset();

        if let Some(s) = self.sweep {
            let mut s = s;
            s.trigger(self.period, &mut self.enabled);
            self.sweep = Some(s);
        }

        if self.length_timer.time() == 0 {
            self.length_timer.set_time(LENGTH_TIMER_MAX);
        }
    }

    fn reset(&mut self)
        ensures
            *final(self) == old(self).reset_state(),
    {
        self.enabled = false;
        self.dac_enabled = false;
        self.sample = 0;
        self.period_timer = 0;
        self.trigger = false;
        self.length_timer.reset();
        self.volume_envelope.reset();
        self.amplitude_index = 0;
        self.period = 0;
        self.wave_index = 0;

        if let Some(s) = self.sweep {
            let mut s = s;
            s.reset();
            self.sweep = Some(s);
        }
    }

    fn enabled(&self) -> (r: bool)
        ensures
            r == self.enabled,
    {
        self.enabled
    }

    fn sample(&self) -> (r: u8)
        ensures
            r == self.output(),
    {
        if self.enabled && self.dac_enabled {
            self.sample
        } else {
            0
        }
    }
}

impl SystemMemoryAccess for SquareChannel {
    open spec fn inv(&self) -> bool {
        self.wf()
    }

    open spec fn byte_at(&self, address: u16) -> u8 {
        self.register(address)
    }

    fn read_8(&self, address: u16) -> (r: u8) {
        match address {
            0xFF10 => match self.sweep {
                Some(sweep) => sweep.read(),
                None => 0xFF,
            },
            0xFF11 | 0xFF16 => {
                proof {
                    lemma_duty_register(self.wave_index);
                }
                self.wave_index << 6 | 0x3F
            },
            0xFF12 | 0xFF17 => self.volume_envelope.read(),
            0xFF14 | 0xFF19 => if self.length_timer.enabled() {
                0xFF
            } else {
                0xBF
            },
            _ => 0xFF,
        }
    }

    fn write_8(&mut self, address: u16, value: u8)
        ensures
            *final(self) == old(self).written(address, value),
    {
        match address {
            0xFF10 => {
                if let Some(s) = self.sweep {
                    let mut s = s;
                    s.write(value, &mut self.enabled);
                    self.sweep = Some(s);
                }
            },
            0xFF11 | 0xFF16 => self.write_timer_and_duty(value),
            0xFF12 | 0xFF17 => self.volume_envelope_write(value),
            0xFF13 | 0xFF18 => {
                proof {
                    lemma_period_bits(self.period, value);
                }
                self.period = (self.period & 0x0700) | value as u16
            },
            0xFF14 | 0xFF19 => self.period_high_write(value),
            _ => {},
        }
    }
}

/// Reading back the duty register gives the duty bits written, the rest
/// set; reading back the envelope register gives the byte written.
pub proof fn lemma_square_read_after_write(ch: SquareChannel, value: u8)
    ensures
        ch.written(0xFF11, value).register(0xFF11) == (value | 0x3F),
        ch.written(0xFF12, value).register(0xFF12) == value,
{
    crate::bits::lemma_byte_fields(value);
    assert((value | 0x3F) as int == value / 64 * 64 + 0x3F) by (bit_vector);
    super::volume_envelope::lemma_envelope_read_after_write(ch.volume_envelope, value);
}

/// The duty patterns as a table of eight steps each (1 = high).
pub open spec fn duty_table() -> Seq<Seq<u8>> {
    seq![
        seq![0u8, 0, 0, 0, 0, 0, 0, 1],
        seq![0u8, 0, 0, 0, 0, 0, 1, 1],
        seq![0u8, 0, 0, 0, 1, 1, 1, 1],
        seq![1u8, 1, 1, 1, 1, 1, 0, 0],
    ]
}

/// How many of the first `n` steps of duty pattern `w` are high.
pub open spec fn high_steps(w: u8, n: nat) -> nat
    decreases n,
{
    if n == 0 {
        0
    } else {
        high_steps(w, (n - 1) as nat) + if duty(w, (n - 1) as u8) { 1nat } else { 0nat }
    }
}

/// The duty patterns are high on 1, 2, 4 and 6 of their 8 steps (12.5%, 25%,
/// 50%, 75%), at the steps the table gives; pattern 0 only on step 7.
pub proof fn lemma_duty_patterns(w: u8, a: u8)
    requires
        w < 4,
        a < 8,
    ensures
        duty(w, a) <==> duty_table()[w as int][a as int] == 1,
        high_steps(w, 8) == seq![1nat, 2, 4, 6][w as int],
        w == 0 ==> (duty(w, a) <==> a == 7),
{
    reveal_with_fuel(high_steps, 9);
}

/// When the period timer runs out on an enabled channel with its DAC on,
/// the channel outputs its envelope's volume if the table marks the current
/// step of its duty pattern high, and 0 otherwise, and moves to the next of
/// the eight steps.
pub proof fn lemma_square_step_output(ch: SquareChannel)
    requires
        ch.wf(),
        ch.enabled,
        ch.dac_enabled,
        i32::MIN + 4 <= ch.period_timer <= 4,
    ensures
        ch.cycled().sample == (if duty_table()[ch.wave_index as int][ch.amplitude_index as int] == 1 {
            ch.volume_envelope.volume
        } else {
            0
        }),
        ch.cycled().amplitude_index == (ch.amplitude_index + 1) % 8,
{
    lemma_duty_patterns(ch.wave_index, ch.amplitude_index);
}

} // verus!
