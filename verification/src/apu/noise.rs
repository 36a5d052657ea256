//! The noise channel (channel 4), driven by a linear-feedback shift register.
use vstd::prelude::*;

use super::channel::Channel;
use super::length_timer::LengthTimer;
use super::square::in_first_half;
use super::volume_envelope::VolumeEnvelope;
use crate::memory::SystemMemoryAccess;
use crate::{GbMode, T_CYCLES_PER_STEP};

verus! {

/// The number of ticks a full length timer of the noise channel runs.
pub const NOISE_LENGTH_MAX: u16 = 64;

/// The noise channel. `div_apu_step` is the frame sequencer's step, which
/// the frame sequencer keeps up to date.
#[derive(Debug, Clone, Copy, PartialEq, Eq, Structural)]
pub struct NoiseChannel {
    pub enabled: bool,
    pub dac_enabled: bool,
    pub length: LengthTimer,
    pub envelope: VolumeEnvelope,
    pub polynomial: u8,
    pub lfsr: u16,
    pub control: u8,
    pub period_divider: u16,
    pub instruction_cycles: u16,
    pub gb_mode: GbMode,
    pub div_apu_step: u8,
}

/// The clock divisor that the low three bits of the polynomial register
/// select: 8 for 0, else sixteen times the value.
pub open spec fn divisor(polynomial: u8) -> u16 {
    if polynomial & 0x07 == 0 {
        8
    } else {
        ((polynomial & 0x07) as u16) << 4u16
    }
}

/// The T-cycles between two shifts of the register: the divisor shifted left
/// by the high four bits of the polynomial register, within sixteen bits.
pub open spec fn period_timer_spec(polynomial: u8) -> u16 {
    divisor(polynomial) << ((polynomial & 0xF0) >> 4u8)
}

/// The register after one shift: the complement of the exclusive or of its
/// two low bits is or-ed into bit 15 (and into bit 7 in 7-bit mode, bit 3 of
/// the polynomial register), then everything moves one bit right.
pub open spec fn next_lfsr_spec(lfsr: u16, polynomial: u8) -> u16 {
    let result = (!((lfsr & 1) ^ ((lfsr & 2) >> 1u16))) & 1;
    let wide = lfsr | (result << 15u16);
    let next = if polynomial & 0x08 != 0 {
        wide | (result << 7u16)
    } else {
        wide
    };
    next >> 1u16
}

proof fn lemma_period_timer_bound(polynomial: u8)
    by (bit_vector)
    ensures
        (polynomial & 0xF0) >> 4u8 < 16,
        (if polynomial & 0x07 == 0 { 8u16 } else { ((polynomial & 0x07) as u16) << 4u16 }) << ((polynomial & 0xF0) >> 4u8)
            <= 0xE000,
{
}

impl NoiseChannel {
    /// The channel's invariant: a valid envelope, and the cycle counters
    /// within the longest period.
    pub open spec fn wf(self) -> bool {
        &&& self.envelope.wf()
        &&& self.period_divider <= 0xE000
        &&& self.instruction_cycles <= 0xE000
    }

    /// Whether the length timer runs (bit 6 of the control register).
    pub open spec fn length_enabled(self) -> bool {
        self.control & 0x40 != 0
    }

    /// The output: the low bit of the register at the envelope's volume
    /// while the channel and its DAC are on, else 0.
    pub open spec fn output(self) -> u8 {
        if self.enabled && self.dac_enabled {
            if self.lfsr & 1 == 1 {
                self.envelope.volume
            } else {
                0
            }
        } else {
            0
        }
    }

    /// The channel after one M-cycle: when the cycle count reaches the
    /// period, it restarts, the period is reloaded from the polynomial
    /// register and the register shifts.
    pub open spec fn cycled(self) -> NoiseChannel {
        let c = self.instruction_cycles + 4;
        if c >= self.period_divider {
            NoiseChannel {
                instruction_cycles: 0,
                period_divider: period_timer_spec(self.polynomial),
                lfsr: next_lfsr_spec(self.lfsr, self.polynomial),
                ..self
            }
        } else {
            NoiseChannel { instruction_cycles: c as u16, ..self }
        }
    }

    /// The channel after a tick of its length timer: while bit 6 of the
    /// control register is set, the time counts down to zero, and at zero
    /// the channel is off.
    pub open spec fn length_ticked(self) -> NoiseChannel {
        if self.length_enabled() {
            let t = if self.length.time > 0 { (self.length.time - 1) as u16 } else { 0u16 };
            NoiseChannel {
                length: LengthTimer { time: t, ..self.length },
                enabled: self.enabled && t != 0,
                ..self
            }
        } else {
            self
        }
    }

    /// The channel after a tick of its envelope, which only runs while the
    /// channel is on.
    pub open spec fn envelope_ticked(self) -> NoiseChannel {
        if self.enabled {
            NoiseChannel { envelope: self.envelope.stepped(), ..self }
        } else {
            self
        }
    }

    /// The channel after a new note starts: on if its DAC is, the period
    /// reloaded, the register cleared, an expired length timer set to its
    /// full length and the envelope restarted.
    pub open spec fn triggered(self) -> NoiseChannel {
        NoiseChannel {
            enabled: self.enabled || self.dac_enabled,
            period_divider: period_timer_spec(self.polynomial),
            lfsr: 0,
            length: if self.length.time == 0 {
                LengthTimer { time: NOISE_LENGTH_MAX, ..self.length }
            } else {
                self.length
            },
            envelope: self.envelope.restarted(),
            ..self
        }
    }

    /// The channel after power-off.
    pub open spec fn reset_state(self) -> NoiseChannel {
        NoiseChannel {
            enabled: false,
            dac_enabled: false,
            envelope: VolumeEnvelope { initial_volume: 0, direction: false, pace: 0, volume: 0, timer: 0 },
            polynomial: 0,
            lfsr: 0,
            control: 0,
            period_divider: 0,
            instruction_cycles: 0,
            length: LengthTimer { enabled: false, time: 0 },
            ..self
        }
    }

    /// The channel after a write of its control register: bit 6 enables the
    /// length timer and bit 7 triggers a note. In the first half of a
    /// frame-sequencer period, enabling the length timer, and a trigger that
    /// leaves it full, clock it once more.
    pub open spec fn control_written(self, value: u8) -> NoiseChannel {
        let first_half = in_first_half(self.div_apu_step);
        let s1 = NoiseChannel { control: value, ..self };
        let s2 = if self.control & 0x40 == 0 && value & 0x40 != 0 && first_half {
            s1.length_ticked()
        } else {
            s1
        };
        if value & 0x80 != 0 {
            let s3 = s2.triggered();
            if s3.length.time == NOISE_LENGTH_MAX && s3.length_enabled() && first_half {
                s3.length_ticked()
            } else {
                s3
            }
        } else {
            s2
        }
    }

    /// The channel after a write of `value` at `address`.
    pub open spec fn written(self, address: u16, value: u8) -> NoiseChannel {
        if address == 0xFF20 {
            NoiseChannel {
                length: LengthTimer { time: (NOISE_LENGTH_MAX - value % 64) as u16, ..self.length },
                ..self
            }
        } else if address == 0xFF21 {
            let env = self.envelope.written(value).restarted();
            let dac = !(env.initial_volume == 0 && !env.direction);
            NoiseChannel { envelope: env, dac_enabled: dac, enabled: self.enabled && dac, ..self }
        } else if address == 0xFF22 {
            NoiseChannel { polynomial: value, ..self }
        } else if address == 0xFF23 {
            self.control_written(value)
        } else {
            self
        }
    }

    /// The byte read at `address`: only the envelope, the polynomial
    /// register and the length enable can be read.
    pub open spec fn register(self, address: u16) -> u8 {
        if address == 0xFF21 {
            self.envelope.register() as u8
        } else if address == 0xFF22 {
            self.polynomial
        } else if address == 0xFF23 {
            self.control | 0xBF
        } else {
            0xFF
        }
    }

    /// A cleared channel for hardware of mode `gb_mode`.
    pub open spec fn initial(gb_mode: GbMode) -> NoiseChannel {
        NoiseChannel {
            enabled: false,
            dac_enabled: false,
            length: LengthTimer { enabled: false, time: 0 },
            envelope: VolumeEnvelope { initial_volume: 0, direction: false, pace: 0, volume: 0, timer: 0 },
            polynomial: 0,
            lfsr: 0,
            control: 0,
            period_divider: 0,
            instruction_cycles: 0,
            gb_mode,
            div_apu_step: 0,
        }
    }

    /// A powered-off noise channel.
    pub fn new(gb_mode: GbMode) -> (r: NoiseChannel)
        ensures
            r.wf(),
            r == NoiseChannel::initial(gb_mode),
    {
        NoiseChannel {
            enabled: false,
            dac_enabled: false,
            length: LengthTimer::new(),
            envelope: VolumeEnvelope::new(),
            polynomial: 0,
            lfsr: 0,
            control: 0,
            period_divider: 0,
            instruction_cycles: 0,
            gb_mode,
            div_apu_step: 0,
        }
    }

    /// Powers the channel off.
    pub fn reset(&mut self)
        ensures
            final(self).wf(),
            *final(self) == old(self).reset_state(),
    {
        self.enabled = false;
        self.dac_enabled = false;
        self.envelope = VolumeEnvelope::new();
        self.polynomial = 0;
        self.lfsr = 0;
        self.control = 0;
        self.period_divider = 0;
        self.instruction_cycles = 0;

        if self.gb_mode != GbMode::Color {
            self.length.reset();
        } else {
            self.length = LengthTimer::new();
        }
    }

    fn period_timer(&self) -> (r: u16)
        ensures
            r == period_timer_spec(self.polynomial),
            r <= 0xE000,
    {
        proof {
            lemma_period_timer_bound(self.polynomial);
        }
        let clock_shift = (self.polynomial & 0xF0) >> 4;
        let clock_divider = self.polynomial & 0x07;
        let divisor: u16 = if clock_divider == 0 {
            8
        } else {
            (clock_divider as u16) << 4
        };
        divisor << clock_shift
    }

    fn next_lfsr(&self) -> (r: u16)
        ensures
            r == next_lfsr_spec(self.lfsr, self.polynomial),
    {
        let narrow_width = (self.polynomial & 0x08) != 0;
        let first_lfsr_bit = self.lfsr & 1;
        let second_lfsr_bit = (self.lfsr & 2) >> 1;
        let result: u16 = (!(first_lfsr_bit ^ second_lfsr_bit)) & 1;

        let mut next_lfsr = self.lfsr | (result << 15);

        if narrow_width {
            next_lfsr |= result << 7;
        }

        next_lfsr >> 1
    }

    /// One M-cycle of the channel (see `cycled`).
    pub fn cycle(&mut self)
        requires
            old(self).wf(),
        ensures
            final(self).wf(),
            *final(self) == old(self).cycled(),
    {
        self.instruction_cycles += T_CYCLES_PER_STEP as u16;
        if self.instruction_cycles >= self.period_divider {
            self.instruction_cycles = 0;
            self.period_divider = self.period_timer();
            self.lfsr = self.next_lfsr();
        }
    }

    /// One tick of the envelope, while the channel is on.
    pub fn cycle_envelope(&mut self)
        requires
            old(self).wf(),
        ensures
            final(self).wf(),
            *final(self) == old(self).envelope_ticked(),
    {
        if self.enabled {
            self.envelope.cycle();
        }
    }

    /// Whether a write of the control register enables the length timer:
    /// `value` is the register before the write, with bit 6 clear, and the
    /// register now has it set.
    pub fn cycle_length_on_enable(&self, value: u8) -> (r: bool)
        ensures
            r == (value & 0x40 == 0 && self.control & 0x40 != 0),
    {
        (value & 0x40) == 0 && (self.control & 0x40) != 0
    }

    /// Whether a trigger leaves the length timer full while it runs.
    pub fn cycle_length_on_trigger(&self) -> (r: bool)
        ensures
            r == (self.length.time == NOISE_LENGTH_MAX && self.length_enabled()),
    {
        self.length.time() == NOISE_LENGTH_MAX && (self.control & 0x40) != 0
    }

    /// One tick of the length timer (see `length_ticked`).
    pub fn cycle_length(&mut self)
        ensures
            *final(self) == old(self).length_ticked(),
    {
        if (self.control & 0x40) != 0 {
            let t = self.length.time();
            self.length.set_time(if t > 0 {
                t - 1
            } else {
                0
            });
            if self.length.time() == 0 {
                self.enabled = false;
            }
        }
    }

    /// Starts a new note (see `triggered`).
    pub fn trigger(&mut self)
        requires
            old(self).wf(),
        ensures
            final(self).wf(),
            *final(self) == old(self).triggered(),
    {
        if self.dac_enabled {
            self.enabled = true;
        }
        self.period_divider = self.period_timer();
        self.lfsr = 0;
        if self.length.time() == 0 {
            self.length.set_time(NOISE_LENGTH_MAX);
        }
        self.envelope.reset();
    }

    /// Whether the control register asks for a new note (bit 7).
    pub fn should_trigger(&self) -> (r: bool)
        ensures
            r == (self.control & 0x80 != 0),
    {
        (self.control & 0x80) != 0
    }

    fn write_length_timer(&mut self, value: u8)
        ensures
            *final(self) == old(self).written(0xFF20, value),
    {
        proof {
            crate::bits::lemma_byte_fields(value);
        }
        self.length.set_time(NOISE_LENGTH_MAX - (value & 0x3F) as u16);
    }

    fn write_volume_envolope(&mut self, value: u8)
        requires
            old(self).wf(),
        ensures
            final(self).wf(),
            *final(self) == old(self).written(0xFF21, value),
    {
        self.envelope.write(value);
        self.envelope.reset();

        self.dac_enabled = !self.envelope.disable_dac();
        if !self.dac_enabled {
            self.enabled = false;
        }
    }

    fn write_polynomial(&mut self, value: u8)
        ensures
            *final(self) == old(self).written(0xFF22, value),
    {
        self.polynomial = value;
    }

    fn write_control(&mut self, value: u8)
        requires
            old(self).wf(),
        ensures
            final(self).wf(),
            *final(self) == old(self).control_written(value),
    {
        let control = self.control;
        self.control = value;

        let period_in_first_half = self.div_apu_step == 1 || self.div_apu_step == 3 || self.div_apu_step == 5
            || self.div_apu_step == 7;
        if self.cycle_length_on_enable(control) && period_in_first_half {
            self.cycle_length();
        }

        if self.should_trigger() {
            self.trigger();

            if self.cycle_length_on_trigger() && period_in_first_half {
                self.cycle_length();
            }
        }
    }
}

impl Channel for NoiseChannel {
    open spec fn inv(&self) -> bool {
        self.wf()
    }

    fn cycle(&mut self)
        ensures
            *final(self) == old(self).cycled(),
    {
        NoiseChannel::cycle(self)
    }

    fn length_timer_cycle(&mut self)
        ensures
            *final(self) == old(self).length_ticked(),
    {
        self.cycle_length()
    }

    fn volume_envelope_cycle(&mut self)
        ensures
            *final(self) == old(self).envelope_ticked(),
    {
        self.cycle_envelope()
    }

    fn trigger(&mut self)
        ensures
            *final(self) == old(self).triggered(),
    {
        NoiseChannel::trigger(self)
    }

    fn reset(&mut self)
        ensures
            *final(self) == old(self).reset_state(),
    {
        NoiseChannel::reset(self)
    }

    fn enabled(&self) -> (r: bool)
        ensures
            r == self.enabled,
    {
        self.enabled
    }

    fn sample(&self) -> (r: u8)
        ensures
            r == self.output(),
    {
        if self.enabled && self.dac_enabled {
            if self.lfsr & 1 == 1 {
                self.envelope.volume
            } else {
                0
            }
        } else {
            0
        }
    }
}

impl SystemMemoryAccess for NoiseChannel {
    open spec fn inv(&self) -> bool {
        self.wf()
    }

    open spec fn byte_at(&self, address: u16) -> u8 {
        self.register(address)
    }

    fn read_8(&self, address: u16) -> (r: u8) {
        match address {
            0xFF21 => self.envelope.read(),
            0xFF22 => self.polynomial,
            0xFF23 => self.control | 0xBF,
            _ => 0xFF,
        }
    }

    fn write_8(&mut self, address: u16, value: u8)
        ensures
            *final(self) == old(self).written(address, value),
    {
        match address {
            0xFF20 => self.write_length_timer(value),
            0xFF21 => self.write_volume_envolope(value),
            0xFF22 => self.write_polynomial(value),
            0xFF23 => self.write_control(value),
            _ => {},
        }
    }
}

/// One shift of the noise register moves every bit one place down; the
/// feedback bit (1 when the two low bits were equal, 0 when they differed)
/// is or-ed into the new bit 14, and in 7-bit mode (bit 3 of the polynomial
/// register) into the new bit 6 as well.
pub proof fn lemma_lfsr_shift(lfsr: u16, polynomial: u8)
    by (bit_vector)
    ensures
        (next_lfsr_spec(lfsr, polynomial) >> 14u16) & 1 == ((lfsr >> 15u16) & 1) | (if lfsr & 1 == (lfsr >> 1u16)
            & 1 {
            1u16
        } else {
            0u16
        }),
        next_lfsr_spec(lfsr, polynomial) & 0x3FBF == (lfsr >> 1u16) & 0x3FBF,
        polynomial & 0x08 == 0 ==> next_lfsr_spec(lfsr, polynomial) & 0x40 == (lfsr >> 1u16) & 0x40,
        polynomial & 0x08 != 0 ==> (next_lfsr_spec(lfsr, polynomial) >> 6u16) & 1 == ((lfsr >> 7u16) & 1) | (if lfsr
            & 1 == (lfsr >> 1u16) & 1 {
            1u16
        } else {
            0u16
        }),
{
}

} // verus!
