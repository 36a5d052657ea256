//! The wave channel (channel 3), which plays 32 four-bit samples from wave
//! RAM.
use vstd::prelude::*;

use super::channel::Channel;
use super::length_timer::LengthTimer;
use super::square::in_first_half;
use crate::memory::SystemMemoryAccess;
use crate::GbMode;

verus! {

/// The number of ticks a full length timer of the wave channel runs.
pub const WAVE_MAX_LENGTH: u16 = 256;

/// Ticks of the wave channel's period divider per M-cycle (it runs at half
/// the T-cycle rate).
pub const WAVE_TICKS_PER_STEP: u16 = 2;

/// Ticks by which a trigger delays the first sample.
pub const TRIGGER_DELAY: u16 = 3;

/// The wave channel's period divider: the period's low byte (NR33), its
/// control register (NR34, with the top three period bits in bits 2-0) and
/// the ticks left until the next sample. `reloaded` records whether the last
/// tick moved to a new sample.
#[derive(Debug, Clone, Copy, PartialEq, Eq, Structural)]
pub struct Period {
    pub low: u8,
    pub high: u8,
    pub timer: u16,
    pub reloaded: bool,
}

impl Period {
    /// The eleven-bit period.
    pub open spec fn value(self) -> int {
        (self.high % 8) * 256 + self.low
    }

    /// The invariant: the timer never exceeds a full period plus the
    /// trigger delay.
    pub open spec fn wf(self) -> bool {
        self.timer <= 2048 + TRIGGER_DELAY
    }

    /// The divider after `ticks` ticks (at most one sample apart): when the
    /// ticks left run out, the timer restarts from the period and a new
    /// sample is due.
    pub open spec fn ticked(self, ticks: u16) -> Period {
        if self.timer > ticks {
            Period { timer: (self.timer - ticks) as u16, reloaded: false, ..self }
        } else {
            Period { timer: (2048 - self.value()) as u16, reloaded: true, ..self }
        }
    }

    /// A cleared divider.
    pub fn new() -> (r: Period)
        ensures
            r == (Period { low: 0, high: 0, timer: 0, reloaded: false }),
    {
        Period { low: 0, high: 0, timer: 0, reloaded: false }
    }

    /// The control register.
    pub fn high(&self) -> (r: u8)
        ensures
            r == self.high,
    {
        self.high
    }

    pub fn set_low(&mut self, value: u8)
        ensures
            *final(self) == (Period { low: value, ..*old(self) }),
    {
        self.low = value;
    }

    pub fn set_high(&mut self, value: u8)
        ensures
            *final(self) == (Period { high: value, ..*old(self) }),
    {
        self.high = value;
    }

    pub fn timer(&self) -> (r: u16)
        ensures
            r == self.timer,
    {
        self.timer
    }

    /// Whether the last tick moved to a new sample.
    pub fn reloaded(&self) -> (r: bool)
        ensures
            r == self.reloaded,
    {
        self.reloaded
    }

    fn reload_value(&self) -> (r: u16)
        ensures
            r == 2048 - self.value(),
    {
        proof {
            lemma_period_register(self.high, self.low);
        }
        2048 - (((self.high & 0x07) as u16) << 8 | self.low as u16)
    }

    /// Advances the divider by `ticks` ticks and says whether a new sample is
    /// due (see `ticked`).
    pub fn cycle(&mut self, ticks: u16) -> (r: bool)
        requires
            old(self).wf(),
        ensures
            final(self).wf(),
            *final(self) == old(self).ticked(ticks),
            r == final(self).reloaded,
    {
        if self.timer > ticks {
            self.timer -= ticks;
            self.reloaded = false;
        } else {
            self.timer = self.reload_value();
            self.reloaded = true;
        }
        self.reloaded
    }

    /// Restarts the divider from the period.
    pub fn trigger(&mut self)
        ensures
            final(self).wf(),
            *final(self) == (Period { timer: (2048 - old(self).value()) as u16, ..*old(self) }),
    {
        self.timer = self.reload_value();
    }

    /// Delays the first sample after a trigger.
    pub fn wave_channel_trigger_delay(&mut self)
        requires
            old(self).timer <= 2048,
        ensures
            final(self).wf(),
            *final(self) == (Period { timer: (old(self).timer + TRIGGER_DELAY) as u16, ..*old(self) }),
    {
        self.timer += TRIGGER_DELAY;
    }
}

proof fn lemma_period_register(high: u8, low: u8)
    by (bit_vector)
    ensures
        (((high & 0x07) as u16) << 8u16 | (low as u16)) == (high % 8) * 256 + low,
        (((high & 0x07) as u16) << 8u16 | (low as u16)) <= 2047,
{
}

/// The wave channel. `div_apu_step` is the frame sequencer's step, which
/// the frame sequencer keeps up to date.
#[derive(Debug, Clone, Copy)]
pub struct WaveChannel {
    pub enabled: bool,
    pub dac_enabled: bool,
    pub length: LengthTimer,
    pub volume: u8,
    pub period: Period,
    pub wave_position: u8,
    pub wave_ram: [u8; 16],
    pub gb_mode: GbMode,
    pub div_apu_step: u8,
}

/// Sample `position` (0 to 31) of wave RAM: the high nibble of a byte comes
/// first.
pub open spec fn wave_sample(ram: Seq<u8>, position: u8) -> u8 {
    if position % 2 == 0 {
        ram[(position / 2) as int] / 16
    } else {
        ram[(position / 2) as int] % 16
    }
}

/// A sample at the output level of bits 6-5 of the volume register: muted,
/// full, half or a quarter.
pub open spec fn leveled(sample: u8, volume: u8) -> u8 {
    let level = volume / 32 % 4;
    if level == 1 {
        sample
    } else if level == 2 {
        sample / 2
    } else if level == 3 {
        sample / 4
    } else {
        0
    }
}

/// Wave RAM after the DMG's trigger corruption: the byte being read, or
/// its aligned group of four, is copied to the start of wave RAM.
pub open spec fn corrupted(ram: Seq<u8>, wave_position: u8) -> Seq<u8> {
    let pos = (wave_position + 1) / 2 % 16;
    if pos < 4 {
        ram.update(0, ram[pos])
    } else {
        let base = pos - pos % 4;
        Seq::new(16, |j: int| if j < 4 { ram[base + j] } else { ram[j] })
    }
}

/// The wave channel as the contracts see it, with wave RAM as a sequence.
#[verifier::ext_equal]
pub struct WaveView {
    pub enabled: bool,
    pub dac_enabled: bool,
    pub length: LengthTimer,
    pub volume: u8,
    pub period: Period,
    pub wave_position: u8,
    pub ram: Seq<u8>,
    pub gb_mode: GbMode,
    pub div_apu_step: u8,
}

impl View for WaveChannel {
    type V = WaveView;

    open spec fn view(&self) -> WaveView {
        WaveView {
            enabled: self.enabled,
            dac_enabled: self.dac_enabled,
            length: self.length,
            volume: self.volume,
            period: self.period,
            wave_position: self.wave_position,
            ram: self.wave_ram@,
            gb_mode: self.gb_mode,
            div_apu_step: self.div_apu_step,
        }
    }
}

impl WaveView {
    /// The channel's invariant: sixteen bytes of wave RAM, a position within
    /// the 32 samples and a divider within a full period.
    pub open spec fn wf(self) -> bool {
        self.ram.len() == 16 && self.wave_position < 32 && self.period.wf()
    }

    /// Whether the length timer runs (bit 6 of the control register).
    pub open spec fn length_enabled(self) -> bool {
        self.period.high & 0x40 != 0
    }

    /// The output: the current sample at the output level while the channel
    /// and its DAC are on, else 0.
    pub open spec fn output(self) -> u8 {
        if self.enabled && self.dac_enabled {
            leveled(wave_sample(self.ram, self.wave_position), self.volume)
        } else {
            0
        }
    }

    /// The channel after one M-cycle: while it is on, the divider runs two
    /// ticks and a due sample moves the position on.
    pub open spec fn cycled(self) -> WaveView {
        if self.enabled {
            let p = self.period.ticked(WAVE_TICKS_PER_STEP);
            WaveView {
                period: p,
                wave_position: if p.reloaded {
                    ((self.wave_position + 1) % 32) as u8
                } else {
                    self.wave_position
                },
                ..self
            }
        } else {
            self
        }
    }

    /// The channel after a tick of its length timer: while it runs, the time
    /// counts down to zero, and at zero the channel is off.
    pub open spec fn length_ticked(self) -> WaveView {
        if self.length_enabled() {
            let t = if self.length.time > 0 { (self.length.time - 1) as u16 } else { 0u16 };
            WaveView { length: LengthTimer { time: t, ..self.length }, enabled: self.enabled && t != 0, ..self }
        } else {
            self
        }
    }

    /// The channel after a new note starts. On the DMG, a trigger while the
    /// channel plays and a sample is one tick away corrupts wave RAM; then
    /// the position restarts, the channel is on if its DAC is, the divider
    /// restarts with the trigger delay and an expired length timer is set to
    /// its full length.
    pub open spec fn triggered(self) -> WaveView {
        WaveView {
            ram: if self.enabled && self.period.timer == 1 && self.gb_mode != GbMode::Color {
                corrupted(self.ram, self.wave_position)
            } else {
                self.ram
            },
            wave_position: 0,
            enabled: self.enabled || self.dac_enabled,
            period: Period { timer: (2048 - self.period.value() + TRIGGER_DELAY) as u16, ..self.period },
            length: if self.length.time == 0 {
                LengthTimer { time: WAVE_MAX_LENGTH, ..self.length }
            } else {
                self.length
            },
            ..self
        }
    }

    /// The channel after power-off.
    pub open spec fn reset_state(self) -> WaveView {
        WaveView {
            enabled: false,
            dac_enabled: false,
            volume: 0,
            period: Period { low: 0, high: 0, timer: 0, reloaded: false },
            length: LengthTimer { enabled: false, time: 0 },
            ..self
        }
    }

    /// The index in wave RAM that an access at `address` reaches: while the
    /// channel plays, the byte being played.
    pub open spec fn ram_index(self, address: u16) -> int {
        if self.enabled {
            (self.wave_position / 2) as int
        } else {
            (address % 16) as int
        }
    }

    /// Whether wave RAM can be reached: always while the channel is off;
    /// while it plays, on the Color model, or on the DMG only just as a
    /// sample is fetched.
    pub open spec fn ram_reachable(self) -> bool {
        !self.enabled || self.period.reloaded || self.gb_mode == GbMode::Color
    }

    /// The channel after a write of its control register (NR34): the top
    /// three period bits, the length enable (bit 6) and the trigger (bit 7).
    /// In the first half of a frame-sequencer period, enabling the length
    /// timer, and a trigger that leaves it full, clock it once more.
    pub open spec fn control_written(self, value: u8) -> WaveView {
        let first_half = in_first_half(self.div_apu_step);
        let s1 = WaveView { period: Period { high: value, ..self.period }, ..self };
        let s2 = if self.period.high & 0x40 == 0 && value & 0x40 != 0 && first_half {
            s1.length_ticked()
        } else {
            s1
        };
        if value & 0x80 != 0 {
            let s3 = s2.triggered();
            if s3.length.time == WAVE_MAX_LENGTH && s3.length_enabled() && first_half {
                s3.length_ticked()
            } else {
                s3
            }
        } else {
            s2
        }
    }

    /// The channel after a write of `value` at `address`.
    pub open spec fn written(self, address: u16, value: u8) -> WaveView {
        if address == 0xFF1A {
            let dac = value & 0x80 != 0;
            WaveView { dac_enabled: dac, enabled: self.enabled && dac, ..self }
        } else if address == 0xFF1B {
            WaveView { length: LengthTimer { time: (WAVE_MAX_LENGTH - value) as u16, ..self.length }, ..self }
        } else if address == 0xFF1C {
            WaveView { volume: value, ..self }
        } else if address == 0xFF1D {
            WaveView { period: Period { low: value, ..self.period }, ..self }
        } else if address == 0xFF1E {
            self.control_written(value)
        } else if 0xFF30 <= address <= 0xFF3F {
            if self.ram_reachable() {
                WaveView { ram: self.ram.update(self.ram_index(address), value), ..self }
            } else {
                self
            }
        } else {
            self
        }
    }

    /// The byte read at `address`: unused bits read as set, the length and
    /// the period cannot be read, and unreachable wave RAM reads 0xFF.
    pub open spec fn register(self, address: u16) -> u8 {
        if address == 0xFF1A {
            if self.dac_enabled {
                0xFF
            } else {
                0x7F
            }
        } else if address == 0xFF1C {
            self.volume | 0x9F
        } else if address == 0xFF1E {
            self.period.high | 0xBF
        } else if 0xFF30 <= address <= 0xFF3F {
            if self.ram_reachable() {
                self.ram[self.ram_index(address)]
            } else {
                0xFF
            }
        } else {
            0xFF
        }
    }
}

} // verus!

verus! {

proof fn lemma_wave_bits(address: u16)
    by (bit_vector)
    ensures
        address & 0x0F == address % 16,
{
}

impl WaveChannel {
    /// A cleared channel for hardware of mode `gb_mode`, as a view.
    pub open spec fn initial(gb_mode: GbMode) -> WaveView {
        WaveView {
            enabled: false,
            dac_enabled: false,
            length: LengthTimer { enabled: false, time: 0 },
            volume: 0,
            period: Period { low: 0, high: 0, timer: 0, reloaded: false },
            wave_position: 1,
            ram: Seq::new(16, |i: int| 0u8),
            gb_mode,
            div_apu_step: 0,
        }
    }

    /// A powered-off channel with wave RAM cleared.
    pub fn new(gb_mode: GbMode) -> (r: WaveChannel)
        ensures
            r@.wf(),
            r@ == WaveChannel::initial(gb_mode),
    {
        let r = WaveChannel {
            enabled: false,
            dac_enabled: false,
            length: LengthTimer::new(),
            volume: 0,
            period: Period::new(),
            wave_position: 1,
            wave_ram: [0; 16],
            gb_mode,
            div_apu_step: 0,
        };
        assert(r.wave_ram@ =~= Seq::new(16, |i: int| 0u8));
        r
    }

    /// Powers the channel off; wave RAM and the position are kept.
    pub fn reset(&mut self)
        requires
            old(self)@.wf(),
        ensures
            final(self)@.wf(),
            final(self)@ == old(self)@.reset_state(),
    {
        self.enabled = false;
        self.dac_enabled = false;
        self.volume = 0;
        self.period = Period::new();

        if self.gb_mode != GbMode::Color {
            self.length.reset();
        } else {
            self.length = LengthTimer::new();
        }
    }

    /// One M-cycle of the channel (see `cycled`).
    pub fn cycle(&mut self)
        requires
            old(self)@.wf(),
        ensures
            final(self)@.wf(),
            final(self)@ == old(self)@.cycled(),
    {
        if self.enabled {
            if self.period.cycle(WAVE_TICKS_PER_STEP) {
                self.wave_position = (self.wave_position + 1) % 32;
            }
        }
    }

    /// Whether a write of the control register enables the length timer:
    /// `value` is the register before the write, with bit 6 clear, and the
    /// register now has it set.
    pub fn cycle_length_on_enable(&self, value: u8) -> (r: bool)
        ensures
            r == (value & 0x40 == 0 && self.period.high & 0x40 != 0),
    {
        (value & 0x40) == 0 && (self.period.high() & 0x40) != 0
    }

    /// Whether a trigger leaves the length timer full while it runs.
    pub fn cycle_clock_length_on_trigger(&self) -> (r: bool)
        ensures
            r == (self.length.time == WAVE_MAX_LENGTH && self@.length_enabled()),
    {
        self.length.time() == WAVE_MAX_LENGTH && (self.period.high() & 0x40) != 0
    }

    /// One tick of the length timer (see `length_ticked`).
    pub fn cycle_length(&mut self)
        ensures
            final(self)@ == old(self)@.length_ticked(),
    {
        let length_timer_enabled = (self.period.high() & 0x40) != 0;
        if length_timer_enabled {
            let t = self.length.time();
            self.length.set_time(if t > 0 {
                t - 1
            } else {
                0
            });
            if self.length.time() == 0 {
                self.enabled = false;
            }
        }
    }

    /// Starts a new note (see `triggered`).
    pub fn trigger(&mut self)
        requires
            old(self)@.wf(),
        ensures
            final(self)@.wf(),
            final(self)@ == old(self)@.triggered(),
    {
        let period_timer = self.period.timer();
        if self.enabled && period_timer == 1 && self.gb_mode != GbMode::Color {
            self.wave_ram_bug();
        }

        self.wave_position = 0;

        if self.dac_enabled {
            self.enabled = true;
        }

        self.period.trigger();
        self.period.wave_channel_trigger_delay();
        if self.length.time() == 0 {
            self.length.set_time(WAVE_MAX_LENGTH);
        }
    }

    /// Whether the control register asks for a new note (bit 7).
    pub fn should_trigger(&self) -> (r: bool)
        ensures
            r == (self.period.high & 0x80 != 0),
    {
        (self.period.high() & 0x80) != 0
    }

    fn write_dac_enabled(&mut self, value: u8)
        ensures
            final(self)@ == old(self)@.written(0xFF1A, value),
    {
        self.dac_enabled = (value & 0x80) != 0;
        if !self.dac_enabled {
            self.enabled = false;
        }
    }

    fn write_length_timer(&mut self, value: u8)
        ensures
            final(self)@ == old(self)@.written(0xFF1B, value),
    {
        self.length.set_time(WAVE_MAX_LENGTH - value as u16);
    }

    fn write_volume(&mut self, value: u8)
        ensures
            final(self)@ == old(self)@.written(0xFF1C, value),
    {
        self.volume = value;
    }

    fn write_period_low(&mut self, value: u8)
        ensures
            final(self)@ == old(self)@.written(0xFF1D, value),
    {
        self.period.set_low(value);
    }

    fn write_period_high(&mut self, value: u8)
        requires
            old(self)@.wf(),
        ensures
            final(self)@.wf(),
            final(self)@ == old(self)@.control_written(value),
    {
        let period_high = self.period.high();
        self.period.set_high(value);

        let period_in_first_half = self.div_apu_step == 1 || self.div_apu_step == 3 || self.div_apu_step == 5
            || self.div_apu_step == 7;
        if self.cycle_length_on_enable(period_high) && period_in_first_half {
            self.cycle_length();
        }

        if self.should_trigger() {
            self.trigger();

            if self.cycle_clock_length_on_trigger() && period_in_first_half {
                self.cycle_length();
            }
        }
    }

    /// The wave RAM byte that a read at `address` sees (0xFF when it cannot
    /// be reached).
    pub fn read_wave_ram(&self, address: u16) -> (r: u8)
        requires
            self@.wf(),
        ensures
            r == (if self@.ram_reachable() { self@.ram[self@.ram_index(address)] } else { 0xFF }),
    {
        proof {
            lemma_wave_bits(address);
        }
        let mut wave_index = (address & 0xF) as u8;
        if self.enabled {
            wave_index = self.wave_position / 2;
            match self.period.reloaded() || self.gb_mode == GbMode::Color {
                true => self.wave_ram[wave_index as usize],
                false => 0xFF,
            }
        } else {
            self.wave_ram[wave_index as usize]
        }
    }

    /// Writes the wave RAM byte that a write at `address` reaches, if it can
    /// be reached.
    pub fn write_wave_ram(&mut self, address: u16, value: u8)
        requires
            old(self)@.wf(),
            0xFF30 <= address <= 0xFF3F,
        ensures
            final(self)@.wf(),
            final(self)@ == old(self)@.written(address, value),
    {
        proof {
            lemma_wave_bits(address);
        }
        let mut wave_index = (address & 0xF) as u8;
        if self.enabled {
            wave_index = self.wave_position / 2;
            if self.period.reloaded() || self.gb_mode == GbMode::Color {
                self.wave_ram[wave_index as usize] = value;
            }
        } else {
            self.wave_ram[wave_index as usize] = value;
        }
        assert(self.wave_ram@ =~= old(self)@.written(address, value).ram);
    }

    fn wave_ram_bug(&mut self)
        requires
            old(self)@.wf(),
        ensures
            final(self)@ == (WaveView { ram: corrupted(old(self)@.ram, old(self).wave_position), ..old(self)@ }),
    {
        let wave_position = (((self.wave_position + 1) / 2) % 16) as usize;
        if wave_position < 4 {
            self.wave_ram[0] = self.wave_ram[wave_position];
            assert(self.wave_ram@ =~= corrupted(old(self)@.ram, old(self).wave_position));
        } else {
            let position = wave_position - wave_position % 4;
            let ghost orig = self.wave_ram@;
            let mut ram = self.wave_ram;
            for i in 0..4
                invariant
                    position == wave_position - wave_position % 4,
                    4 <= position <= 12,
                    orig.len() == 16,
                    ram@.len() == 16,
                    forall|j: int| 0 <= j < i ==> ram@[j] == orig[position + j],
                    forall|j: int| i <= j < 16 ==> ram@[j] == orig[j],
            {
                ram[i] = ram[position + i];
            }
            self.wave_ram = ram;
            assert(self.wave_ram@ =~= corrupted(old(self)@.ram, old(self).wave_position));
        }
    }
}

impl Channel for WaveChannel {
    open spec fn inv(&self) -> bool {
        self@.wf()
    }

    fn cycle(&mut self)
        ensures
            final(self)@ == old(self)@.cycled(),
    {
        WaveChannel::cycle(self)
    }

    fn length_timer_cycle(&mut self)
        ensures
            final(self)@ == old(self)@.length_ticked(),
    {
        self.cycle_length()
    }

    /// The wave channel has no envelope: nothing happens.
    fn volume_envelope_cycle(&mut self)
        ensures
            *final(self) == *old(self),
    {
    }

    fn trigger(&mut self)
        ensures
            final(self)@ == old(self)@.triggered(),
    {
        WaveChannel::trigger(self)
    }

    fn reset(&mut self)
        ensures
            final(self)@ == old(self)@.reset_state(),
    {
        WaveChannel::reset(self)
    }

    fn enabled(&self) -> (r: bool)
        ensures
            r == self.enabled,
    {
        self.enabled
    }

    fn sample(&self) -> (r: u8)
        ensures
            r == self@.output(),
    {
        if self.enabled && self.dac_enabled {
            let byte = self.wave_ram[(self.wave_position / 2) as usize];
            let sample = if self.wave_position % 2 == 0 {
                byte >> 4
            } else {
                byte & 0x0F
            };
            proof {
                crate::bits::lemma_byte_fields(byte);
                crate::bits::lemma_byte_fields(self.volume);
                crate::bits::lemma_byte_fields(sample);
                crate::bits::lemma_byte_fields(self.volume >> 5);
            }
            let output_level = (self.volume >> 5) & 0b11;
            match output_level {
                1 => sample,
                2 => sample >> 1,
                3 => sample >> 2,
                _ => 0,
            }
        } else {
            0
        }
    }
}

impl SystemMemoryAccess for WaveChannel {
    open spec fn inv(&self) -> bool {
        self@.wf()
    }

    open spec fn byte_at(&self, address: u16) -> u8 {
        self@.register(address)
    }

    fn read_8(&self, address: u16) -> (r: u8) {
        match address {
            0xFF1A => match self.dac_enabled {
                true => 0xFF,
                false => 0x7F,
            },
            0xFF1C => self.volume | 0x9F,
            0xFF1E => self.period.high() | 0xBF,
            0xFF30..=0xFF3F => self.read_wave_ram(address),
            _ => 0xFF,
        }
    }

    fn write_8(&mut self, address: u16, value: u8)
        ensures
            final(self)@ == old(self)@.written(address, value),
    {
        match address {
            0xFF1A => self.write_dac_enabled(value),
            0xFF1B => self.write_length_timer(value),
            0xFF1C => self.write_volume(value),
            0xFF1D => self.write_period_low(value),
            0xFF1E => self.write_period_high(value),
            0xFF30..=0xFF3F => self.write_wave_ram(address, value),
            _ => {},
        }
    }
}

/// While the channel is off, a read of wave RAM gives back the byte last
/// written at that address, and a write leaves the other bytes as they were.
pub proof fn lemma_wave_ram_read_after_write(ch: WaveView, address: u16, other: u16, value: u8)
    requires
        ch.wf(),
        !ch.enabled,
        0xFF30 <= address <= 0xFF3F,
        0xFF30 <= other <= 0xFF3F,
    ensures
        ch.written(address, value).register(address) == value,
        other != address ==> ch.written(address, value).register(other) == ch.register(other),
{
}

/// Each byte of wave RAM holds two samples, the earlier one in its high
/// nibble, and the output level of the volume register (bits 6-5) mutes (00),
/// plays at full (01), halves (10) or quarters (11) a sample.
pub proof fn lemma_wave_samples_and_levels(ram: Seq<u8>, k: u8, sample: u8)
    requires
        ram.len() == 16,
        k < 16,
        sample < 16,
    ensures
        wave_sample(ram, (2 * k) as u8) * 16 + wave_sample(ram, (2 * k + 1) as u8) == ram[k as int],
        wave_sample(ram, (2 * k) as u8) < 16,
        wave_sample(ram, (2 * k + 1) as u8) < 16,
        leveled(sample, 0x00) == 0,
        leveled(sample, 0x20) == sample,
        leveled(sample, 0x40) * 2 + sample % 2 == sample,
        leveled(sample, 0x60) * 4 + sample % 4 == sample,
{
}

} // verus!
