//! The audio processing unit: the length timer, volume envelope and sweep
//! units, the square, noise and wave channels, the frame sequencer and the
//! mixer, and the unit that holds them and its registers.
use vstd::prelude::*;

use self::channel::Channel;
use self::div_apu::{DivApu, DivApuContext};
use self::noise::NoiseChannel;
use self::square::SquareChannel;
use self::wave::{WaveChannel, WaveView};
use crate::memory::SystemMemoryAccess;
use crate::{GbMode, GbSpeed};

pub mod channel;
pub mod div_apu;
pub mod frame_sequencer;
pub mod length_timer;
pub mod mixer;
pub mod noise;
pub mod square;
pub mod sweep;
pub mod volume_envelope;
pub mod wave;

verus! {

/// The audio unit: the four channels, the DIV-APU counter, the master
/// volume (NR50), the panning (NR51) and the power switch (NR52).
pub struct Apu {
    pub ch1: SquareChannel,
    pub ch2: SquareChannel,
    pub ch3: WaveChannel,
    pub ch4: NoiseChannel,
    pub div_apu: DivApu,
    pub sound_panning: u8,
    pub master_volume: u8,
    pub enabled: bool,
    pub gb_mode: GbMode,
}

/// The audio unit as the contracts see it (wave RAM as a sequence).
#[verifier::ext_equal]
pub struct ApuView {
    pub ch1: SquareChannel,
    pub ch2: SquareChannel,
    pub ch3: WaveView,
    pub ch4: NoiseChannel,
    pub div_apu: DivApu,
    pub sound_panning: u8,
    pub master_volume: u8,
    pub enabled: bool,
    pub gb_mode: GbMode,
}

impl View for Apu {
    type V = ApuView;

    open spec fn view(&self) -> ApuView {
        ApuView {
            ch1: self.ch1,
            ch2: self.ch2,
            ch3: self.ch3@,
            ch4: self.ch4,
            div_apu: self.div_apu,
            sound_panning: self.sound_panning,
            master_volume: self.master_volume,
            enabled: self.enabled,
            gb_mode: self.gb_mode,
        }
    }
}

impl ApuView {
    /// The unit after power-off: every channel powered off and seeing step
    /// 0, the counter at step 0, volume and panning cleared.
    pub open spec fn reset_state(self) -> ApuView {
        ApuView {
            ch1: SquareChannel { div_apu_step: 0, ..self.ch1.reset_state() },
            ch2: SquareChannel { div_apu_step: 0, ..self.ch2.reset_state() },
            ch3: WaveView { div_apu_step: 0, ..self.ch3.reset_state() },
            ch4: NoiseChannel { div_apu_step: 0, ..self.ch4.reset_state() },
            div_apu: DivApu { step: 0, ..self.div_apu },
            sound_panning: 0,
            master_volume: 0,
            ..self
        }
    }

    /// The unit after a write of `value` at `address`. While powered off
    /// only NR52 and wave RAM take writes; writing NR52 with bit 7 clear
    /// powers the unit off.
    pub open spec fn written(self, address: u16, value: u8) -> ApuView {
        if !self.enabled && address != 0xFF26 && !(0xFF30 <= address <= 0xFF3F) {
            self
        } else if 0xFF10 <= address <= 0xFF14 {
            ApuView { ch1: self.ch1.written(address, value), ..self }
        } else if 0xFF16 <= address <= 0xFF19 {
            ApuView { ch2: self.ch2.written(address, value), ..self }
        } else if 0xFF1A <= address <= 0xFF1E {
            ApuView { ch3: self.ch3.written(address, value), ..self }
        } else if 0xFF20 <= address <= 0xFF23 {
            ApuView { ch4: self.ch4.written(address, value), ..self }
        } else if address == 0xFF24 {
            if self.enabled { ApuView { master_volume: value, ..self } } else { self }
        } else if address == 0xFF25 {
            if self.enabled { ApuView { sound_panning: value, ..self } } else { self }
        } else if address == 0xFF26 {
            if value & 0x80 != 0 {
                ApuView { enabled: true, ..self }
            } else {
                ApuView { enabled: false, ..self }.reset_state()
            }
        } else if 0xFF30 <= address <= 0xFF3F {
            ApuView { ch3: self.ch3.written(address, value), ..self }
        } else {
            self
        }
    }
}

proof fn lemma_sample_pair(hi: u8, lo: u8)
    by (bit_vector)
    requires
        hi < 16,
        lo < 16,
    ensures
        (hi << 4u8) | lo == hi * 16 + lo,
{
}

impl Apu {
    /// The unit's invariant: each channel's, and every channel sees the
    /// DIV-APU step.
    pub open spec fn wf(self) -> bool {
        &&& self.ch1.wf()
        &&& self.ch2.wf()
        &&& self.ch3@.wf()
        &&& self.ch4.wf()
        &&& self.div_apu.wf()
        &&& self.ch1.div_apu_step == self.div_apu.step
        &&& self.ch2.div_apu_step == self.div_apu.step
        &&& self.ch3.div_apu_step == self.div_apu.step
        &&& self.ch4.div_apu_step == self.div_apu.step
    }

    /// NR52 as read: the power switch in bit 7, bits 6-4 set, and whether
    /// each channel is on in bits 3-0.
    pub open spec fn master_control_spec(self) -> u8 {
        ((if self.enabled { 0x80int } else { 0 }) + 0x70 + (if self.ch4.enabled { 8int } else { 0 }) + (if self.ch3.enabled {
            4int
        } else {
            0
        }) + (if self.ch2.enabled { 2int } else { 0 }) + (if self.ch1.enabled { 1int } else { 0 })) as u8
    }

    /// The byte a read at `address` returns.
    pub open spec fn register(self, address: u16) -> u8 {
        if 0xFF10 <= address <= 0xFF14 {
            self.ch1.register(address)
        } else if 0xFF16 <= address <= 0xFF19 {
            self.ch2.register(address)
        } else if 0xFF1A <= address <= 0xFF1E {
            self.ch3@.register(address)
        } else if 0xFF20 <= address <= 0xFF23 {
            self.ch4.register(address)
        } else if address == 0xFF24 {
            self.master_volume
        } else if address == 0xFF25 {
            self.sound_panning
        } else if address == 0xFF26 {
            self.master_control_spec()
        } else if 0xFF30 <= address <= 0xFF3F {
            self.ch3@.register(address)
        } else if address == 0xFF76 {
            (self.ch2.output() * 16 + self.ch1.output()) as u8
        } else if address == 0xFF77 {
            (self.ch4.output() * 16 + self.ch3@.output()) as u8
        } else {
            0xFF
        }
    }

    /// A powered-off unit with every channel cleared.
    pub fn new(gb_mode: GbMode) -> (r: Apu)
        ensures
            r.wf(),
            !r.enabled,
            r.sound_panning == 0,
            r.master_volume == 0,
            r.gb_mode == gb_mode,
            r.ch1 == SquareChannel::initial(true),
            r.ch2 == SquareChannel::initial(false),
            r@.ch3 == WaveChannel::initial(gb_mode),
            r.ch4 == NoiseChannel::initial(gb_mode),
            r.div_apu == (DivApu { step: 0, div_bit: false }),
    {
        Apu {
            ch1: SquareChannel::new(true),
            ch2: SquareChannel::new(false),
            ch3: WaveChannel::new(gb_mode),
            ch4: NoiseChannel::new(gb_mode),
            div_apu: DivApu::new(),
            sound_panning: 0,
            master_volume: 0,
            enabled: false,
            gb_mode,
        }
    }

    /// One M-cycle: while powered, the DIV-APU counter samples the divider
    /// (see `DivApu::cycle`) and then every channel runs an M-cycle.
    pub fn cycle(&mut self, div: u8, speed: GbSpeed)
        requires
            old(self).wf(),
        ensures
            final(self).wf(),
            !old(self).enabled ==> final(self).ch1 == old(self).ch1 && final(self).ch2 == old(self).ch2
                && final(self).ch3@ == old(self).ch3@ && final(self).ch4 == old(self).ch4
                && final(self).div_apu == old(self).div_apu,
            final(self).enabled == old(self).enabled,
            final(self).sound_panning == old(self).sound_panning,
            final(self).master_volume == old(self).master_volume,
            old(self).enabled ==> ({
                let (d, c1, c2, c3, c4) = div_apu::div_apu_stepped(
                    old(self).div_apu,
                    old(self).ch1,
                    old(self).ch2,
                    old(self).ch3@,
                    old(self).ch4,
                    div,
                    speed,
                );
                &&& final(self).div_apu == d
                &&& final(self).ch1 == c1.cycled()
                &&& final(self).ch2 == c2.cycled()
                &&& final(self).ch3@ == c3.cycled()
                &&& final(self).ch4 == c4.cycled()
            }),
    {
        if !self.enabled {
            return;
        }
        let mut ctx = DivApuContext { ch1: self.ch1, ch2: self.ch2, ch3: self.ch3, ch4: self.ch4, div, speed };
        self.div_apu.cycle(&mut ctx);
        self.ch1 = ctx.ch1;
        self.ch2 = ctx.ch2;
        self.ch3 = ctx.ch3;
        self.ch4 = ctx.ch4;

        self.ch1.cycle();
        self.ch2.cycle();
        self.ch3.cycle();
        self.ch4.cycle();
    }

    /// NR52 as read (see `master_control_spec`).
    pub fn master_control(&self) -> (r: u8)
        ensures
            r == self.master_control_spec(),
    {
        let power: u8 = if self.enabled { 0x80 } else { 0 };
        let ch4: u8 = if self.ch4.enabled { 8 } else { 0 };
        let ch3: u8 = if self.ch3.enabled { 4 } else { 0 };
        let ch2: u8 = if self.ch2.enabled() { 2 } else { 0 };
        let ch1: u8 = if self.ch1.enabled() { 1 } else { 0 };
        power + 0x70 + ch4 + ch3 + ch2 + ch1
    }

    /// Writes NR52: bit 7 switches the unit on or off, and switching it off
    /// powers everything off.
    pub fn set_master_control(&mut self, value: u8)
        requires
            old(self).wf(),
        ensures
            final(self).wf(),
            final(self)@ == old(self)@.written(0xFF26, value),
    {
        self.enabled = value & 0x80 != 0;
        if !self.enabled {
            self.reset();
        }
    }

    /// Writes NR50, while the unit is on.
    pub fn set_master_volume(&mut self, value: u8)
        ensures
            final(self)@ == (if old(self).enabled { ApuView { master_volume: value, ..old(self)@ } } else { old(self)@ }),
    {
        if !self.enabled {
            return;
        }
        self.master_volume = value
    }

    /// Writes NR51, while the unit is on.
    pub fn set_sound_panning(&mut self, value: u8)
        ensures
            final(self)@ == (if old(self).enabled { ApuView { sound_panning: value, ..old(self)@ } } else { old(self)@ }),
    {
        if !self.enabled {
            return;
        }
        self.sound_panning = value
    }

    /// Powers every channel and the counter off (see `reset_state`).
    pub fn reset(&mut self)
        requires
            old(self).wf(),
        ensures
            final(self).wf(),
            final(self)@ == old(self)@.reset_state(),
    {
        self.ch1.reset();
        self.ch2.reset();
        self.ch3.reset();
        self.ch4.reset();
        self.div_apu.reset();
        self.ch1.div_apu_step = 0;
        self.ch2.div_apu_step = 0;
        self.ch3.div_apu_step = 0;
        self.ch4.div_apu_step = 0;
        self.sound_panning = 0;
        self.master_volume = 0;
    }
}

impl SystemMemoryAccess for Apu {
    open spec fn inv(&self) -> bool {
        self.wf()
    }

    open spec fn byte_at(&self, address: u16) -> u8 {
        self.register(address)
    }

    fn read_8(&self, address: u16) -> (r: u8) {
        match address {
            0xFF10..=0xFF14 => self.ch1.read_8(address),
            0xFF16..=0xFF19 => self.ch2.read_8(address),
            0xFF1A..=0xFF1E => self.ch3.read_8(address),
            0xFF20..=0xFF23 => self.ch4.read_8(address),
            0xFF24 => self.master_volume,
            0xFF25 => self.sound_panning,
            0xFF26 => self.master_control(),
            0xFF30..=0xFF3F => self.ch3.read_wave_ram(address),
            0xFF76 => {
                let hi = self.ch2.sample();
                let lo = self.ch1.sample();
                proof {
                    lemma_sample_pair(hi, lo);
                }
                hi << 4 | lo
            },
            0xFF77 => {
                let hi = Channel::sample(&self.ch4);
                let lo = Channel::sample(&self.ch3);
                proof {
                    lemma_sample_pair(hi, lo);
                }
                hi << 4 | lo
            },
            _ => 0xFF,
        }
    }

    fn write_8(&mut self, address: u16, value: u8)
        ensures
            final(self)@ == old(self)@.written(address, value),
    {
        if !self.enabled && !(address == 0xFF26 || (0xFF30 <= address && address <= 0xFF3F)) {
            return;
        }

        match address {
            0xFF10..=0xFF14 => self.ch1.write_8(address, value),
            0xFF16..=0xFF19 => self.ch2.write_8(address, value),
            0xFF1A..=0xFF1E => self.ch3.write_8(address, value),
            0xFF20..=0xFF23 => self.ch4.write_8(address, value),
            0xFF24 => self.set_master_volume(value),
            0xFF25 => self.set_sound_panning(value),
            0xFF26 => self.set_master_control(value),
            0xFF30..=0xFF3F => self.ch3.write_wave_ram(address, value),
            _ => {},
        }
    }
}

} // verus!
