//! The DIV-APU counter: the frame sequencer as the channels see it, which
//! shares its step with every channel.
use vstd::prelude::*;

use super::channel::Channel;
use super::frame_sequencer::{div_bit, div_bit_spec};
use super::noise::NoiseChannel;
use super::square::SquareChannel;
use super::wave::WaveChannel;
use crate::GbSpeed;

verus! {

/// What one DIV-APU step works on: the four channels and the divider.
pub struct DivApuContext {
    pub ch1: SquareChannel,
    pub ch2: SquareChannel,
    pub ch3: WaveChannel,
    pub ch4: NoiseChannel,
    pub div: u8,
    pub speed: GbSpeed,
}

impl DivApuContext {
    /// The channels' invariants.
    pub open spec fn wf(self) -> bool {
        self.ch1.wf() && self.ch2.wf() && self.ch3@.wf() && self.ch4.wf()
    }

    /// Whether every channel sees `step` as the sequencer's step.
    pub open spec fn sees_step(self, step: u8) -> bool {
        &&& self.ch1.div_apu_step == step
        &&& self.ch2.div_apu_step == step
        &&& self.ch3.div_apu_step == step
        &&& self.ch4.div_apu_step == step
    }
}

/// Whether a step clocks the length timers (the even steps).
pub open spec fn clocks_length(step: u8) -> bool {
    step == 0 || step == 2 || step == 4 || step == 6
}

/// Whether a step clocks the sweep of channel 1.
pub open spec fn clocks_sweep(step: u8) -> bool {
    step == 2 || step == 6
}

/// Whether a step clocks the envelopes.
pub open spec fn clocks_envelope(step: u8) -> bool {
    step == 7
}

/// A square channel after `step` clocks it; `with_sweep` for channel 1.
#[verifier::opaque]
pub open spec fn square_clocked(ch: SquareChannel, step: u8, with_sweep: bool) -> SquareChannel {
    if clocks_length(step) {
        if with_sweep && clocks_sweep(step) {
            ch.length_ticked().sweep_ticked()
        } else {
            ch.length_ticked()
        }
    } else if clocks_envelope(step) {
        ch.envelope_ticked()
    } else {
        ch
    }
}

/// The wave channel after `step` clocks it.
#[verifier::opaque]
pub open spec fn wave_clocked(ch: super::wave::WaveView, step: u8) -> super::wave::WaveView {
    if clocks_length(step) {
        ch.length_ticked()
    } else {
        ch
    }
}

/// The noise channel after `step` clocks it.
#[verifier::opaque]
pub open spec fn noise_clocked(ch: NoiseChannel, step: u8) -> NoiseChannel {
    if clocks_length(step) {
        ch.length_ticked()
    } else if clocks_envelope(step) {
        ch.envelope_ticked()
    } else {
        ch
    }
}

/// The counter and the channels after the divider is sampled. On a
/// falling edge of its bit the current step clocks the length timers
/// (steps 0, 2, 4 and 6), then the sweep of channel 1 (steps 2 and 6) and
/// the envelopes of channels 1, 2 and 4 (step 7); then the step advances,
/// and every channel sees the new one.
pub open spec fn div_apu_stepped(
    d: DivApu,
    ch1: SquareChannel,
    ch2: SquareChannel,
    ch3: super::wave::WaveView,
    ch4: NoiseChannel,
    div: u8,
    speed: GbSpeed,
) -> (DivApu, SquareChannel, SquareChannel, super::wave::WaveView, NoiseChannel) {
    let bit = div_bit_spec(div, speed);
    if d.div_bit && !bit {
        let next = ((d.step + 1) % 8) as u8;
        (
            DivApu { step: next, div_bit: bit },
            SquareChannel { div_apu_step: next, ..square_clocked(ch1, d.step, true) },
            SquareChannel { div_apu_step: next, ..square_clocked(ch2, d.step, false) },
            super::wave::WaveView { div_apu_step: next, ..wave_clocked(ch3, d.step) },
            NoiseChannel { div_apu_step: next, ..noise_clocked(ch4, d.step) },
        )
    } else {
        (DivApu { div_bit: bit, ..d }, ch1, ch2, ch3, ch4)
    }
}

/// The DIV-APU counter: an eight-step counter advanced on each falling edge
/// of the divider bit (bit 4, or bit 5 at double speed).
#[derive(Debug, Clone, Copy, PartialEq, Eq, Structural)]
pub struct DivApu {
    pub step: u8,
    pub div_bit: bool,
}

impl DivApu {
    /// The invariant: the step is one of the eight.
    pub open spec fn wf(self) -> bool {
        self.step < 8
    }

    /// A counter at step 0 with the divider bit clear.
    pub fn new() -> (r: DivApu)
        ensures
            r.wf(),
            r == (DivApu { step: 0, div_bit: false }),
    {
        Self { step: 0, div_bit: false }
    }

    /// Samples the divider (see `div_apu_stepped`).
    pub fn cycle(&mut self, ctx: &mut DivApuContext)
        requires
            old(self).wf(),
            old(ctx).wf(),
        ensures
            final(self).wf(),
            final(ctx).wf(),
            final(ctx).div == old(ctx).div,
            final(ctx).speed == old(ctx).speed,
            (*final(self), final(ctx).ch1, final(ctx).ch2, final(ctx).ch3@, final(ctx).ch4) == div_apu_stepped(
                *old(self),
                old(ctx).ch1,
                old(ctx).ch2,
                old(ctx).ch3@,
                old(ctx).ch4,
                old(ctx).div,
                old(ctx).speed,
            ),
    {
        let new_div_bit = div_bit(ctx.div, ctx.speed);

        if self.div_bit && !new_div_bit {
            let step = self.step;
            self.clock_channels(ctx, step);
            self.step = (step + 1) % 8;
            ctx.ch1.div_apu_step = self.step;
            ctx.ch2.div_apu_step = self.step;
            ctx.ch3.div_apu_step = self.step;
            ctx.ch4.div_apu_step = self.step;
        }
        self.div_bit = new_div_bit;
    }

    fn clock_channels(&mut self, ctx: &mut DivApuContext, step: u8)
        requires
            old(ctx).wf(),
        ensures
            *final(self) == *old(self),
            final(ctx).wf(),
            final(ctx).div == old(ctx).div,
            final(ctx).speed == old(ctx).speed,
            final(ctx).ch1 == square_clocked(old(ctx).ch1, step, true),
            final(ctx).ch2 == square_clocked(old(ctx).ch2, step, false),
            final(ctx).ch3@ == wave_clocked(old(ctx).ch3@, step),
            final(ctx).ch4 == noise_clocked(old(ctx).ch4, step),
    {
        proof {
            reveal(square_clocked);
            reveal(wave_clocked);
            reveal(noise_clocked);
        }
        if step == 0 || step == 2 || step == 4 || step == 6 {
            self.length_timer_cycle(ctx);
        }

        if step == 2 || step == 6 {
            ctx.ch1.sweep_cycle();
        }

        if step == 7 {
            self.volume_envelope_cycle(ctx);
        }
    }

    fn length_timer_cycle(&mut self, ctx: &mut DivApuContext)
        requires
            old(ctx).wf(),
        ensures
            *final(self) == *old(self),
            final(ctx).wf(),
            final(ctx).div == old(ctx).div,
            final(ctx).speed == old(ctx).speed,
            final(ctx).ch1 == old(ctx).ch1.length_ticked(),
            final(ctx).ch2 == old(ctx).ch2.length_ticked(),
            final(ctx).ch3@ == old(ctx).ch3@.length_ticked(),
            final(ctx).ch4 == old(ctx).ch4.length_ticked(),
    {
        ctx.ch1.length_timer_cycle();
        ctx.ch2.length_timer_cycle();
        ctx.ch3.length_timer_cycle();
        ctx.ch4.length_timer_cycle();
    }

    fn volume_envelope_cycle(&mut self, ctx: &mut DivApuContext)
        requires
            old(ctx).wf(),
        ensures
            *final(self) == *old(self),
            final(ctx).wf(),
            final(ctx).div == old(ctx).div,
            final(ctx).speed == old(ctx).speed,
            final(ctx).ch1 == old(ctx).ch1.envelope_ticked(),
            final(ctx).ch2 == old(ctx).ch2.envelope_ticked(),
            final(ctx).ch3@ == old(ctx).ch3@,
            final(ctx).ch4 == old(ctx).ch4.envelope_ticked(),
    {
        ctx.ch1.volume_envelope_cycle();
        ctx.ch2.volume_envelope_cycle();
        ctx.ch4.volume_envelope_cycle();
    }

    /// Back to step 0 (the channels are powered off beside it).
    pub fn reset(&mut self)
        ensures
            *final(self) == (DivApu { step: 0, ..*old(self) }),
    {
        self.step = 0;
    }
}

} // verus!
