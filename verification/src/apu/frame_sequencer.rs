//! The frame sequencer, which clocks the channels' length timers, sweep and
//! envelopes from the falling edges of a bit of the divider.
use vstd::prelude::*;

use super::channel::Channel;
use super::noise::NoiseChannel;
use super::square::SquareChannel;
use super::wave::WaveChannel;
use crate::GbSpeed;

verus! {

/// Whether the divider bit that drives the frame sequencer is set: bit 4
/// at normal speed, bit 5 at double speed.
pub open spec fn div_bit_spec(div: u8, speed: GbSpeed) -> bool {
    match speed {
        GbSpeed::Normal => div & 0x10 != 0,
        GbSpeed::Double => div & 0x20 != 0,
    }
}

/// Reads the divider bit that drives the frame sequencer.
pub fn div_bit(div: u8, speed: GbSpeed) -> (r: bool)
    ensures
        r == div_bit_spec(div, speed),
{
    match speed {
        GbSpeed::Normal => div & 0x10 != 0,
        GbSpeed::Double => div & 0x20 != 0,
    }
}

/// The frame sequencer: an eight-step counter advanced on each falling edge
/// of the divider bit.
#[derive(Debug, Clone, Copy, PartialEq, Eq, Structural)]
pub struct FrameSequencer {
    pub step: u8,
    pub div_bit: bool,
}

impl FrameSequencer {
    /// The invariant: the step is one of the eight.
    pub open spec fn wf(self) -> bool {
        self.step < 8
    }

    /// The sequencer after it samples `div`: on a falling edge of the
    /// divider bit the step advances (modulo 8); the bit is remembered.
    pub open spec fn stepped(self, div: u8, speed: GbSpeed) -> FrameSequencer {
        let edge = self.div_bit && !div_bit_spec(div, speed);
        FrameSequencer {
            step: if edge { ((self.step + 1) % 8) as u8 } else { self.step },
            div_bit: div_bit_spec(div, speed),
        }
    }

    /// A sequencer at step 0 with the divider bit clear.
    pub fn new() -> (r: FrameSequencer)
        ensures
            r.wf(),
            r == (FrameSequencer { step: 0, div_bit: false }),
    {
        Self { step: 0, div_bit: false }
    }

    /// Samples the divider. On a falling edge of its bit the step advances
    /// and then clocks: the length timers on steps 0, 2, 4 and 6, the sweep
    /// of channel 1 (before its length timer) on steps 2 and 6, and the
    /// envelopes of channels 1, 2 and 4 on step 7.
    pub fn cycle(
        &mut self,
        ch1: &mut SquareChannel,
        ch2: &mut SquareChannel,
        ch3: &mut WaveChannel,
        ch4: &mut NoiseChannel,
        div: u8,
        speed: GbSpeed,
    )
        requires
            old(self).wf(),
            old(ch1).wf(),
            old(ch2).wf(),
            old(ch3)@.wf(),
            old(ch4).wf(),
        ensures
            final(self).wf(),
            final(ch1).wf(),
            final(ch2).wf(),
            final(ch3)@.wf(),
            final(ch4).wf(),
            final(self).div_bit == div_bit_spec(div, speed),
            *final(self) == old(self).stepped(div, speed),
            ({
                let edge = old(self).div_bit && !div_bit_spec(div, speed);
                let step = (old(self).step + 1) % 8;
                let length = edge && (step == 0 || step == 2 || step == 4 || step == 6);
                let sweep = edge && (step == 2 || step == 6);
                let envelope = edge && step == 7;
                &&& final(self).step == (if edge { step } else { old(self).step as int })
                &&& *final(ch1) == (if length {
                    (if sweep { old(ch1).sweep_ticked() } else { *old(ch1) }).length_ticked()
                } else if envelope {
                    old(ch1).envelope_ticked()
                } else {
                    *old(ch1)
                })
                &&& *final(ch2) == (if length {
                    old(ch2).length_ticked()
                } else if envelope {
                    old(ch2).envelope_ticked()
                } else {
                    *old(ch2)
                })
                &&& final(ch3)@ == (if length { old(ch3)@.length_ticked() } else { old(ch3)@ })
                &&& *final(ch4) == (if length {
                    old(ch4).length_ticked()
                } else if envelope {
                    old(ch4).envelope_ticked()
                } else {
                    *old(ch4)
                })
            }),
    {
        let div_bit = div_bit(div, speed);

        if self.div_bit && !div_bit {
            self.step = (self.step + 1) & 0x07;
            proof {
                crate::bits::lemma_byte_fields((old(self).step + 1) as u8);
            }
            match self.step {
                0 | 4 => self.length_timer_cycle(ch1, ch2, ch3, ch4),
                2 | 6 => {
                    ch1.sweep_cycle();
                    self.length_timer_cycle(ch1, ch2, ch3, ch4);
                },
                7 => self.volume_envelope_cycle(ch1, ch2, ch4),
                _ => {},
            }
        }
        self.div_bit = div_bit;
    }

    fn length_timer_cycle(
        &mut self,
        ch1: &mut SquareChannel,
        ch2: &mut SquareChannel,
        ch3: &mut WaveChannel,
        ch4: &mut NoiseChannel,
    )
        requires
            old(ch1).wf(),
            old(ch2).wf(),
            old(ch3)@.wf(),
            old(ch4).wf(),
        ensures
            *final(self) == *old(self),
            final(ch1).wf(),
            final(ch2).wf(),
            final(ch3)@.wf(),
            final(ch4).wf(),
            *final(ch1) == old(ch1).length_ticked(),
            *final(ch2) == old(ch2).length_ticked(),
            final(ch3)@ == old(ch3)@.length_ticked(),
            *final(ch4) == old(ch4).length_ticked(),
    {
        ch1.length_timer_cycle();
        ch2.length_timer_cycle();
        ch3.length_timer_cycle();
        ch4.length_timer_cycle();
    }

    fn volume_envelope_cycle(&mut self, ch1: &mut SquareChannel, ch2: &mut SquareChannel, ch4: &mut NoiseChannel)
        requires
            old(ch1).wf(),
            old(ch2).wf(),
            old(ch4).wf(),
        ensures
            *final(self) == *old(self),
            final(ch1).wf(),
            final(ch2).wf(),
            final(ch4).wf(),
            *final(ch1) == old(ch1).envelope_ticked(),
            *final(ch2) == old(ch2).envelope_ticked(),
            *final(ch4) == old(ch4).envelope_ticked(),
    {
        ch1.volume_envelope_cycle();
        ch2.volume_envelope_cycle();
        ch4.volume_envelope_cycle();
    }

    /// Back to step 0.
    pub fn reset(&mut self)
        ensures
            *final(self) == (FrameSequencer { step: 0, ..*old(self) }),
    {
        self.step = 0;
    }
}

/// The sequencer after it samples each of `divs` in turn.
pub open spec fn run(fs: FrameSequencer, divs: Seq<u8>, speed: GbSpeed) -> FrameSequencer
    decreases divs.len(),
{
    if divs.len() == 0 {
        fs
    } else {
        run(fs, divs.drop_last(), speed).stepped(divs.last(), speed)
    }
}

/// The number of falling edges of the divider bit in `divs`, the bit being
/// `bit` before the first sample.
pub open spec fn falling_edges(bit: bool, divs: Seq<u8>, speed: GbSpeed) -> nat
    decreases divs.len(),
{
    if divs.len() == 0 {
        0
    } else {
        let prev = if divs.len() == 1 { bit } else { div_bit_spec(divs[divs.len() - 2], speed) };
        falling_edges(bit, divs.drop_last(), speed) + if prev && !div_bit_spec(divs.last(), speed) {
            1nat
        } else {
            0nat
        }
    }
}

/// Over any run of samples the step counts the falling edges modulo 8, and
/// the bit is that of the last sample. So, from a new or reset sequencer,
/// the n-th falling edge moves to step n % 8, and `cycle` clocks the length
/// timers when that is even, the sweep when it is 2 or 6, and the envelopes
/// when it is 7.
pub proof fn lemma_run_counts_edges(fs: FrameSequencer, divs: Seq<u8>, speed: GbSpeed)
    requires
        fs.wf(),
    ensures
        run(fs, divs, speed).wf(),
        run(fs, divs, speed).step == (fs.step + falling_edges(fs.div_bit, divs, speed)) % 8,
        run(fs, divs, speed).div_bit == (if divs.len() == 0 {
            fs.div_bit
        } else {
            div_bit_spec(divs.last(), speed)
        }),
    decreases divs.len(),
{
    if divs.len() > 0 {
        let init = divs.drop_last();
        lemma_run_counts_edges(fs, init, speed);
        if divs.len() > 1 {
            assert(init.last() == divs[divs.len() - 2]);
        }
        let e = falling_edges(fs.div_bit, init, speed);
        assert((((fs.step + e) % 8) + 1) % 8 == (fs.step + e + 1) % 8) by (nonlinear_arith)
            requires
                e >= 0,
                fs.step >= 0,
        ;
    }
}

} // verus!
