//! The volume envelope, which steps a channel's volume up or down.
use vstd::prelude::*;

verus! {

/// A volume envelope: every `pace` ticks the volume moves one step in
/// `direction` (up when set), staying within 0 to 15.
#[derive(Debug, Clone, Copy, PartialEq, Eq, Structural)]
pub struct VolumeEnvelope {
    pub initial_volume: u8,
    pub direction: bool,
    pub pace: u8,
    pub volume: u8,
    pub timer: u8,
}

/// The volume after one step of the envelope.
pub open spec fn stepped_volume(volume: u8, direction: bool) -> u8 {
    if direction && volume < 15 {
        (volume + 1) as u8
    } else if !direction && volume > 0 {
        (volume - 1) as u8
    } else {
        volume
    }
}

impl VolumeEnvelope {
    /// The envelope after one tick.
    pub open spec fn stepped(self) -> VolumeEnvelope {
        if self.pace == 0 {
            self
        } else {
            let t = if self.timer > 0 { (self.timer - 1) as u8 } else { 0u8 };
            if t == 0 {
                VolumeEnvelope { timer: self.pace, volume: stepped_volume(self.volume, self.direction), ..self }
            } else {
                VolumeEnvelope { timer: t, ..self }
            }
        }
    }

    /// The envelope's invariant: initial volume and pace fit their fields of
    /// the register, and the volume stays within 0 to 15.
    pub open spec fn wf(self) -> bool {
        self.initial_volume < 16 && self.pace < 8 && self.volume < 16
    }

    /// The envelope restarted for a new note: the timer from the pace, the
    /// volume from the initial volume.
    pub open spec fn restarted(self) -> VolumeEnvelope {
        VolumeEnvelope { timer: self.pace, volume: self.initial_volume, ..self }
    }

    /// The envelope after a write of its register: initial volume in bits
    /// 7-4, direction in bit 3 (set raises), pace in bits 2-0.
    pub open spec fn written(self, value: u8) -> VolumeEnvelope {
        VolumeEnvelope { initial_volume: value / 16, direction: value & 0x08 != 0, pace: value & 0x07, ..self }
    }

    /// The envelope register as read.
    pub open spec fn register(self) -> int {
        self.initial_volume * 16 + (if self.direction { 8int } else { 0int }) + self.pace
    }

    /// An envelope with everything at zero.
    pub fn new() -> (r: VolumeEnvelope)
        ensures
            r == (VolumeEnvelope { initial_volume: 0, direction: false, pace: 0, volume: 0, timer: 0 }),
    {
        VolumeEnvelope { initial_volume: 0, direction: false, pace: 0, volume: 0, timer: 0 }
    }

    /// One tick: with a nonzero pace the timer counts down, and when it runs
    /// out it restarts from the pace and the volume takes a step.
    pub fn cycle(&mut self)
        ensures
            *final(self) == old(self).stepped(),
    {
        if self.pace != 0 {
            if self.timer > 0 {
                self.timer -= 1
            }

            if self.timer == 0 {
                self.timer = self.pace;

                if (self.volume < 0xF && self.direction) || (self.volume > 0x0 && !self.direction) {
                    match self.direction {
                        true => self.volume += 1,
                        false => self.volume -= 1,
                    }
                }
            }
        }
    }

    /// Restarts the envelope: the timer from the pace, the volume from the
    /// initial volume.
    pub fn reset(&mut self)
        ensures
            *final(self) == old(self).restarted(),
    {
        self.timer = self.pace;
        self.volume = self.initial_volume;
    }

    /// The channel's DAC is off when the initial volume is zero and the
    /// envelope goes down.
    pub fn disable_dac(&self) -> (r: bool)
        ensures
            r == (self.initial_volume == 0 && !self.direction),
    {
        self.initial_volume == 0 && !self.direction
    }

    /// Sets the envelope from its register: initial volume in bits 7-4,
    /// direction in bit 3, pace in bits 2-0.
    pub fn write(&mut self, value: u8)
        ensures
            *final(self) == old(self).written(value),
            final(self).pace < 8,
            final(self).initial_volume < 16,
    {
        self.initial_volume = value >> 4;
        proof {
            crate::bits::lemma_byte_fields(value);
        }
        self.direction = (value & 0x08) != 0;
        self.pace = value & 0x07;
    }

    /// The envelope register.
    pub fn read(&self) -> (r: u8)
        requires
            self.initial_volume < 16,
            self.pace < 8,
        ensures
            r == self.register(),
    {
        let initial_volume = self.initial_volume * 16;
        let direction: u8 = if self.direction { 8 } else { 0 };
        let pace = self.pace & 0x07;
        proof {
            crate::bits::lemma_byte_split(self.pace);
        }
        initial_volume + direction + pace
    }
}

/// Reading the envelope register back gives the byte that was written.
pub proof fn lemma_envelope_read_after_write(e: VolumeEnvelope, value: u8)
    ensures
        ({
            let w = VolumeEnvelope { initial_volume: value / 16, direction: value & 0x08 != 0, pace: value & 0x07, ..e };
            w.initial_volume * 16 + (if w.direction { 8int } else { 0int }) + w.pace == value
        }),
{
    crate::bits::lemma_byte_split(value);
    assert(value / 16 * 16 == (value & 0x80) + (value & 0x40) + (value & 0x20) + (value & 0x10)) by (bit_vector);
}

} // verus!
