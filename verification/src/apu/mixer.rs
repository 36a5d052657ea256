//! The sound panning register (NR51) and the mixing of the four channel
//! outputs by it.
use vstd::prelude::*;

verus! {

/// The sound panning register: from bit 7 down, channel 4 to channel 1 to
/// the left output, then channel 4 to channel 1 to the right output.
#[derive(Debug, Clone, Copy, PartialEq, Eq, Structural)]
pub struct Mixer {
    pub bits: u8,
}

/// Whether bit `7 - i` of `panning` is set, the bit that `mix` consults
/// for output `i`.
pub open spec fn selects(panning: u8, i: int) -> bool {
    (panning as int / pow2_u8(7 - i)) % 2 == 1
}

/// Two to the power `n`, for `n` from 0 to 7.
pub open spec fn pow2_u8(n: int) -> int
    decreases n,
{
    if n <= 0 {
        1
    } else {
        2 * pow2_u8(n - 1)
    }
}

/// The sum of the first `n` outputs whose bit is set.
pub open spec fn panned_sum(panning: u8, outputs: Seq<u8>, n: int) -> int
    decreases n,
{
    if n <= 0 {
        0
    } else {
        panned_sum(panning, outputs, n - 1) + if selects(panning, n - 1) {
            outputs[n - 1] as int
        } else {
            0
        }
    }
}

proof fn lemma_select_bits(panning: u8)
    by (bit_vector)
    ensures
        (panning & (1u8 << 7u8) != 0) == ((panning / 128) % 2 == 1),
        (panning & (1u8 << 6u8) != 0) == ((panning / 64) % 2 == 1),
        (panning & (1u8 << 5u8) != 0) == ((panning / 32) % 2 == 1),
        (panning & (1u8 << 4u8) != 0) == ((panning / 16) % 2 == 1),
{
}

proof fn lemma_select_bit(panning: u8, i: u8)
    requires
        i < 4,
    ensures
        (panning & (1u8 << (7 - i) as u8) != 0) == selects(panning, i as int),
{
    reveal_with_fuel(pow2_u8, 8);
    lemma_select_bits(panning);
}

proof fn lemma_panned_sum_monotonic(panning: u8, outputs: Seq<u8>, m: int, n: int)
    requires
        0 <= m <= n,
    ensures
        panned_sum(panning, outputs, m) <= panned_sum(panning, outputs, n),
    decreases n - m,
{
    if m < n {
        lemma_panned_sum_monotonic(panning, outputs, m, n - 1);
    }
}

impl Mixer {
    pub fn from_bits(bits: u8) -> (r: Mixer)
        ensures
            r.bits == bits,
    {
        Mixer { bits }
    }

    pub fn into_bits(&self) -> (r: u8)
        ensures
            r == self.bits,
    {
        self.bits
    }

    /// Mixes four channel outputs into a left and a right output, each a
    /// quarter of the sum of the outputs selected for it. Output `i` goes to
    /// both sides when bit `7 - i` of the register is set; the right side
    /// consults the same bits as the left.
    pub fn mix(&self, channels_outputs: [u8; 4]) -> (r: (u8, u8))
        requires
            panned_sum(self.bits, channels_outputs@, 4) <= 255,
        ensures
            r.0 == panned_sum(self.bits, channels_outputs@, 4) / 4,
            r.1 == panned_sum(self.bits, channels_outputs@, 4) / 4,
    {
        let mut output_left: u8 = 0;
        let mut output_right: u8 = 0;
        let panning = self.into_bits();

        for i in 0..4u8
            invariant
                panning == self.bits,
                panned_sum(self.bits, channels_outputs@, 4) <= 255,
                output_left == panned_sum(self.bits, channels_outputs@, i as int),
                output_right == panned_sum(self.bits, channels_outputs@, i as int),
        {
            let output = channels_outputs[i as usize];
            proof {
                lemma_select_bit(panning, i);
                lemma_panned_sum_monotonic(self.bits, channels_outputs@, i + 1, 4);
            }
            if panning & (1 << (7 - i)) != 0 {
                output_left += output;
            }
            if panning & (1 << (7 - i)) != 0 {
                output_right += output;
            }
        }
        (output_left / 4, output_right / 4)
    }
}

} // verus!
