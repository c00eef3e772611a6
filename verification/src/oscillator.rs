//! A mono sine-tone oscillator.
//!
//! The oscillator walks a phase counter through one waveform period of
//! `sample_rate` steps, advancing by one step per generated frame and
//! wrapping back to zero at the end of the period.  The waveform itself
//! (one amplitude per phase step, e.g. a sampled sine) is supplied by the
//! caller as a table with one entry per phase value, so the oscillator's
//! state and buffer-filling logic are independent of the sample format.

use vstd::prelude::*;
use vstd::arithmetic::div_mod::{
    lemma_add_mod_noop_right, lemma_fundamental_div_mod_converse,
    lemma_mod_add_multiples_vanish, lemma_mod_division_less_than_divisor, lemma_small_mod,
};

verus! {

/// Phase value after `n` advances from phase `p0` in a period of `rate` steps.
pub open spec fn phase_after(p0: int, n: int, rate: int) -> int {
    (p0 + n) % rate
}

/// Number of frames needed to cover a buffer of `len` interleaved slots with
/// `channels` slots per frame; a trailing partial frame counts as one frame.
pub open spec fn frames_of(len: int, channels: int) -> int {
    (len + channels - 1) / channels
}

/// What one buffer fill does: starting from oscillator state `pre` and buffer
/// contents `out0`, it advances the phase once per frame (a trailing partial
/// frame included) and writes into every slot of frame `f` the waveform entry
/// at the phase reached by the `f + 1`-th advance, leaving state `post` and
/// contents `out1`.
pub open spec fn fill_post<S>(
    pre: DoNotMoveThis,
    post: DoNotMoveThis,
    out0: Seq<S>,
    out1: Seq<S>,
    wave: Seq<S>,
) -> bool {
    &&& post.wf()
    &&& post.sample_rate == pre.sample_rate
    &&& post.channels == pre.channels
    &&& post.sample_clock == phase_after(
        pre.sample_clock as int,
        frames_of(out0.len() as int, pre.channels as int),
        pre.sample_rate as int,
    )
    &&& out1.len() == out0.len()
    &&& forall|j: int|
        0 <= j < out0.len() ==> out1[j] == wave[phase_after(
            pre.sample_clock as int,
            j / (pre.channels as int) + 1,
            pre.sample_rate as int,
        )]
}

/// The oscillator.  It is named for the constraint its users live under:
/// once a fill callback has captured a reference to the slot holding it,
/// the value must stay where it is and is only ever mutated in place.
#[derive(Clone, Copy, Debug)]
pub struct DoNotMoveThis {
    /// Samples per second of the negotiated output configuration.
    pub sample_rate: u32,
    /// Interleaved output channels per frame.
    pub channels: usize,
    /// Current phase, in elapsed samples within the current period.
    pub sample_clock: u32,
}

impl DoNotMoveThis {
    /// Valid oscillator state: a positive period, at least one channel, and
    /// a phase inside the period.
    pub open spec fn wf(self) -> bool {
        &&& self.sample_rate >= 1
        &&& self.channels >= 1
        &&& self.sample_clock < self.sample_rate
    }

    /// A fresh oscillator for the negotiated configuration, with the phase
    /// at the start of the period.
    pub fn new(sample_rate: u32, channels: usize) -> (osc: Self)
        requires
            sample_rate >= 1,
            channels >= 1,
        ensures
            osc.wf(),
            osc.sample_rate == sample_rate,
            osc.channels == channels,
            osc.sample_clock == 0,
    {
        DoNotMoveThis { sample_rate, channels, sample_clock: 0 }
    }

    /// Advance the phase by one sample, wrapping at the period boundary, and
    /// return the new phase.  The amplitude of the generated sample is the
    /// waveform table entry at the returned phase.
    pub fn next_value(&mut self) -> (phase: u32)
        requires
            old(self).wf(),
        ensures
            final(self).wf(),
            final(self).sample_rate == old(self).sample_rate,
            final(self).channels == old(self).channels,
            final(self).sample_clock == (old(self).sample_clock + 1) % (old(self).sample_rate as int),
            phase == final(self).sample_clock,
    {
        self.sample_clock = (self.sample_clock + 1) % self.sample_rate;
        self.sample_clock
    }

    /// Fill `output` with interleaved frames of `self.channels` slots each:
    /// one `next_value` call per frame, the same sample written to every slot
    /// of the frame, and a trailing partial frame filled only as far as the
    /// buffer reaches.  `wave` is the one-period waveform table, indexed by
    /// phase.
    #[verifier::loop_isolation(false)]
    pub fn write_data<S: Copy>(&mut self, output: &mut Vec<S>, wave: &Vec<S>)
        requires
            old(self).wf(),
            wave@.len() == old(self).sample_rate,
        ensures
            fill_post(*old(self), *final(self), old(output)@, final(output)@, wave@),
            forall|j1: int, j2: int|
                0 <= j1 < old(output)@.len() && 0 <= j2 < old(output)@.len()
                    && j1 / (old(self).channels as int) == j2 / (old(self).channels as int)
                    ==> #[trigger] final(output)@[j1] == #[trigger] final(output)@[j2],
    {
        let ghost p0 = self.sample_clock as int;
        let ghost rate = self.sample_rate as int;
        let ghost ch = self.channels as int;
        let len = output.len();
        let mut start: usize = 0;
        let ghost mut fcount: int = 0;
        proof {
            lemma_small_mod(p0 as nat, rate as nat);
        }
        while start < len
            invariant
                self.wf(),
                self.sample_rate == old(self).sample_rate,
                self.channels == old(self).channels,
                start <= len,
                output@.len() == len,
                0 <= fcount,
                start == fcount * ch || (start == len && fcount == frames_of(len as int, ch)),
                self.sample_clock == phase_after(p0, fcount, rate),
                forall|i: int|
                    0 <= i < start ==> output@[i] == wave@[phase_after(p0, i / ch + 1, rate)],
            decreases len - start,
        {
            let phase = self.next_value();
            proof {
                lemma_add_mod_noop_right(1, p0 + fcount, rate);
                assert(self.sample_clock == phase_after(p0, fcount + 1, rate));
            }
            let value = wave[phase as usize];
            let end = if len - start < self.channels {
                len
            } else {
                start + self.channels
            };
            let mut k = start;
            while k < end
                invariant
                    start <= k <= end,
                    output@.len() == len,
                    forall|i: int|
                        0 <= i < start ==> output@[i] == wave@[phase_after(p0, i / ch + 1, rate)],
                    forall|i: int| start <= i < k ==> output@[i] == value,
                decreases end - k,
            {
                output.set(k, value);
                k = k + 1;
            }
            assert forall|i: int| start <= i < end implies #[trigger] (i / ch) == fcount by {
                lemma_fundamental_div_mod_converse(i, ch, fcount, i - fcount * ch);
            }
            proof {
                if len - start < ch {
                    // the final, possibly partial frame: it completes the fill
                    assert((fcount + 1) * ch == fcount * ch + ch) by (nonlinear_arith);
                    lemma_fundamental_div_mod_converse(
                        len + ch - 1,
                        ch,
                        fcount + 1,
                        len - start - 1,
                    );
                    assert(fcount + 1 == frames_of(len as int, ch));
                } else {
                    assert((fcount + 1) * ch == fcount * ch + ch) by (nonlinear_arith);
                }
                fcount = fcount + 1;
            }
            start = end;
        }
        proof {
            if start == fcount * ch {
                lemma_fundamental_div_mod_converse(len + ch - 1, ch, fcount, ch - 1);
                assert(fcount == frames_of(len as int, ch));
            }
        }
    }
}

/// A phase stays inside the period: whatever the number of advances, the
/// phase the oscillator reaches lies in `[0, rate)`.
pub proof fn lemma_phase_in_period(p0: int, n: int, rate: int)
    requires
        rate >= 1,
    ensures
        0 <= phase_after(p0, n, rate) < rate,
{
    lemma_mod_division_less_than_divisor(p0 + n, rate);
}

/// One more advance moves the phase by one step: advancing `n + 1` times
/// reaches the successor, modulo the period, of the phase after `n` times.
pub proof fn lemma_phase_step(p0: int, n: int, rate: int)
    requires
        rate >= 1,
    ensures
        phase_after(p0, n + 1, rate) == (phase_after(p0, n, rate) + 1) % rate,
{
    lemma_add_mod_noop_right(1, p0 + n, rate);
}

/// Periodicity: advancing through one whole period of `rate` steps returns
/// the phase to exactly where it started.
pub proof fn lemma_periodicity(p0: int, rate: int)
    requires
        rate >= 1,
        0 <= p0 < rate,
    ensures
        phase_after(p0, rate, rate) == p0,
{
    lemma_mod_add_multiples_vanish(p0, rate);
    lemma_small_mod(p0 as nat, rate as nat);
}

/// Fills serialize: running one fill of `n1` frames and then one of `n2`
/// frames leaves the same phase as a single run of `n1 + n2` frames, so the
/// order of two exclusive fills cannot be told from the final phase, and no
/// update is lost.
pub proof fn lemma_fills_serialize(p0: int, n1: int, n2: int, rate: int)
    requires
        rate >= 1,
    ensures
        phase_after(phase_after(p0, n1, rate), n2, rate) == phase_after(p0, n1 + n2, rate),
{
    lemma_add_mod_noop_right(n2, p0 + n1, rate);
}

/// Every sample a fill writes is drawn from the one-period waveform table:
/// the phase index looked up for any slot lies inside the period.
pub proof fn lemma_fill_index_in_period(p0: int, j: int, ch: int, rate: int)
    requires
        rate >= 1,
        ch >= 1,
    ensures
        0 <= phase_after(p0, j / ch + 1, rate) < rate,
{
    lemma_mod_division_less_than_divisor(p0 + (j / ch + 1), rate);
}

} // verus!
