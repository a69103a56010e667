//! Deterministic periodic waveform generator, phase-stepped per sample.
//!
//! The waveform is a parabolic approximation to a sine: with the phase `p`
//! ranging over [-1, 1] (fixed point: [-FP_ONE, FP_ONE]) the raw value is
//! `p + p^2` on the negative half and `p - p^2` on the positive half, and the
//! emitted sample is `-4` times that value. The phase advances by an
//! increment of `2 * frequency / sample_rate` per sample and wraps from just
//! above 1 back down by 2.

use vstd::prelude::*;
use vstd::arithmetic::div_mod::lemma_div_is_ordered;
use vstd::arithmetic::div_mod::lemma_div_pos_is_pos;
use vstd::arithmetic::div_mod::lemma_div_multiples_vanish;
use crate::sample::FP_ONE;

verus! {

/// Highest supported sample rate in Hz; keeps every frequency computation
/// inside `i64`.
pub const MAX_SAMPLE_RATE: i64 = 1000000;

/// The mathematical state of an oscillator: phase and increment in fixed
/// point, and the sample rate it was built for, in Hz.
pub struct OscillatorView {
    pub phase: int,
    pub d_phase: int,
    pub sample_rate: int,
}

/// An oscillator state is well formed when the phase lies in [-1, 1], the
/// increment in [0, 2] (both fixed point), and the sample rate is a positive
/// supported rate.
pub open spec fn osc_wf(o: OscillatorView) -> bool {
    &&& -FP_ONE <= o.phase <= FP_ONE
    &&& 0 <= o.d_phase <= 2 * FP_ONE
    &&& 1 <= o.sample_rate <= MAX_SAMPLE_RATE
}

/// The raw parabolic value at a phase: `p + p^2` below zero, `p - p^2` above
/// (fixed point, truncating the square's scale correction).
pub open spec fn osc_value(phase: int) -> int {
    if phase < 0 {
        phase + (phase * phase) / (FP_ONE as int)
    } else {
        phase - (phase * phase) / (FP_ONE as int)
    }
}

/// The sample an oscillator emits in its current state.
pub open spec fn osc_output(o: OscillatorView) -> int {
    -4 * osc_value(o.phase)
}

/// One phase advance: add the increment, wrapping from above 1 by -2.
pub open spec fn osc_wrapped_phase(phase: int, d_phase: int) -> int {
    if phase + d_phase > FP_ONE {
        phase + d_phase - 2 * FP_ONE
    } else {
        phase + d_phase
    }
}

/// The state after emitting one sample.
pub open spec fn osc_step(o: OscillatorView) -> OscillatorView {
    OscillatorView { phase: osc_wrapped_phase(o.phase, o.d_phase), ..o }
}

/// The state after `set_frequency`: the increment becomes
/// `2 * frequency / sample_rate` (frequency in millihertz, truncating).
pub open spec fn osc_with_frequency(o: OscillatorView, freq_mhz: int) -> OscillatorView {
    OscillatorView {
        d_phase: (2 * freq_mhz * FP_ONE) / (1000 * o.sample_rate),
        ..o
    }
}

/// The freshly constructed or reset state: phase -1, for a given increment.
pub open spec fn osc_reset_phase(o: OscillatorView) -> OscillatorView {
    OscillatorView { phase: -(FP_ONE as int), ..o }
}

/// The sequence of the next `n` samples an oscillator emits from a state.
pub open spec fn osc_output_seq(o: OscillatorView, n: nat) -> Seq<int>
    decreases n,
{
    if n == 0 {
        Seq::empty()
    } else {
        seq![osc_output(o)] + osc_output_seq(osc_step(o), (n - 1) as nat)
    }
}

/// A well-formed state emits a sample of magnitude at most 4 (fixed point).
pub proof fn lemma_osc_output_bounded(o: OscillatorView)
    requires
        osc_wf(o),
    ensures
        -4 * FP_ONE <= osc_output(o) <= 4 * FP_ONE,
        -FP_ONE <= osc_value(o.phase) <= FP_ONE,
{
    lemma_osc_square_term(o.phase);
}

/// The scale-corrected square of a well-bounded phase lies in [0, FP_ONE].
proof fn lemma_osc_square_term(phase: int)
    requires
        -FP_ONE <= phase <= FP_ONE,
    ensures
        0 <= (phase * phase) / (FP_ONE as int) <= FP_ONE,
        phase * phase <= FP_ONE * FP_ONE,
        0 <= phase * phase,
{
    assert(0 <= phase * phase <= FP_ONE * FP_ONE) by (nonlinear_arith)
        requires
            -FP_ONE <= phase <= FP_ONE,
    ;
    lemma_div_pos_is_pos(phase * phase, FP_ONE as int);
    lemma_div_is_ordered(phase * phase, FP_ONE * FP_ONE, FP_ONE as int);
    lemma_div_multiples_vanish(FP_ONE as int, FP_ONE as int);
}

/// Stepping preserves well-formedness.
pub proof fn lemma_osc_step_wf(o: OscillatorView)
    requires
        osc_wf(o),
    ensures
        osc_wf(osc_step(o)),
        osc_step(o).d_phase == o.d_phase,
        osc_step(o).sample_rate == o.sample_rate,
{
}

/// Setting a frequency below the sample rate preserves well-formedness.
pub proof fn lemma_osc_with_frequency_wf(o: OscillatorView, freq_mhz: int)
    requires
        osc_wf(o),
        0 <= freq_mhz <= 1000 * o.sample_rate,
    ensures
        osc_wf(osc_with_frequency(o, freq_mhz)),
        osc_with_frequency(o, freq_mhz).phase == o.phase,
        osc_with_frequency(o, freq_mhz).sample_rate == o.sample_rate,
{
    let num = 2 * freq_mhz * FP_ONE;
    let den = 1000 * o.sample_rate;
    assert(num <= den * (2 * FP_ONE)) by (nonlinear_arith)
        requires
            0 <= freq_mhz <= 1000 * o.sample_rate,
            den == 1000 * o.sample_rate,
            num == 2 * freq_mhz * FP_ONE,
    ;
    assert(0 <= num) by (nonlinear_arith)
        requires
            0 <= freq_mhz,
            num == 2 * freq_mhz * FP_ONE,
    ;
    lemma_div_pos_is_pos(num, den);
    lemma_div_is_ordered(num, den * (2 * FP_ONE), den);
    lemma_div_multiples_vanish(2 * FP_ONE, den);
}

/// The oscillator is fully deterministic: it holds no state besides phase,
/// increment and rate, so two oscillators in identical states emit identical
/// sample sequences of every length.
pub proof fn lemma_oscillator_deterministic(a: OscillatorView, b: OscillatorView, n: nat)
    requires
        a == b,
    ensures
        osc_output_seq(a, n) == osc_output_seq(b, n),
{
}

/// Deterministic periodic waveform generator, phase-stepped per sample.
pub struct Oscillator {
    phase: i64,
    d_phase: i64,
    sample_rate: i64,
}

impl View for Oscillator {
    type V = OscillatorView;

    closed spec fn view(&self) -> OscillatorView {
        OscillatorView {
            phase: self.phase as int,
            d_phase: self.d_phase as int,
            sample_rate: self.sample_rate as int,
        }
    }
}

impl Oscillator {
    /// A fresh oscillator at phase -1 with no increment yet.
    pub fn new(sample_rate: i64) -> (r: Self)
        requires
            1 <= sample_rate <= MAX_SAMPLE_RATE,
        ensures
            r@ == (OscillatorView {
                phase: -(FP_ONE as int),
                d_phase: 0,
                sample_rate: sample_rate as int,
            }),
            osc_wf(r@),
    {
        Oscillator { phase: -FP_ONE, d_phase: 0, sample_rate }
    }

    /// Rewinds the phase to -1; frequency and rate are kept.
    pub fn reset(&mut self)
        ensures
            final(self)@ == osc_reset_phase(old(self)@),
    {
        self.phase = -FP_ONE;
    }

    /// Sets the phase increment to `2 * frequency / sample_rate`; the
    /// frequency is given in millihertz and must not exceed the sample rate,
    /// which keeps the phase inside [-1, 1].
    pub fn set_frequency(&mut self, freq_mhz: i64)
        requires
            osc_wf(old(self)@),
            0 <= freq_mhz <= 1000 * old(self)@.sample_rate,
        ensures
            final(self)@ == osc_with_frequency(old(self)@, freq_mhz as int),
            osc_wf(final(self)@),
    {
        proof {
            lemma_osc_with_frequency_wf(self@, freq_mhz as int);
        }
        let num: i64 = 2 * freq_mhz * FP_ONE;
        let den: i64 = 1000 * self.sample_rate;
        proof {
            lemma_div_pos_is_pos(num as int, den as int);
        }
        self.d_phase = num / den;
    }

    /// Emits one sample and advances the phase.
    pub fn next_sample(&mut self) -> (r: i64)
        requires
            osc_wf(old(self)@),
        ensures
            r == osc_output(old(self)@),
            final(self)@ == osc_step(old(self)@),
            osc_wf(final(self)@),
            -4 * FP_ONE <= r <= 4 * FP_ONE,
    {
        proof {
            lemma_osc_square_term(self@.phase);
            lemma_osc_step_wf(self@);
        }
        let sq: i64 = self.phase * self.phase;
        let scaled: i64 = sq / FP_ONE;
        let value: i64 = if self.phase < 0 {
            self.phase + scaled
        } else {
            self.phase - scaled
        };
        let mut next_phase: i64 = self.phase + self.d_phase;
        if next_phase > FP_ONE {
            next_phase = next_phase - 2 * FP_ONE;
        }
        self.phase = next_phase;
        -4 * value
    }
}

} // verus!
