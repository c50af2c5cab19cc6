//! The signal synthesizer: one function per waveform, from a sample index and
//! an amplitude to one sample.
//!
//! The index is the position of the sample in the whole signal of a session,
//! the generation cursor already added. A sample is fixed here as far as
//! integer arithmetic fixes it: which term of which waveform it is, at which
//! index or phase, or outright which number. Evaluating a term (a sine, an
//! exponential, a product, a uniform draw) is floating-point work and is left
//! to the caller; each variant of `Sample` says what is to be evaluated.
use crate::binary64::{SIGN_BIT, ZERO};
use crate::parameters::SignalPattern;
use vstd::prelude::*;

verus! {

/// Samples in one level of the step pattern.
pub const STEP_WIDTH: u64 = 10;

/// Samples in one period of the impulse response.
pub const IMPULSE_PERIOD: u64 = 100;

/// One sample of a signal. Amplitudes and levels are binary64 encodings.
#[derive(Debug, Clone, Copy, PartialEq, Eq, Structural)]
pub enum Sample {
    /// `amplitude * sin(index * 0.1)`.
    Sine { amplitude: u64, index: u64 },
    /// A uniform draw from `[-|amplitude|, |amplitude|)`, fresh for this
    /// sample; the amplitude is not zero.
    Noise { amplitude: u64 },
    /// The number that `value` encodes.
    Level { value: u64 },
    /// `amplitude * exp(-0.1 * phase)`, the tail of an impulse response, with
    /// `0 < phase < IMPULSE_PERIOD`.
    Decay { amplitude: u64, phase: u64 },
    /// `amplitude * (sin(index * 0.1) + u)`, with `u` a uniform draw from
    /// `[-0.2, 0.2)`, fresh for this sample.
    Mixed { amplitude: u64, index: u64 },
    /// The whole number `value`.
    Whole { value: u64 },
}

/// The step pattern is at its high level at `index`: the levels are
/// `STEP_WIDTH` samples wide and the first one is high.
pub open spec fn step_is_high(index: u64) -> bool {
    (index / STEP_WIDTH) % 2 == 0
}

/// The position of `index` within its period of the impulse response.
pub open spec fn impulse_phase(index: u64) -> u64 {
    index % IMPULSE_PERIOD
}

/// The sine sample at `index`.
pub open spec fn sine_sample(index: u64, amplitude: u64) -> Sample {
    Sample::Sine { amplitude, index }
}

/// The noise sample of the given amplitude: a draw, or plain zero where the
/// amplitude is zero and leaves nothing to draw from.
pub open spec fn noise_sample(amplitude: u64) -> Sample {
    if amplitude == ZERO || amplitude == SIGN_BIT {
        Sample::Level { value: ZERO }
    } else {
        Sample::Noise { amplitude }
    }
}

/// The step sample at `index`: the amplitude on a high level, zero on a low
/// one.
pub open spec fn step_sample(index: u64, amplitude: u64) -> Sample {
    Sample::Level { value: if step_is_high(index) { amplitude } else { ZERO } }
}

/// The impulse-response sample at `index`: the amplitude where a period
/// starts, the decaying tail elsewhere.
pub open spec fn impulse_sample(index: u64, amplitude: u64) -> Sample {
    if impulse_phase(index) < 1 {
        Sample::Level { value: amplitude }
    } else {
        Sample::Decay { amplitude, phase: impulse_phase(index) }
    }
}

/// The sample of sine plus noise at `index`.
pub open spec fn mixed_sample(index: u64, amplitude: u64) -> Sample {
    Sample::Mixed { amplitude, index }
}

/// The sample of `pattern` at `index`.
pub open spec fn pattern_sample(pattern: SignalPattern, index: u64, amplitude: u64) -> Sample {
    match pattern {
        SignalPattern::SineWave => sine_sample(index, amplitude),
        SignalPattern::RandomNoise => noise_sample(amplitude),
        SignalPattern::StepFunction => step_sample(index, amplitude),
        SignalPattern::ImpulseResponse => impulse_sample(index, amplitude),
        SignalPattern::Mixed => mixed_sample(index, amplitude),
    }
}

/// The sine sample at `index`.
pub fn sine_wave_value(index: u64, amplitude: u64) -> (sample: Sample)
    ensures
        sample == sine_sample(index, amplitude),
{
    Sample::Sine { amplitude, index }
}

/// A noise sample of the given amplitude.
pub fn random_noise_value(amplitude: u64) -> (sample: Sample)
    ensures
        sample == noise_sample(amplitude),
{
    if amplitude == ZERO || amplitude == SIGN_BIT {
        Sample::Level { value: ZERO }
    } else {
        Sample::Noise { amplitude }
    }
}

/// The step sample at `index`.
pub fn step_function_value(index: u64, amplitude: u64) -> (sample: Sample)
    ensures
        sample == step_sample(index, amplitude),
{
    if (index / STEP_WIDTH) % 2 == 0 {
        Sample::Level { value: amplitude }
    } else {
        Sample::Level { value: ZERO }
    }
}

/// The impulse-response sample at `index`.
pub fn impulse_response_value(index: u64, amplitude: u64) -> (sample: Sample)
    ensures
        sample == impulse_sample(index, amplitude),
{
    let phase: u64 = index % IMPULSE_PERIOD;
    if phase < 1 {
        Sample::Level { value: amplitude }
    } else {
        Sample::Decay { amplitude, phase }
    }
}

/// The sample of sine plus noise at `index`.
pub fn mixed_pattern_value(index: u64, amplitude: u64) -> (sample: Sample)
    ensures
        sample == mixed_sample(index, amplitude),
{
    Sample::Mixed { amplitude, index }
}

/// The sample of `pattern` at `index`.
pub fn pattern_value(pattern: SignalPattern, index: u64, amplitude: u64) -> (sample: Sample)
    ensures
        sample == pattern_sample(pattern, index, amplitude),
{
    match pattern {
        SignalPattern::SineWave => sine_wave_value(index, amplitude),
        SignalPattern::RandomNoise => random_noise_value(amplitude),
        SignalPattern::StepFunction => step_function_value(index, amplitude),
        SignalPattern::ImpulseResponse => impulse_response_value(index, amplitude),
        SignalPattern::Mixed => mixed_pattern_value(index, amplitude),
    }
}

/// The step pattern starts at the amplitude, holds each level for
/// `STEP_WIDTH` samples, and changes level from each run of `STEP_WIDTH`
/// samples to the next: its samples are the amplitude on the runs of even
/// number and zero on those of odd number.
pub proof fn lemma_step_alternates(index: u64, other: u64, amplitude: u64)
    ensures
        step_sample(0, amplitude) == (Sample::Level { value: amplitude }),
        step_sample(index, amplitude) == (Sample::Level { value: amplitude }) || step_sample(
            index,
            amplitude,
        ) == (Sample::Level { value: ZERO }),
        index / STEP_WIDTH == other / STEP_WIDTH ==> step_sample(index, amplitude) == step_sample(
            other,
            amplitude,
        ),
        index + STEP_WIDTH <= u64::MAX ==> step_is_high((index + STEP_WIDTH) as u64)
            != step_is_high(index),
{
    if index + STEP_WIDTH <= u64::MAX {
        assert((index + 10) / 10 == index / 10 + 1);
    }
}

/// The impulse response repeats with every `IMPULSE_PERIOD` samples, and is
/// at the amplitude exactly where a period starts.
pub proof fn lemma_impulse_repeats(index: u64, amplitude: u64)
    ensures
        impulse_sample(index, amplitude) == (Sample::Level { value: amplitude }) <==> index
            % IMPULSE_PERIOD == 0,
        index + IMPULSE_PERIOD <= u64::MAX ==> impulse_sample(
            (index + IMPULSE_PERIOD) as u64,
            amplitude,
        ) == impulse_sample(index, amplitude),
{
    if index + IMPULSE_PERIOD <= u64::MAX {
        assert((index + 100) % 100 == index % 100);
    }
}

} // verus!
