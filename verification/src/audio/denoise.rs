//! Sample-rate conversion by linear interpolation, and the frames of the
//! noise suppressor.
//!
//! The suppressor works on mono audio at 48 kHz in frames of 480 samples.

use vstd::prelude::*;
use vstd::arithmetic::div_mod::{
    lemma_div_multiples_vanish, lemma_fundamental_div_mod, lemma_mod_multiples_basic,
    lemma_mod_pos_bound,
};
use vstd::arithmetic::mul::{
    lemma_mul_inequality, lemma_mul_is_commutative, lemma_mul_strict_inequality,
    lemma_mul_strict_inequality_converse, lemma_mul_is_distributive_add_other_way,
};
use crate::arith::{
    ceil_div, lemma_ceil_div, lemma_ceil_div_from_bounds, lemma_div_bounds, lemma_div_from_bounds,
};
use crate::audio::capture::sample_or_silence;
use crate::framing::{frame_count, lemma_frame_sizes, leftover, FrameBuffer};

verus! {

/// Frame size of the suppressor (10 ms at 48 kHz).
pub const DENOISE_FRAME_SIZE: usize = 480;

/// Sample rate of the suppressor.
pub const DENOISE_SAMPLE_RATE: u32 = 48000;

// ============ Suppressor frames ============

/// An empty accumulation buffer for the suppressor's frames.
pub fn suppressor_frames<T: Copy>() -> (b: FrameBuffer<T>)
    ensures
        b.wf(),
        b.frame_len() == DENOISE_FRAME_SIZE,
        b.pending().len() == 0,
{
    FrameBuffer::new(DENOISE_FRAME_SIZE)
}

/// Number of samples that come out when `input` samples go into a
/// suppressor that holds `pending` samples: those of the frames completed.
pub open spec fn suppressed_len(pending: nat, input: nat) -> nat {
    ((pending + input) / (DENOISE_FRAME_SIZE as nat)) * DENOISE_FRAME_SIZE as nat
}

/// Less than one frame is held back: what comes out of the suppressor is
/// what went in and was waiting, short of a remainder below the frame size.
pub proof fn lemma_suppressed_len<T>(pending: Seq<T>, input: Seq<T>)
    ensures
        suppressed_len(pending.len(), input.len()) == frame_count(
            pending + input,
            DENOISE_FRAME_SIZE as nat,
        ) * DENOISE_FRAME_SIZE,
        suppressed_len(pending.len(), input.len()) + leftover(
            pending + input,
            DENOISE_FRAME_SIZE as nat,
        ).len() == pending.len() + input.len(),
        suppressed_len(pending.len(), input.len()) + DENOISE_FRAME_SIZE > pending.len()
            + input.len(),
{
    lemma_frame_sizes(pending + input, DENOISE_FRAME_SIZE as nat);
}

// ============ Sample-rate conversion ============

/// Number of output samples for `input_len` input samples:
/// `input_len * target_rate / source_rate`, rounded up.
pub open spec fn spec_resampled_len(input_len: nat, source_rate: nat, target_rate: nat) -> nat
    recommends
        source_rate > 0,
{
    ceil_div(input_len * target_rate, source_rate)
}

/// Where an output sample comes from. Past its end the input goes on as
/// silence.
#[derive(Debug, Clone, Copy, PartialEq, Eq, Structural)]
pub enum Tap {
    /// Between input samples `index` and `index + 1`, at `numer / target_rate`
    /// of the way from the first to the second.
    Between { index: usize, numer: u32 },
    /// Between the last input sample, at `index`, and the silence after it,
    /// at `numer / target_rate` of the way from the sample to the silence.
    /// `numer` is not 0.
    Fading { index: usize, numer: u32 },
    /// The last input sample, as it is.
    Last { index: usize },
    /// Past the end of the input: silence.
    Silence,
}

/// The source position of output sample `i` is `i * source_rate /
/// target_rate`: its whole part is the index, its remainder the weight of
/// the sample that follows.
pub open spec fn spec_tap(i: nat, input_len: nat, source_rate: nat, target_rate: nat) -> Tap
    recommends
        target_rate > 0,
{
    let floor = (i * source_rate) / target_rate;
    let numer = (i * source_rate) % target_rate;
    if floor + 1 < input_len {
        Tap::Between { index: floor as usize, numer: numer as u32 }
    } else if floor + 1 == input_len {
        if numer == 0 {
            Tap::Last { index: floor as usize }
        } else {
            Tap::Fading { index: floor as usize, numer: numer as u32 }
        }
    } else {
        Tap::Silence
    }
}

/// Output sample `i` of a conversion of the whole numbers `input`, times
/// `target_rate`: the input sample at the whole part of the source position
/// and the one after it, each weighted by how near the position is to it.
/// Past its end the input is silence.
pub open spec fn interpolated(input: Seq<int>, i: nat, source_rate: nat, target_rate: nat) -> int
    recommends
        target_rate > 0,
{
    let floor = ((i * source_rate) / target_rate) as int;
    let numer = ((i * source_rate) % target_rate) as int;
    sample_or_silence(input, floor) * (target_rate - numer) + sample_or_silence(input, floor + 1)
        * numer
}

impl Tap {
    /// The output sample is exactly input sample `j`.
    pub open spec fn picks(self, j: nat) -> bool {
        match self {
            Tap::Between { index, numer } => index == j && numer == 0,
            Tap::Fading { .. } => false,
            Tap::Last { index } => index == j,
            Tap::Silence => false,
        }
    }

    /// The sample that the tap yields, times `target_rate`, for the whole
    /// numbers `input`: the sample at the index and the one after it, or
    /// silence, each with its weight.
    pub open spec fn weighed(self, input: Seq<int>, target_rate: nat) -> int {
        match self {
            Tap::Between { index, numer } => input[index as int] * (target_rate - numer) + input[index
                + 1] * numer,
            Tap::Fading { index, numer } => input[index as int] * (target_rate - numer),
            Tap::Last { index } => input[index as int] * target_rate,
            Tap::Silence => 0,
        }
    }
}

/// What a conversion from one rate to another comes to.
#[derive(Debug, Clone, Copy, PartialEq, Eq, Structural)]
pub enum ResamplePlan {
    /// The rates are equal: the output is the input, sample for sample.
    Unchanged,
    /// The output has `len` samples, each with a tap of its own.
    Interpolate { len: usize },
    /// The output would have more samples than a machine can address.
    TooLong,
}

/// Equal rates leave the signal as it is, whatever the rate. Otherwise the
/// output has `spec_resampled_len` samples: none for an empty input, and
/// without end for a non-empty input at source rate 0.
pub open spec fn spec_resample_plan(input_len: nat, source_rate: nat, target_rate: nat)
    -> ResamplePlan {
    if source_rate == target_rate {
        ResamplePlan::Unchanged
    } else if input_len == 0 {
        ResamplePlan::Interpolate { len: 0 }
    } else if source_rate == 0 || spec_resampled_len(input_len, source_rate, target_rate)
        > usize::MAX {
        ResamplePlan::TooLong
    } else {
        ResamplePlan::Interpolate {
            len: spec_resampled_len(input_len, source_rate, target_rate) as usize,
        }
    }
}

/// Decides what a conversion of `input_len` samples comes to. Where there
/// are output samples to interpolate, the target rate is above 0, so that
/// each of them has a tap.
pub fn plan_resample(input_len: usize, source_rate: u32, target_rate: u32) -> (plan: ResamplePlan)
    ensures
        plan == spec_resample_plan(input_len as nat, source_rate as nat, target_rate as nat),
        plan matches ResamplePlan::Interpolate { len } && len > 0 ==> target_rate > 0,
{
    if source_rate == target_rate {
        return ResamplePlan::Unchanged;
    }
    if input_len == 0 {
        return ResamplePlan::Interpolate { len: 0 };
    }
    if source_rate == 0 {
        return ResamplePlan::TooLong;
    }
    assert(input_len * target_rate <= 0xFFFF_FFFF_FFFF_FFFF * 0xFFFF_FFFF) by (nonlinear_arith)
        requires
            0 <= input_len <= 0xFFFF_FFFF_FFFF_FFFF,
            0 <= target_rate <= 0xFFFF_FFFF,
    ;
    let total: u128 = input_len as u128 * target_rate as u128;
    let n: u128 = (total + (source_rate as u128 - 1)) / source_rate as u128;
    assert(target_rate == 0 ==> n == 0) by {
        if target_rate == 0 {
            assert(total == 0) by (nonlinear_arith)
                requires
                    total == input_len * target_rate,
                    target_rate == 0,
            ;
            lemma_div_from_bounds((source_rate - 1) as nat, source_rate as nat, 0);
        }
    }
    if n <= usize::MAX as u128 {
        ResamplePlan::Interpolate { len: n as usize }
    } else {
        ResamplePlan::TooLong
    }
}

/// Number of samples that a conversion of `input_len` samples yields.
pub fn resampled_len(input_len: usize, source_rate: u32, target_rate: u32) -> (n: usize)
    requires
        source_rate > 0,
        spec_resampled_len(input_len as nat, source_rate as nat, target_rate as nat) <= usize::MAX,
    ensures
        n == spec_resampled_len(input_len as nat, source_rate as nat, target_rate as nat),
{
    assert(input_len * target_rate <= 0xFFFF_FFFF_FFFF_FFFF * 0xFFFF_FFFF) by (nonlinear_arith)
        requires
            0 <= input_len <= 0xFFFF_FFFF_FFFF_FFFF,
            0 <= target_rate <= 0xFFFF_FFFF,
    ;
    let total: u128 = input_len as u128 * target_rate as u128;
    let n = (total + (source_rate as u128 - 1)) / source_rate as u128;
    n as usize
}

/// Where output sample `i` of a conversion comes from.
pub fn resample_tap(i: usize, input_len: usize, source_rate: u32, target_rate: u32) -> (tap: Tap)
    requires
        target_rate > 0,
    ensures
        tap == spec_tap(i as nat, input_len as nat, source_rate as nat, target_rate as nat),
{
    assert(i * source_rate <= 0xFFFF_FFFF_FFFF_FFFF * 0xFFFF_FFFF) by (nonlinear_arith)
        requires
            0 <= i <= 0xFFFF_FFFF_FFFF_FFFF,
            0 <= source_rate <= 0xFFFF_FFFF,
    ;
    let position: u128 = i as u128 * source_rate as u128;
    let floor = position / target_rate as u128;
    let numer = position % target_rate as u128;
    if floor + 1 < input_len as u128 {
        Tap::Between { index: floor as usize, numer: numer as u32 }
    } else if floor + 1 == input_len as u128 {
        if numer == 0 {
            Tap::Last { index: floor as usize }
        } else {
            Tap::Fading { index: floor as usize, numer: numer as u32 }
        }
    } else {
        Tap::Silence
    }
}

/// Between equal rates the signal is left unchanged, for every rate and
/// every input, the empty one too.
pub proof fn lemma_equal_rates_unchanged(input_len: nat, rate: nat)
    ensures
        spec_resample_plan(input_len, rate, rate) == ResamplePlan::Unchanged,
{
}

/// Between equal rates nothing changes: the output is as long as the input,
/// and every output sample is the input sample at the same place.
pub proof fn lemma_resample_identity(input_len: nat, rate: nat, i: nat)
    requires
        rate > 0,
        input_len <= usize::MAX,
    ensures
        spec_resampled_len(input_len, rate, rate) == input_len,
        i < input_len ==> spec_tap(i, input_len, rate, rate).picks(i),
{
    lemma_ceil_div_from_bounds(input_len * rate, rate, input_len);
    lemma_div_multiples_vanish(i as int, rate as int);
    lemma_mod_multiples_basic(i as int, rate as int);
    lemma_mul_is_commutative(i as int, rate as int);
}

/// The output length is the exact ceiling of `input_len * target_rate /
/// source_rate`: the least `n` with `input_len * target_rate <= n *
/// source_rate`.
pub proof fn lemma_resampled_len_is_ceiling(input_len: nat, source_rate: nat, target_rate: nat)
    requires
        source_rate > 0,
    ensures
        input_len * target_rate <= spec_resampled_len(input_len, source_rate, target_rate)
            * source_rate < input_len * target_rate + source_rate,
{
    lemma_ceil_div(input_len * target_rate, source_rate);
}

/// Converting to a higher rate lengthens a non-empty signal; converting to
/// a lower or equal rate never lengthens it.
pub proof fn lemma_resampled_len_grows_with_rate(
    input_len: nat,
    source_rate: nat,
    target_rate: nat,
)
    requires
        source_rate > 0,
    ensures
        target_rate > source_rate && input_len > 0 ==> spec_resampled_len(
            input_len,
            source_rate,
            target_rate,
        ) > input_len,
        target_rate <= source_rate ==> spec_resampled_len(input_len, source_rate, target_rate)
            <= input_len,
{
    let n = spec_resampled_len(input_len, source_rate, target_rate);
    lemma_ceil_div(input_len * target_rate, source_rate);
    if target_rate > source_rate && input_len > 0 {
        lemma_mul_strict_inequality(source_rate as int, target_rate as int, input_len as int);
        lemma_mul_is_commutative(input_len as int, source_rate as int);
        lemma_mul_is_commutative(input_len as int, target_rate as int);
        // input_len * source_rate < input_len * target_rate <= n * source_rate
        if n <= input_len {
            lemma_mul_inequality(n as int, input_len as int, source_rate as int);
        }
    }
    if target_rate <= source_rate {
        lemma_mul_inequality(target_rate as int, source_rate as int, input_len as int);
        lemma_mul_is_commutative(input_len as int, source_rate as int);
        lemma_mul_is_commutative(input_len as int, target_rate as int);
        // n * source_rate < input_len * source_rate + source_rate
        lemma_mul_is_distributive_add_other_way(source_rate as int, input_len as int, 1);
        if n > input_len {
            lemma_mul_inequality((input_len + 1) as int, n as int, source_rate as int);
        }
    }
}

/// Every output sample of a conversion lies within the input: none of them
/// is silence from past the end.
pub proof fn lemma_taps_within_input(i: nat, input_len: nat, source_rate: nat, target_rate: nat)
    requires
        source_rate > 0,
        target_rate > 0,
        i < spec_resampled_len(input_len, source_rate, target_rate),
    ensures
        (i * source_rate) / target_rate < input_len,
        spec_tap(i, input_len, source_rate, target_rate) != Tap::Silence,
{
    let n = spec_resampled_len(input_len, source_rate, target_rate);
    lemma_ceil_div(input_len * target_rate, source_rate);
    // (i + 1) * source_rate <= n * source_rate < input_len * target_rate + source_rate
    lemma_mul_inequality((i + 1) as int, n as int, source_rate as int);
    lemma_mul_is_distributive_add_other_way(source_rate as int, i as int, 1);
    let floor = (i * source_rate) / target_rate;
    lemma_div_bounds(i * source_rate, target_rate);
    lemma_mul_strict_inequality_converse(floor as int, input_len as int, target_rate as int);
}

/// A tap names the source position of its output sample exactly: the
/// index and the weight make up `i * source_rate / target_rate`, and
/// silence stands only for positions at or past the end of the input.
pub proof fn lemma_tap_position(i: nat, input_len: nat, source_rate: nat, target_rate: nat)
    requires
        0 < target_rate <= u32::MAX,
        input_len <= usize::MAX,
    ensures
        match spec_tap(i, input_len, source_rate, target_rate) {
            Tap::Between { index, numer } => {
                &&& index * target_rate + numer == i * source_rate
                &&& numer < target_rate
                &&& index + 1 < input_len
            },
            Tap::Fading { index, numer } => {
                &&& index * target_rate + numer == i * source_rate
                &&& 0 < numer < target_rate
                &&& index + 1 == input_len
            },
            Tap::Last { index } => index * target_rate == i * source_rate && index + 1 == input_len,
            Tap::Silence => i * source_rate >= input_len * target_rate,
        },
{
    let floor = (i * source_rate) / target_rate;
    lemma_fundamental_div_mod((i * source_rate) as int, target_rate as int);
    lemma_mod_pos_bound((i * source_rate) as int, target_rate as int);
    lemma_mul_is_commutative(target_rate as int, floor as int);
    if floor >= input_len {
        lemma_mul_inequality(input_len as int, floor as int, target_rate as int);
    }
}

/// A tap stands for linear interpolation with silence after the input: the
/// sample that it yields is the interpolated one.
pub proof fn lemma_tap_interpolates(input: Seq<int>, i: nat, source_rate: nat, target_rate: nat)
    requires
        0 < target_rate <= u32::MAX,
        input.len() <= usize::MAX,
    ensures
        spec_tap(i, input.len(), source_rate, target_rate).weighed(input, target_rate)
            == interpolated(input, i, source_rate, target_rate),
{
    lemma_mod_pos_bound((i * source_rate) as int, target_rate as int);
}

/// Interpolation keeps the shape of the signal: every output sample lies
/// between the two input samples that its position lies between.
pub proof fn lemma_interpolated_between_neighbours(
    input: Seq<int>,
    i: nat,
    source_rate: nat,
    target_rate: nat,
)
    requires
        target_rate > 0,
    ensures
        ({
            let floor = ((i * source_rate) / target_rate) as int;
            let before = sample_or_silence(input, floor);
            let after = sample_or_silence(input, floor + 1);
            let sample = interpolated(input, i, source_rate, target_rate);
            &&& before <= after ==> before * target_rate <= sample <= after * target_rate
            &&& after <= before ==> after * target_rate <= sample <= before * target_rate
        }),
{
    let floor = ((i * source_rate) / target_rate) as int;
    let numer = ((i * source_rate) % target_rate) as int;
    let before = sample_or_silence(input, floor);
    let after = sample_or_silence(input, floor + 1);
    let t = target_rate as int;
    lemma_mod_pos_bound((i * source_rate) as int, t);
    assert(before <= after ==> before * t <= before * (t - numer) + after * numer <= after * t)
        by (nonlinear_arith)
        requires
            0 <= numer < t,
    ;
    assert(after <= before ==> after * t <= before * (t - numer) + after * numer <= before * t)
        by (nonlinear_arith)
        requires
            0 <= numer < t,
    ;
}

/// Converting a non-empty signal to a higher rate gives the exact ceiling
/// of `input_len * target_rate / source_rate` samples, more than went in.
/// There is no such output only where it would be too long to address, as
/// it always is from source rate 0.
pub proof fn lemma_upsampling_lengthens(input_len: nat, source_rate: nat, target_rate: nat)
    requires
        input_len > 0,
        source_rate < target_rate,
    ensures
        match spec_resample_plan(input_len, source_rate, target_rate) {
            ResamplePlan::Unchanged => false,
            ResamplePlan::Interpolate { len } => {
                &&& source_rate > 0
                &&& len == spec_resampled_len(input_len, source_rate, target_rate)
                &&& input_len * target_rate <= len * source_rate < input_len * target_rate
                    + source_rate
                &&& len > input_len
            },
            ResamplePlan::TooLong => source_rate == 0 || spec_resampled_len(
                input_len,
                source_rate,
                target_rate,
            ) > usize::MAX,
        },
{
    if source_rate > 0 {
        lemma_resampled_len_is_ceiling(input_len, source_rate, target_rate);
        lemma_resampled_len_grows_with_rate(input_len, source_rate, target_rate);
    }
}

/// Where a plan interpolates, it interpolates along taps within the input,
/// and between equal rates above 0 those taps would pick each sample as it
/// is: the plan that leaves the signal unchanged agrees with them.
pub proof fn lemma_plan_taps(input_len: nat, source_rate: nat, target_rate: nat, i: nat)
    requires
        0 < target_rate <= u32::MAX,
        input_len <= usize::MAX,
    ensures
        spec_resample_plan(input_len, source_rate, target_rate) matches ResamplePlan::Interpolate {
            len,
        } && i < len ==> spec_tap(i, input_len, source_rate, target_rate) != Tap::Silence,
        source_rate == target_rate && i < input_len ==> spec_tap(
            i,
            input_len,
            source_rate,
            target_rate,
        ).picks(i),
{
    if source_rate == target_rate {
        lemma_resample_identity(input_len, source_rate, i);
    } else if input_len > 0 && source_rate > 0 {
        if i < spec_resampled_len(input_len, source_rate, target_rate) {
            lemma_taps_within_input(i, input_len, source_rate, target_rate);
        }
    }
}

} // verus!
