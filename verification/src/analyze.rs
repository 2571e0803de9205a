//! Reduction of a window of samples to an RMS amplitude.
//!
//! The analyzer works in fixed point: a sample is a signed amplitude in
//! milli-units, where 1000 milli-units stand for an amplitude of one. The RMS
//! of a window is then the floor of the square root of the mean of the
//! squared samples, itself in milli-units.

use vstd::prelude::*;

verus! {

use crate::PipelineError;

/// Largest sample magnitude, in milli-units, that the analyzer accepts
/// (an amplitude of one thousand; normalized audio stays within one).
pub const MAX_SAMPLE_MAGNITUDE: i64 = 1_000_000;

/// Largest analysis window length that the analyzer accepts.
pub const MAX_WINDOW_LEN: usize = 4_000_000;

/// A stereo pair of fixed-point samples taken from the same time index.
#[derive(Clone, Copy, Debug, PartialEq, Eq, Structural)]
pub struct StereoSample {
    /// Left-channel amplitude in milli-units.
    pub left: i64,
    /// Right-channel amplitude in milli-units.
    pub right: i64,
}

/// Sum of the squares of a sequence of samples.
pub open spec fn sum_squares(s: Seq<i64>) -> int
    decreases s.len(),
{
    if s.len() == 0 {
        0
    } else {
        sum_squares(s.drop_last()) + s.last() * s.last()
    }
}

/// Sum of the squares of the left channel of a sequence of stereo samples.
pub open spec fn sum_squares_left(s: Seq<StereoSample>) -> int
    decreases s.len(),
{
    if s.len() == 0 {
        0
    } else {
        sum_squares_left(s.drop_last()) + s.last().left * s.last().left
    }
}

/// Sum of the squares of the right channel of a sequence of stereo samples.
pub open spec fn sum_squares_right(s: Seq<StereoSample>) -> int
    decreases s.len(),
{
    if s.len() == 0 {
        0
    } else {
        sum_squares_right(s.drop_last()) + s.last().right * s.last().right
    }
}

/// `r` is the square root of `x`, rounded down.
pub open spec fn is_floor_sqrt(r: int, x: int) -> bool {
    &&& 0 <= r
    &&& r * r <= x
    &&& x < (r + 1) * (r + 1)
}

/// Square root of `x`, rounded down.
pub fn isqrt(x: u64) -> (r: u64)
    ensures
        is_floor_sqrt(r as int, x as int),
{
    let mut lo: u64 = 0;
    let mut hi: u64 = 0x1_0000_0000;
    proof {
        assert((0x1_0000_0000 as int) * (0x1_0000_0000 as int) > u64::MAX as int)
            by (nonlinear_arith);
    }
    while lo + 1 < hi
        invariant
            lo < hi <= 0x1_0000_0000,
            lo * lo <= x as int,
            (x as int) < hi * hi,
        decreases hi - lo,
    {
        let mid: u64 = lo + (hi - lo) / 2;
        assert(mid * mid <= 0xFFFF_FFFF * 0xFFFF_FFFF) by (nonlinear_arith)
            requires
                mid <= 0xFFFF_FFFF,
        ;
        let sq: u64 = mid * mid;
        if sq <= x {
            lo = mid;
        } else {
            hi = mid;
        }
    }
    lo
}

/// Compute the RMS amplitude of a window of mono samples, in milli-units.
///
/// Fails with `EmptyWindow` exactly when the window holds no samples.
pub fn rms_amplitude(samples: &Vec<i64>) -> (r: Result<u64, PipelineError>)
    requires
        samples@.len() <= MAX_WINDOW_LEN,
        forall|j: int|
            0 <= j < samples@.len()
                ==> -MAX_SAMPLE_MAGNITUDE <= #[trigger] samples@[j] <= MAX_SAMPLE_MAGNITUDE,
    ensures
        match r {
            Ok(a) => samples@.len() > 0 && is_floor_sqrt(
                a as int,
                sum_squares(samples@) / samples@.len() as int,
            ),
            Err(e) => samples@.len() == 0 && e == PipelineError::EmptyWindow,
        },
{
    if samples.len() == 0 {
        return Err(PipelineError::EmptyWindow);
    }
    let n: usize = samples.len();
    let mut sum: u64 = 0;
    let mut k: usize = 0;
    while k < n
        invariant
            n == samples@.len(),
            n <= MAX_WINDOW_LEN,
            k <= n,
            forall|j: int|
                0 <= j < samples@.len()
                    ==> -MAX_SAMPLE_MAGNITUDE <= #[trigger] samples@[j] <= MAX_SAMPLE_MAGNITUDE,
            sum == sum_squares(samples@.take(k as int)),
            sum <= k * 1_000_000_000_000,
        decreases n - k,
    {
        let v: i64 = samples[k];
        assert(0 <= v * v <= 1_000_000_000_000) by (nonlinear_arith)
            requires
                -1_000_000 <= v <= 1_000_000,
        ;
        let sq: i64 = v * v;
        proof {
            assert(samples@.take(k + 1).drop_last() =~= samples@.take(k as int));
            assert(samples@.take(k + 1).last() == samples@[k as int]);
        }
        sum = sum + (sq as u64);
        k = k + 1;
    }
    proof {
        assert(samples@.take(n as int) =~= samples@);
    }
    let mean: u64 = sum / (n as u64);
    Ok(isqrt(mean))
}

/// Compute the RMS amplitude of each channel of a window of stereo samples,
/// in milli-units, over the same window in a single pass; the result is
/// `(left, right)`.
///
/// Fails with `EmptyWindow` exactly when the window holds no samples.
pub fn rms_amplitude_stereo(samples: &Vec<StereoSample>) -> (r: Result<
    (u64, u64),
    PipelineError,
>)
    requires
        samples@.len() <= MAX_WINDOW_LEN,
        forall|j: int|
            0 <= j < samples@.len() ==> {
                &&& -MAX_SAMPLE_MAGNITUDE <= #[trigger] samples@[j].left <= MAX_SAMPLE_MAGNITUDE
                &&& -MAX_SAMPLE_MAGNITUDE <= samples@[j].right <= MAX_SAMPLE_MAGNITUDE
            },
    ensures
        match r {
            Ok(amps) => {
                &&& samples@.len() > 0
                &&& is_floor_sqrt(
                    amps.0 as int,
                    sum_squares_left(samples@) / samples@.len() as int,
                )
                &&& is_floor_sqrt(
                    amps.1 as int,
                    sum_squares_right(samples@) / samples@.len() as int,
                )
            },
            Err(e) => samples@.len() == 0 && e == PipelineError::EmptyWindow,
        },
{
    if samples.len() == 0 {
        return Err(PipelineError::EmptyWindow);
    }
    let n: usize = samples.len();
    let mut left_sum: u64 = 0;
    let mut right_sum: u64 = 0;
    let mut k: usize = 0;
    while k < n
        invariant
            n == samples@.len(),
            n <= MAX_WINDOW_LEN,
            k <= n,
            forall|j: int|
                0 <= j < samples@.len() ==> {
                    &&& -MAX_SAMPLE_MAGNITUDE <= #[trigger] samples@[j].left <= MAX_SAMPLE_MAGNITUDE
                    &&& -MAX_SAMPLE_MAGNITUDE <= samples@[j].right <= MAX_SAMPLE_MAGNITUDE
                },
            left_sum == sum_squares_left(samples@.take(k as int)),
            right_sum == sum_squares_right(samples@.take(k as int)),
            left_sum <= k * 1_000_000_000_000,
            right_sum <= k * 1_000_000_000_000,
        decreases n - k,
    {
        let s: StereoSample = samples[k];
        assert(0 <= s.left * s.left <= 1_000_000_000_000 && 0 <= s.right * s.right
            <= 1_000_000_000_000) by (nonlinear_arith)
            requires
                -1_000_000 <= s.left <= 1_000_000,
                -1_000_000 <= s.right <= 1_000_000,
        ;
        let left_sq: i64 = s.left * s.left;
        let right_sq: i64 = s.right * s.right;
        proof {
            assert(samples@.take(k + 1).drop_last() =~= samples@.take(k as int));
            assert(samples@.take(k + 1).last() == samples@[k as int]);
        }
        left_sum = left_sum + (left_sq as u64);
        right_sum = right_sum + (right_sq as u64);
        k = k + 1;
    }
    proof {
        assert(samples@.take(n as int) =~= samples@);
    }
    let left_mean: u64 = left_sum / (n as u64);
    let right_mean: u64 = right_sum / (n as u64);
    Ok((isqrt(left_mean), isqrt(right_mean)))
}

} // verus!
