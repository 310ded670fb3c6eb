//! Offline preparation of a drift series for spectral analysis.
//!
//! Before a series is transformed, a fixed lead-in is discarded to exclude
//! the startup transient, and the remainder is faded in linearly — in that
//! order: skip first, then fade what is left. Both window lengths are
//! derived from the stream geometry, one sample per period.

use vstd::prelude::*;
use vstd::arithmetic::div_mod::lemma_div_is_ordered;
use vstd::arithmetic::div_mod::lemma_div_multiples_vanish;
use crate::dsp::SAMPLE_LIMIT;
use crate::dsp::sample_ok;
use crate::numeric::floor_div_i128;

verus! {

/// Why a series could not be prepared.
#[derive(Clone, Copy, Debug, PartialEq, Eq, Structural)]
pub enum SeriesError {
    /// The lead-in to discard is longer than the series.
    SkipBeyondEnd,
    /// Only a single sample would be faded; the linear ramp from zero to
    /// one needs at least two points.
    DegenerateFade,
    /// The fade-in window is longer than what remains after the skip.
    FadeBeyondEnd,
}

/// How many series samples one window of `window_millis` milliseconds
/// spans, at one sample per period, rounded down.
pub fn samples_in_window(sample_rate: u32, window_millis: u32, period_size: u32) -> (r: u64)
    requires
        period_size >= 1,
    ensures
        r == sample_rate * window_millis / (1000 * period_size),
{
    proof {
        assert(sample_rate * window_millis <= 0xffff_ffffu64 * 0xffff_ffffu64
            && 1000 <= 1000 * period_size <= 1000 * 0xffff_ffffu64)
            by (nonlinear_arith)
            requires
                0 <= sample_rate <= 0xffff_ffffu64,
                0 <= window_millis <= 0xffff_ffffu64,
                1 <= period_size <= 0xffff_ffffu64,
        ;
    }
    ((sample_rate as u64) * (window_millis as u64)) / (1000u64 * (period_size as u64))
}

/// A faded sample: the original value scaled by `i / (fade - 1)`, rounded
/// toward negative infinity, so the first faded sample is scaled by zero
/// and the last by one.
pub open spec fn spec_faded(v: int, i: int, fade: int) -> int {
    v * i / (fade - 1)
}

/// Bound on a linearly scaled sample: scaling by `i / d` with `i` at most
/// `d` keeps the value in the sample range.
proof fn lemma_faded_in_range(v: int, i: int, d: int)
    requires
        -SAMPLE_LIMIT <= v <= SAMPLE_LIMIT,
        0 <= i <= d,
        0 < d,
    ensures
        -SAMPLE_LIMIT <= v * i / d <= SAMPLE_LIMIT,
{
    let lo = d * (-(SAMPLE_LIMIT as int));
    let hi = d * (SAMPLE_LIMIT as int);
    assert(lo <= v * i <= hi) by (nonlinear_arith)
        requires
            -SAMPLE_LIMIT <= v <= SAMPLE_LIMIT,
            0 <= i <= d,
            0 < d,
            lo == d * (-(SAMPLE_LIMIT as int)),
            hi == d * (SAMPLE_LIMIT as int),
    ;
    lemma_div_is_ordered(lo, v * i, d);
    lemma_div_is_ordered(v * i, hi, d);
    lemma_div_multiples_vanish(-(SAMPLE_LIMIT as int), d);
    lemma_div_multiples_vanish(SAMPLE_LIMIT as int, d);
}

/// Discards the first `skip` samples of a raw series, then fades the first
/// `fade` samples of the remainder in linearly, from a factor of zero up to
/// exactly one. The startup transient is excluded before anything is
/// scaled; everything past the fade window is returned unchanged.
pub fn prepare_series(data: &Vec<i64>, skip: usize, fade: usize) -> (r: Result<
    Vec<i64>,
    SeriesError,
>)
    requires
        forall|i: int| 0 <= i < data@.len() ==> sample_ok(#[trigger] data@[i] as int),
    ensures
        match r {
            Ok(v) => {
                &&& skip <= data@.len()
                &&& fade != 1
                &&& fade <= data@.len() - skip
                &&& v@.len() == data@.len() - skip
                &&& forall|i: int| 0 <= i < fade
                    ==> #[trigger] v@[i] as int == spec_faded(data@[skip + i] as int, i, fade as int)
                &&& forall|i: int| fade <= i < v@.len() ==> #[trigger] v@[i] == data@[skip + i]
            },
            Err(SeriesError::SkipBeyondEnd) => skip > data@.len(),
            Err(SeriesError::DegenerateFade) => skip <= data@.len() && fade == 1,
            Err(SeriesError::FadeBeyondEnd) => {
                &&& skip <= data@.len()
                &&& fade != 1
                &&& fade > data@.len() - skip
            },
        },
{
    if skip > data.len() {
        return Err(SeriesError::SkipBeyondEnd);
    }
    if fade == 1 {
        return Err(SeriesError::DegenerateFade);
    }
    if fade > data.len() - skip {
        return Err(SeriesError::FadeBeyondEnd);
    }
    let n = data.len() - skip;
    let mut out: Vec<i64> = Vec::new();
    let mut i: usize = 0;
    while i < n
        invariant
            0 <= i <= n,
            n == data@.len() - skip,
            skip + n <= data@.len(),
            skip + n <= usize::MAX,
            fade != 1,
            fade <= n,
            out@.len() == i,
            forall|k: int| 0 <= k < data@.len() ==> sample_ok(#[trigger] data@[k] as int),
            forall|j: int| 0 <= j < i && j < fade
                ==> #[trigger] out@[j] as int == spec_faded(data@[skip + j] as int, j, fade as int),
            forall|j: int| fade <= j < i ==> #[trigger] out@[j] == data@[skip + j],
        decreases n - i,
    {
        let x = data[skip + i];
        if i < fade {
            proof {
                let d = fade as int - 1;
                assert(d * (-(SAMPLE_LIMIT as int)) <= (x as int) * (i as int)
                    <= d * (SAMPLE_LIMIT as int)
                    && d * (SAMPLE_LIMIT as int)
                        <= 0xffff_ffff_ffff_ffffint * (SAMPLE_LIMIT as int)
                    && d * (-(SAMPLE_LIMIT as int))
                        >= 0xffff_ffff_ffff_ffffint * (-(SAMPLE_LIMIT as int)))
                    by (nonlinear_arith)
                    requires
                        -SAMPLE_LIMIT <= x as int <= SAMPLE_LIMIT,
                        0 <= i as int <= d,
                        0 < d,
                        d <= 0xffff_ffff_ffff_ffffint,
                ;
                lemma_faded_in_range(x as int, i as int, d);
            }
            let scaled: i128 = floor_div_i128(
                (x as i128) * (i as i128),
                (fade as i128) - 1,
            );
            out.push(scaled as i64);
        } else {
            out.push(x);
        }
        i = i + 1;
    }
    Ok(out)
}

} // verus!
