//! Windowed fluctuation detection.
//!
//! Percentages are kept in hundredths of a percent, so a value is always
//! reported with exactly two decimal places (`4000` is `40.00%`).
use vstd::prelude::*;

verus! {

/// Absolute difference of two counts.
pub open spec fn abs_diff(a: int, b: int) -> int {
    if a >= b { a - b } else { b - a }
}

/// The fluctuation of a window, in hundredths of a percent:
/// `|max - min| / avg(min, max) * 100`, rounded half up to two decimals,
/// and `0` when the average is `0`.
pub open spec fn fluctuation_hundredths(min: int, max: int) -> int {
    let d = abs_diff(min, max);
    let s = min + max;
    if s <= 0 { 0 } else { (40000 * d + s) / (2 * s) }
}

/// Whether a window is anomalous: it moved at all, and its unrounded
/// fluctuation `200 * d / s` percent reaches the threshold.
pub open spec fn is_anomalous(min: int, max: int, threshold_hundredths: int) -> bool {
    let d = abs_diff(min, max);
    let s = min + max;
    d > 0 && 20000 * d >= threshold_hundredths * s
}

/// Outcome of one detection.
#[derive(Clone, Copy, Debug, PartialEq, Eq)]
pub struct Detection {
    /// Fluctuation in hundredths of a percent.
    pub fluctuation_hundredths: u64,
    pub anomalous: bool,
}

/// Detects a fluctuation between the smallest and largest count of a window.
pub fn detect(min: u64, max: u64, threshold_hundredths: u64) -> (r: Detection)
    ensures
        r.fluctuation_hundredths == fluctuation_hundredths(min as int, max as int),
        r.anomalous == is_anomalous(min as int, max as int, threshold_hundredths as int),
        r.fluctuation_hundredths <= 20000,
{
    let d: u128 = if min >= max { (min - max) as u128 } else { (max - min) as u128 };
    let s: u128 = min as u128 + max as u128;
    if s == 0 {
        return Detection { fluctuation_hundredths: 0, anomalous: false };
    }
    assert(d <= s);
    assert(40000 * d + s <= 40001 * s) by (nonlinear_arith)
        requires d <= s;
    let h: u128 = (40000 * d + s) / (2 * s);
    assert(h <= 20000) by (nonlinear_arith)
        requires h == (40000 * d + s) / (2 * s), d <= s, s > 0;
    // A window moves by at most 200%, so a larger threshold is never reached.
    let t: u128 = if threshold_hundredths > 20000 { 20001 } else { threshold_hundredths as u128 };
    assert(t * s <= 20001 * s) by (nonlinear_arith)
        requires t <= 20001, s >= 0;
    assert(20000 * d >= t * s <==> 20000 * d >= threshold_hundredths * s) by (nonlinear_arith)
        requires
            d <= s,
            s > 0,
            t == (if threshold_hundredths > 20000 { 20001 } else { threshold_hundredths as int }),
    ;
    let anomalous: bool = d > 0 && 20000 * d >= t * s;
    Detection { fluctuation_hundredths: h as u64, anomalous }
}

/// Swapping the smallest and largest count of a window changes neither the
/// fluctuation nor the verdict.
pub proof fn lemma_detect_symmetric(min: int, max: int, threshold_hundredths: int)
    ensures
        fluctuation_hundredths(min, max) == fluctuation_hundredths(max, min),
        is_anomalous(min, max, threshold_hundredths) == is_anomalous(max, min, threshold_hundredths),
{
}

/// A window whose counts did not move reports `0` and is never anomalous,
/// whatever the threshold.
pub proof fn lemma_detect_flat(x: int, threshold_hundredths: int)
    requires
        x >= 0,
        threshold_hundredths >= 0,
    ensures
        fluctuation_hundredths(x, x) == 0,
        !is_anomalous(x, x, threshold_hundredths),
{
    if 2 * x > 0 {
        assert(x / (4 * x) == 0) by (nonlinear_arith)
            requires x > 0;
        assert((40000 * 0 + 2 * x) / (2 * (2 * x)) == 0) by (nonlinear_arith)
            requires x > 0;
    }
}

/// The reported fluctuation is the exact one rounded to the nearest
/// hundredth: it differs from `20000 * d / s` by at most one half.
pub proof fn lemma_fluctuation_rounding(min: int, max: int)
    requires
        min >= 0,
        max >= 0,
        min + max > 0,
    ensures
        2 * fluctuation_hundredths(min, max) * (min + max) <= 40000 * abs_diff(min, max) + (min + max),
        40000 * abs_diff(min, max) < (2 * fluctuation_hundredths(min, max) + 1) * (min + max),
{
    let d = abs_diff(min, max);
    let s = min + max;
    let h = (40000 * d + s) / (2 * s);
    assert(h * (2 * s) <= 40000 * d + s < (h + 1) * (2 * s)) by (nonlinear_arith)
        requires h == (40000 * d + s) / (2 * s), s > 0, d >= 0;
    assert(2 * h * s <= 40000 * d + s) by (nonlinear_arith)
        requires h * (2 * s) <= 40000 * d + s;
    assert(40000 * d < (2 * h + 1) * s) by (nonlinear_arith)
        requires 40000 * d + s < (h + 1) * (2 * s);
}

} // verus!
