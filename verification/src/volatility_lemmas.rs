//! What holds of the statistics and thresholds of every price series.

use crate::volatility::{
    floor_sqrt, is_floor_sqrt, lemma_floor_sqrt_is, series_dispersion, series_mean, series_sum,
    series_thresholds, series_variance, squared_deviations,
};
use vstd::prelude::*;

verus! {

/// The sum of a series lies between zero and the largest price times the
/// number of prices.
pub proof fn lemma_sum_bounds(series: Seq<u64>)
    ensures
        0 <= series_sum(series) <= series.len() * u64::MAX,
    decreases series.len(),
{
    if series.len() > 0 {
        lemma_sum_bounds(series.drop_last());
    }
}

/// The mean of a non-empty series is a price: it fits in 64 bits.
pub proof fn lemma_mean_bounds(series: Seq<u64>)
    requires
        series.len() > 0,
    ensures
        0 <= series_mean(series) <= u64::MAX,
{
    lemma_sum_bounds(series);
    let total: int = series_sum(series);
    let count: int = series.len() as int;
    assert(0 <= total / count <= u64::MAX) by (nonlinear_arith)
        requires
            count > 0,
            0 <= total <= count * u64::MAX,
    ;
}

/// The sum of the squared deviations from a price lies between zero and the
/// square of the largest price times the number of prices.
pub proof fn lemma_deviations_bounds(series: Seq<u64>, center: int)
    requires
        0 <= center <= u64::MAX,
    ensures
        0 <= squared_deviations(series, center) <= series.len() * (u64::MAX * u64::MAX),
    decreases series.len(),
{
    if series.len() > 0 {
        lemma_deviations_bounds(series.drop_last(), center);
        let distance: int = series.last() - center;
        assert(0 <= distance * distance <= u64::MAX * u64::MAX) by (nonlinear_arith)
            requires
                -u64::MAX <= distance <= u64::MAX,
        ;
        let rest: int = squared_deviations(series.drop_last(), center);
        let bound: int = u64::MAX * u64::MAX;
        let count: int = series.len() as int;
        assert(rest + distance * distance <= count * bound) by (nonlinear_arith)
            requires
                rest <= (count - 1) * bound,
                distance * distance <= bound,
        ;
    }
}

/// The variance of a non-empty series lies between zero and the square of the
/// largest price.
pub proof fn lemma_variance_bounds(series: Seq<u64>)
    requires
        series.len() > 0,
    ensures
        0 <= series_variance(series) <= u64::MAX * u64::MAX,
{
    lemma_mean_bounds(series);
    lemma_deviations_bounds(series, series_mean(series));
    let total: int = squared_deviations(series, series_mean(series));
    let count: int = series.len() as int;
    let bound: int = u64::MAX * u64::MAX;
    assert(0 <= total / count <= bound) by (nonlinear_arith)
        requires
            count > 0,
            0 <= total <= count * bound,
    ;
}

/// Every number from zero on has a rounded-down square root.
pub proof fn lemma_floor_sqrt_exists(n: int)
    requires
        0 <= n,
    ensures
        is_floor_sqrt(floor_sqrt(n), n),
    decreases n,
{
    if n == 0 {
        assert(is_floor_sqrt(0, 0)) by (nonlinear_arith);
    } else {
        lemma_floor_sqrt_exists(n - 1);
        let below: int = floor_sqrt(n - 1);
        if (below + 1) * (below + 1) <= n {
            assert(is_floor_sqrt(below + 1, n)) by (nonlinear_arith)
                requires
                    0 <= below,
                    n - 1 < (below + 1) * (below + 1),
                    (below + 1) * (below + 1) <= n,
            ;
        } else {
            assert(is_floor_sqrt(below, n));
        }
    }
}

/// The rounded-down square root of a number that does not exceed the square
/// of `limit` does not exceed `limit`.
pub proof fn lemma_floor_sqrt_bounded(n: int, limit: int)
    requires
        0 <= n <= limit * limit,
        0 <= limit,
    ensures
        0 <= floor_sqrt(n) <= limit,
{
    lemma_floor_sqrt_exists(n);
    let root: int = floor_sqrt(n);
    assert(root <= limit) by (nonlinear_arith)
        requires
            0 <= root,
            0 <= limit,
            root * root <= n,
            n <= limit * limit,
    ;
}

/// The dispersion of a non-empty series is not negative, is the rounded-down
/// square root of the variance, and fits in 64 bits.
pub proof fn lemma_dispersion_bounds(series: Seq<u64>)
    requires
        series.len() > 0,
    ensures
        0 <= series_dispersion(series) <= u64::MAX,
        is_floor_sqrt(series_dispersion(series), series_variance(series)),
{
    lemma_variance_bounds(series);
    lemma_floor_sqrt_exists(series_variance(series));
    lemma_floor_sqrt_bounded(series_variance(series), u64::MAX as int);
}

/// For every non-empty series and every multiple, the dispersion is not
/// negative and the thresholds enclose the mean: the low one is the mean less
/// the multiple of the dispersion, the high one the mean plus it.
pub proof fn lemma_thresholds_enclose_mean(series: Seq<u64>, k: u32)
    requires
        series.len() > 0,
    ensures
        series_dispersion(series) >= 0,
        series_thresholds(series, k as int).low == series_mean(series) - k * series_dispersion(
            series,
        ),
        series_thresholds(series, k as int).high == series_mean(series) + k * series_dispersion(
            series,
        ),
        series_thresholds(series, k as int).low <= series_mean(series) <= series_thresholds(
            series,
            k as int,
        ).high,
        series_thresholds(series, k as int).ordered(),
{
    lemma_mean_bounds(series);
    lemma_dispersion_bounds(series);
    let dispersion: int = series_dispersion(series);
    assert(0 <= k * dispersion <= u32::MAX * u64::MAX) by (nonlinear_arith)
        requires
            0 <= k <= u32::MAX,
            0 <= dispersion <= u64::MAX,
    ;
}

/// Where all prices of a series are equal, its dispersion is zero and both
/// thresholds are that price.
pub proof fn lemma_constant_series(series: Seq<u64>, price: u64, k: u32)
    requires
        series.len() > 0,
        forall|i: int| 0 <= i < series.len() ==> series[i] == price,
    ensures
        series_mean(series) == price,
        series_dispersion(series) == 0,
        series_thresholds(series, k as int).low == price,
        series_thresholds(series, k as int).high == price,
{
    lemma_constant_sum(series, price);
    let count: int = series.len() as int;
    assert((count * price) / count == price) by (nonlinear_arith)
        requires
            count > 0,
    ;
    lemma_constant_deviations(series, price);
    assert(0int / count == 0) by (nonlinear_arith)
        requires
            count > 0,
    ;
    assert(is_floor_sqrt(0, 0)) by (nonlinear_arith);
    lemma_floor_sqrt_is(0, 0);
    assert(k * 0 == 0) by (nonlinear_arith);
}

/// The sum of a series of equal prices.
proof fn lemma_constant_sum(series: Seq<u64>, price: u64)
    requires
        forall|i: int| 0 <= i < series.len() ==> series[i] == price,
    ensures
        series_sum(series) == series.len() * price,
    decreases series.len(),
{
    if series.len() > 0 {
        lemma_constant_sum(series.drop_last(), price);
        let count: int = series.len() as int;
        assert((count - 1) * price + price == count * price) by (nonlinear_arith);
    } else {
        assert(0 * price == 0) by (nonlinear_arith);
    }
}

/// A series of equal prices does not deviate from that price.
proof fn lemma_constant_deviations(series: Seq<u64>, price: u64)
    requires
        forall|i: int| 0 <= i < series.len() ==> series[i] == price,
    ensures
        squared_deviations(series, price as int) == 0,
    decreases series.len(),
{
    if series.len() > 0 {
        lemma_constant_deviations(series.drop_last(), price);
        assert((price - price) * (price - price) == 0) by (nonlinear_arith);
    }
}

} // verus!
