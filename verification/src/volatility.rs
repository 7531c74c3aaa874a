//! The volatility model: mean, dispersion and decision thresholds of a
//! historical price series.
//!
//! Prices are fixed-point integers, counted in ticks (see
//! [`TICKS_PER_UNIT`]). Every quantity is rounded down to a whole tick, and
//! every function here is total on non-empty series: no intermediate value
//! overflows, whatever the prices are.

use vstd::arithmetic::div_mod::{lemma_fundamental_div_mod, lemma_fundamental_div_mod_converse};
use vstd::prelude::*;

verus! {

/// Ticks in one unit of the quote currency: prices carry nine decimal places.
pub const TICKS_PER_UNIT: u64 = 1_000_000_000;

/// The multiple of the dispersion that separates the thresholds from the mean
/// when nothing else is asked for.
pub const DEFAULT_K: u32 = 2;

/// A price series without a single price has neither a mean nor a dispersion.
#[derive(Clone, Copy, Debug, PartialEq, Eq, Structural)]
pub struct EmptySeriesError;

/// Mean and dispersion of a price series, both in ticks.
#[derive(Clone, Copy, Debug, PartialEq, Eq, Structural)]
pub struct VolatilityStats {
    pub mean: u64,
    pub dispersion: u64,
}

/// The prices below which the controller buys and above which it sells.
#[derive(Clone, Copy, Debug, PartialEq, Eq, Structural)]
pub struct ThresholdPair {
    pub low: i128,
    pub high: i128,
}

/// The sum of all prices of `series`.
pub open spec fn series_sum(series: Seq<u64>) -> int
    decreases series.len(),
{
    if series.len() == 0 {
        0
    } else {
        series_sum(series.drop_last()) + series.last()
    }
}

/// The arithmetic average of `series`, rounded down.
pub open spec fn series_mean(series: Seq<u64>) -> int
    recommends
        series.len() > 0,
{
    series_sum(series) / (series.len() as int)
}

/// The sum over `series` of the squared distance of each price from `center`.
pub open spec fn squared_deviations(series: Seq<u64>, center: int) -> int
    decreases series.len(),
{
    if series.len() == 0 {
        0
    } else {
        squared_deviations(series.drop_last(), center) + (series.last() - center) * (series.last()
            - center)
    }
}

/// The population variance of `series`: the mean of the squared deviations
/// from the mean, divided by the number of prices (not by one less), rounded
/// down.
pub open spec fn series_variance(series: Seq<u64>) -> int
    recommends
        series.len() > 0,
{
    squared_deviations(series, series_mean(series)) / (series.len() as int)
}

/// `root` is the square root of `n`, rounded down.
pub open spec fn is_floor_sqrt(root: int, n: int) -> bool {
    0 <= root && root * root <= n < (root + 1) * (root + 1)
}

/// The square root of `n`, rounded down.
pub open spec fn floor_sqrt(n: int) -> int {
    choose|root: int| is_floor_sqrt(root, n)
}

/// The population standard deviation of `series`, rounded down.
pub open spec fn series_dispersion(series: Seq<u64>) -> int
    recommends
        series.len() > 0,
{
    floor_sqrt(series_variance(series))
}

impl VolatilityStats {
    /// These are the statistics of `series`.
    pub open spec fn describes(self, series: Seq<u64>) -> bool {
        &&& self.mean == series_mean(series)
        &&& self.dispersion == series_dispersion(series)
    }
}

impl ThresholdPair {
    /// The low threshold does not lie above the high one.
    pub open spec fn ordered(self) -> bool {
        self.low <= self.high
    }
}

/// The thresholds at `k` dispersions below and above `mean`.
pub open spec fn thresholds_around(mean: int, dispersion: int, k: int) -> ThresholdPair {
    ThresholdPair { low: (mean - k * dispersion) as i128, high: (mean + k * dispersion) as i128 }
}

/// The thresholds at `k` dispersions below and above the mean of `series`.
pub open spec fn series_thresholds(series: Seq<u64>, k: int) -> ThresholdPair
    recommends
        series.len() > 0,
{
    thresholds_around(series_mean(series), series_dispersion(series), k)
}

/// Two numbers that are both the rounded-down square root of `n` are equal.
pub proof fn lemma_floor_sqrt_unique(a: int, b: int, n: int)
    by (nonlinear_arith)
    requires
        is_floor_sqrt(a, n),
        is_floor_sqrt(b, n),
    ensures
        a == b,
{
    if a < b {
        assert((a + 1) * (a + 1) <= b * b);
    } else if b < a {
        assert((b + 1) * (b + 1) <= a * a);
    }
}

/// A number that satisfies `is_floor_sqrt` for `n` is `floor_sqrt(n)`.
pub proof fn lemma_floor_sqrt_is(root: int, n: int)
    requires
        is_floor_sqrt(root, n),
    ensures
        floor_sqrt(n) == root,
{
    lemma_floor_sqrt_unique(floor_sqrt(n), root, n);
}

/// The sum of a series grows by the price that is appended to it.
proof fn lemma_sum_step(series: Seq<u64>, i: int)
    requires
        0 <= i < series.len(),
    ensures
        series_sum(series.take(i + 1)) == series_sum(series.take(i)) + series[i],
{
    assert(series.take(i + 1).drop_last() =~= series.take(i));
}

/// The sum of squared deviations grows by the squared deviation of the price
/// that is appended to the series.
proof fn lemma_deviations_step(series: Seq<u64>, center: int, i: int)
    requires
        0 <= i < series.len(),
    ensures
        squared_deviations(series.take(i + 1), center) == squared_deviations(
            series.take(i),
            center,
        ) + (series[i] - center) * (series[i] - center),
{
    assert(series.take(i + 1).drop_last() =~= series.take(i));
}

/// Adds up the prices of `series`.
pub fn sum_prices(series: &[u64]) -> (total: u128)
    ensures
        total == series_sum(series@),
        total <= series@.len() * u64::MAX,
{
    let n: usize = series.len();
    let mut total: u128 = 0;
    let mut i: usize = 0;
    while i < n
        invariant
            n == series@.len(),
            i <= n,
            total == series_sum(series@.take(i as int)),
            total <= i * u64::MAX,
        decreases n - i,
    {
        proof {
            lemma_sum_step(series@, i as int);
        }
        total = total + series[i] as u128;
        i = i + 1;
    }
    assert(series@.take(n as int) =~= series@);
    total
}

/// The arithmetic average of a non-empty series, rounded down.
pub fn mean_price(series: &[u64]) -> (mean: u64)
    requires
        series@.len() > 0,
    ensures
        mean == series_mean(series@),
{
    let n: u128 = series.len() as u128;
    let total: u128 = sum_prices(series);
    assert(total / n <= u64::MAX) by (nonlinear_arith)
        requires
            n > 0,
            total <= n * u64::MAX,
    ;
    (total / n) as u64
}

/// The distance between a price and the centre, squared.
fn squared_distance(price: u64, center: u64) -> (square: u128)
    ensures
        square == (price - center) * (price - center),
        square <= u64::MAX * u64::MAX,
{
    let distance: u128 = if price >= center {
        (price - center) as u128
    } else {
        (center - price) as u128
    };
    assert(distance * distance == (price - center) * (price - center)) by (nonlinear_arith)
        requires
            distance == price - center || distance == center - price,
    ;
    assert(distance * distance <= u64::MAX * u64::MAX) by (nonlinear_arith)
        requires
            0 <= distance <= u64::MAX,
    ;
    distance * distance
}

/// The mean of the squared deviations of a non-empty series from `center`,
/// rounded down.
///
/// The sum of the squares may exceed any machine integer, so the function
/// carries its quotient and remainder by the number of prices instead.
pub fn mean_squared_deviation(series: &[u64], center: u64) -> (mean_square: u128)
    requires
        series@.len() > 0,
    ensures
        mean_square == squared_deviations(series@, center as int) / (series@.len() as int),
{
    let n: usize = series.len();
    let count: u128 = n as u128;
    let ghost bound: int = u64::MAX * u64::MAX;
    let mut quotient: u128 = 0;
    let mut remainder: u128 = 0;
    let mut i: usize = 0;
    while i < n
        invariant
            n == series@.len(),
            count == n,
            0 < n,
            i <= n,
            bound == u64::MAX * u64::MAX,
            remainder < count,
            quotient * count + remainder == squared_deviations(
                series@.take(i as int),
                center as int,
            ),
            squared_deviations(series@.take(i as int), center as int) <= i * bound,
        decreases n - i,
    {
        let square: u128 = squared_distance(series[i], center);
        let whole: u128 = square / count;
        let part: u128 = square % count;
        proof {
            let before: int = squared_deviations(series@.take(i as int), center as int);
            let after: int = squared_deviations(series@.take(i + 1), center as int);
            lemma_deviations_step(series@, center as int, i as int);
            lemma_fundamental_div_mod(square as int, count as int);
            assert(after == before + square);
            assert(after <= (i + 1) * bound) by (nonlinear_arith)
                requires
                    after == before + square,
                    before <= i * bound,
                    square <= bound,
            ;
            assert(after <= count * bound) by (nonlinear_arith)
                requires
                    after <= (i + 1) * bound,
                    i + 1 <= count,
                    bound >= 0,
            ;
            assert((quotient + whole) * count + (remainder + part) == after)
                by (nonlinear_arith)
                requires
                    quotient * count + remainder == before,
                    square == count * whole + part,
                    after == before + square,
            ;
            assert(quotient + whole + 1 <= bound + 1) by (nonlinear_arith)
                requires
                    (quotient + whole) * count + (remainder + part) == after,
                    after <= count * bound,
                    remainder + part >= 0,
                    count > 0,
            ;
            if remainder + part >= count {
                assert((quotient + whole + 1) * count + (remainder + part - count) == after)
                    by (nonlinear_arith)
                    requires
                        (quotient + whole) * count + (remainder + part) == after,
                ;
                assert(quotient + whole + 1 <= bound) by (nonlinear_arith)
                    requires
                        (quotient + whole + 1) * count + (remainder + part - count) == after,
                        after <= count * bound,
                        remainder + part - count >= 0,
                        count > 0,
                ;
            }
        }
        quotient = quotient + whole;
        remainder = remainder + part;
        if remainder >= count {
            remainder = remainder - count;
            quotient = quotient + 1;
        }
        i = i + 1;
    }
    proof {
        assert(series@.take(n as int) =~= series@);
        lemma_fundamental_div_mod_converse(
            squared_deviations(series@, center as int),
            count as int,
            quotient as int,
            remainder as int,
        );
    }
    quotient
}

/// The square root of `n`, rounded down.
pub fn floor_sqrt_u128(n: u128) -> (root: u64)
    ensures
        is_floor_sqrt(root as int, n as int),
        root == floor_sqrt(n as int),
{
    let mut low: u128 = 0;
    let mut high: u128 = 0x1_0000_0000_0000_0000;
    assert(n < high * high) by (nonlinear_arith)
        requires
            high == 0x1_0000_0000_0000_0000,
            n <= u128::MAX,
    ;
    while high - low > 1
        invariant
            low < high <= 0x1_0000_0000_0000_0000,
            low * low <= n < high * high,
        decreases high - low,
    {
        let middle: u128 = low + (high - low) / 2;
        assert(middle * middle <= u64::MAX * u64::MAX) by (nonlinear_arith)
            requires
                0 <= middle <= u64::MAX,
        ;
        if middle * middle <= n {
            low = middle;
        } else {
            high = middle;
        }
    }
    proof {
        lemma_floor_sqrt_is(low as int, n as int);
    }
    low as u64
}

/// Mean and population standard deviation of `series`.
///
/// Fails on an empty series, and on no other.
pub fn compute_stats(series: &[u64]) -> (result: Result<VolatilityStats, EmptySeriesError>)
    ensures
        result is Err <==> series@.len() == 0,
        result matches Ok(stats) ==> stats.describes(series@),
        result matches Ok(stats) ==> is_floor_sqrt(
            stats.dispersion as int,
            series_variance(series@),
        ),
{
    if series.len() == 0 {
        return Err(EmptySeriesError);
    }
    let mean: u64 = mean_price(series);
    let variance: u128 = mean_squared_deviation(series, mean);
    let dispersion: u64 = floor_sqrt_u128(variance);
    Ok(VolatilityStats { mean, dispersion })
}

/// The thresholds at `k` dispersions below and above the mean of `stats`.
pub fn compute_thresholds(stats: &VolatilityStats, k: u32) -> (thresholds: ThresholdPair)
    ensures
        thresholds.low == stats.mean - k * stats.dispersion,
        thresholds.high == stats.mean + k * stats.dispersion,
        thresholds == thresholds_around(stats.mean as int, stats.dispersion as int, k as int),
        thresholds.low <= stats.mean <= thresholds.high,
        stats.dispersion == 0 || k == 0 ==> thresholds.low == stats.mean == thresholds.high,
{
    assert(0 <= k * stats.dispersion <= u32::MAX * u64::MAX) by (nonlinear_arith);
    let spread: i128 = (k as i128) * (stats.dispersion as i128);
    ThresholdPair { low: stats.mean as i128 - spread, high: stats.mean as i128 + spread }
}

} // verus!
