use trading_controller::volatility::{
    compute_stats, compute_thresholds, floor_sqrt_u128, mean_price, mean_squared_deviation,
    sum_prices, EmptySeriesError, ThresholdPair, VolatilityStats, DEFAULT_K, TICKS_PER_UNIT,
};

#[test]
fn stats_of_empty_series_fail() {
    let series: Vec<u64> = Vec::new();
    assert_eq!(compute_stats(&series), Err(EmptySeriesError));
}

#[test]
fn stats_of_example_series_in_whole_units() {
    let series: Vec<u64> = vec![100, 102, 98, 101, 99];
    let stats = compute_stats(&series).unwrap();
    assert_eq!(stats, VolatilityStats { mean: 100, dispersion: 1 });
    let thresholds = compute_thresholds(&stats, DEFAULT_K);
    assert_eq!(thresholds, ThresholdPair { low: 98, high: 102 });
}

#[test]
fn stats_of_example_series_in_ticks() {
    let series: Vec<u64> = vec![
        100 * TICKS_PER_UNIT,
        102 * TICKS_PER_UNIT,
        98 * TICKS_PER_UNIT,
        101 * TICKS_PER_UNIT,
        99 * TICKS_PER_UNIT,
    ];
    let stats = compute_stats(&series).unwrap();
    assert_eq!(stats.mean, 100_000_000_000);
    assert_eq!(stats.dispersion, 1_414_213_562);
    let thresholds = compute_thresholds(&stats, DEFAULT_K);
    assert_eq!(thresholds.low, 97_171_572_876);
    assert_eq!(thresholds.high, 102_828_427_124);
}

#[test]
fn example_thresholds_round_to_the_expected_hundredths() {
    let series: Vec<u64> = vec![100_000, 102_000, 98_000, 101_000, 99_000];
    let stats = compute_stats(&series).unwrap();
    assert_eq!(stats.mean, 100_000);
    assert_eq!(stats.dispersion, 1_414);
    let thresholds = compute_thresholds(&stats, DEFAULT_K);
    assert_eq!(thresholds.low, 97_172);
    assert_eq!(thresholds.high, 102_828);
    let low = thresholds.low as f64 / 1000.0;
    let high = thresholds.high as f64 / 1000.0;
    assert!((low - 97.17).abs() < 0.005);
    assert!((high - 102.83).abs() < 0.005);
}

#[test]
fn single_price_has_no_dispersion() {
    let series: Vec<u64> = vec![42];
    let stats = compute_stats(&series).unwrap();
    assert_eq!(stats, VolatilityStats { mean: 42, dispersion: 0 });
    let thresholds = compute_thresholds(&stats, DEFAULT_K);
    assert_eq!(thresholds, ThresholdPair { low: 42, high: 42 });
}

#[test]
fn constant_series_has_no_dispersion() {
    let series: Vec<u64> = vec![7; 100];
    let stats = compute_stats(&series).unwrap();
    assert_eq!(stats, VolatilityStats { mean: 7, dispersion: 0 });
}

#[test]
fn dispersion_divides_by_the_number_of_prices() {
    // Squared deviations 9 and 9: divided by two the variance is 9 and the
    // dispersion 3; divided by one it would be 18 and 4.
    let series: Vec<u64> = vec![0, 6];
    let stats = compute_stats(&series).unwrap();
    assert_eq!(stats, VolatilityStats { mean: 3, dispersion: 3 });
}

#[test]
fn mean_rounds_down() {
    let series: Vec<u64> = vec![1, 2];
    assert_eq!(mean_price(&series), 1);
    let series: Vec<u64> = vec![1, 2, 2];
    assert_eq!(mean_price(&series), 1);
    let series: Vec<u64> = vec![2, 2, 2];
    assert_eq!(mean_price(&series), 2);
}

#[test]
fn variance_rounds_down() {
    // Squared deviations from 1: 0, 1, 1. Their mean is two thirds.
    let series: Vec<u64> = vec![1, 2, 2];
    assert_eq!(mean_squared_deviation(&series, 1), 0);
    // Squared deviations from 0: 1, 4, 4. Their mean is three.
    assert_eq!(mean_squared_deviation(&series, 0), 3);
    // Squared deviations from 10: 81, 64, 64. Their mean is 69 and two thirds.
    assert_eq!(mean_squared_deviation(&series, 10), 69);
}

#[test]
fn sum_of_prices_does_not_wrap() {
    let series: Vec<u64> = vec![u64::MAX, u64::MAX, 1];
    assert_eq!(sum_prices(&series), 2 * (u64::MAX as u128) + 1);
    let empty: Vec<u64> = Vec::new();
    assert_eq!(sum_prices(&empty), 0);
}

#[test]
fn stats_of_extreme_prices() {
    let series: Vec<u64> = vec![u64::MAX, 0];
    let stats = compute_stats(&series).unwrap();
    assert_eq!(stats.mean, 9_223_372_036_854_775_807);
    assert_eq!(stats.dispersion, 9_223_372_036_854_775_807);
    let thresholds = compute_thresholds(&stats, DEFAULT_K);
    assert_eq!(thresholds.low, -9_223_372_036_854_775_807);
    assert_eq!(thresholds.high, 27_670_116_110_564_327_421);
}

#[test]
fn squares_that_exceed_the_machine_are_averaged_exactly() {
    // Eight squares of about 2^126 each add up to more than 128 bits hold.
    let series: Vec<u64> = vec![0, u64::MAX, 0, u64::MAX, 0, u64::MAX, 0, u64::MAX];
    let stats = compute_stats(&series).unwrap();
    assert_eq!(stats.mean, 9_223_372_036_854_775_807);
    let mean_square: u128 = mean_squared_deviation(&series, stats.mean);
    assert_eq!(mean_square, (1u128 << 126) - (1u128 << 63));
    assert_eq!(stats.dispersion, 9_223_372_036_854_775_807);
}

#[test]
fn long_series_of_the_largest_price() {
    let series: Vec<u64> = vec![u64::MAX; 1000];
    let stats = compute_stats(&series).unwrap();
    assert_eq!(stats, VolatilityStats { mean: u64::MAX, dispersion: 0 });
}

#[test]
fn square_roots_round_down() {
    assert_eq!(floor_sqrt_u128(0), 0);
    assert_eq!(floor_sqrt_u128(1), 1);
    assert_eq!(floor_sqrt_u128(2), 1);
    assert_eq!(floor_sqrt_u128(3), 1);
    assert_eq!(floor_sqrt_u128(4), 2);
    assert_eq!(floor_sqrt_u128(15), 3);
    assert_eq!(floor_sqrt_u128(16), 4);
    assert_eq!(floor_sqrt_u128(17), 4);
    assert_eq!(floor_sqrt_u128(2_000_000_000_000_000_000), 1_414_213_562);
}

#[test]
fn square_roots_of_the_largest_numbers() {
    let largest_root: u128 = u64::MAX as u128;
    assert_eq!(floor_sqrt_u128(u128::MAX), u64::MAX);
    assert_eq!(floor_sqrt_u128(largest_root * largest_root), u64::MAX);
    assert_eq!(floor_sqrt_u128(largest_root * largest_root - 1), u64::MAX - 1);
}

#[test]
fn square_root_is_the_largest_whose_square_fits() {
    let mut n: u128 = 0;
    while n < 5000 {
        let root: u128 = floor_sqrt_u128(n) as u128;
        assert!(root * root <= n);
        assert!(n < (root + 1) * (root + 1));
        n += 1;
    }
}

#[test]
fn thresholds_lie_k_dispersions_from_the_mean() {
    let stats = VolatilityStats { mean: 1000, dispersion: 30 };
    assert_eq!(compute_thresholds(&stats, 0), ThresholdPair { low: 1000, high: 1000 });
    assert_eq!(compute_thresholds(&stats, 1), ThresholdPair { low: 970, high: 1030 });
    assert_eq!(compute_thresholds(&stats, 2), ThresholdPair { low: 940, high: 1060 });
    assert_eq!(compute_thresholds(&stats, 40), ThresholdPair { low: -200, high: 2200 });
}

#[test]
fn thresholds_of_the_largest_inputs() {
    let stats = VolatilityStats { mean: u64::MAX, dispersion: u64::MAX };
    let thresholds = compute_thresholds(&stats, u32::MAX);
    let spread: i128 = (u32::MAX as i128) * (u64::MAX as i128);
    assert_eq!(thresholds.low, u64::MAX as i128 - spread);
    assert_eq!(thresholds.high, u64::MAX as i128 + spread);
}

#[test]
fn thresholds_enclose_the_mean() {
    let all: Vec<Vec<u64>> = vec![
        vec![1],
        vec![1, 2, 3, 4, 5, 6, 7, 8, 9, 10],
        vec![0, u64::MAX],
        vec![5, 5, 5, 1_000_000],
        vec![u64::MAX, u64::MAX - 1],
    ];
    for series in all.iter() {
        let stats = compute_stats(series).unwrap();
        let mut k: u32 = 0;
        while k < 5 {
            let thresholds = compute_thresholds(&stats, k);
            assert!(thresholds.low <= stats.mean as i128);
            assert!(stats.mean as i128 <= thresholds.high);
            k += 1;
        }
    }
}

#[test]
fn default_multiple_is_two() {
    assert_eq!(DEFAULT_K, 2);
    assert_eq!(TICKS_PER_UNIT, 1_000_000_000);
}
