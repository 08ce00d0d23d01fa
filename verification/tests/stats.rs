use market_core::decimal::Decimal;
use market_core::stats::{mean, stddev, variance, Sqrt, Stats};

fn dec(mantissa: i64, scale: u32) -> Decimal {
    Decimal::new(mantissa, scale)
}

#[test]
fn test_stats_reference_samples() {
    // Samples [2, 4, 4, 4, 5, 5, 7, 9]: mean 5.0, population variance
    // 4.0, standard deviation 2.0, all exact.
    let mut stats = Stats::new();
    for s in [2i64, 4, 4, 4, 5, 5, 7, 9] {
        stats.add(dec(s, 0));
    }
    assert_eq!(8, stats.size());
    assert!(stats.mean().eq_value(&dec(5, 0)));
    assert!(stats.variance().eq_value(&dec(4, 0)));
    assert!(stats.stddev().eq_value(&dec(2, 0)));
}

#[test]
fn test_stats_empty() {
    let stats = Stats::new();
    assert_eq!(0, stats.size());
    assert!(stats.mean().eq_value(&dec(0, 0)));
    assert!(stats.variance().eq_value(&dec(0, 0)));
    assert!(stats.stddev().eq_value(&dec(0, 0)));
}

#[test]
fn test_stats_single_sample() {
    let mut stats = Stats::new();
    stats.add(dec(425, 2));
    assert!(stats.mean().eq_value(&dec(425, 2)));
    assert!(stats.variance().eq_value(&dec(0, 0)));
    assert!(stats.stddev().eq_value(&dec(0, 0)));
}

#[test]
fn test_stats_fractional_exact() {
    // [1, 2]: mean 1.5, variance 0.25, stddev 0.5, all exact.
    let mut stats = Stats::new();
    stats.add(dec(1, 0));
    stats.add(dec(2, 0));
    assert!(stats.mean().eq_value(&dec(15, 1)));
    assert!(stats.variance().eq_value(&dec(25, 2)));
    assert!(stats.stddev().eq_value(&dec(5, 1)));
}

#[test]
fn test_stats_truncated_mean() {
    // [1, 1, 2]: the exact mean 4/3 is not representable; the result is
    // truncated at twelve decimal places.
    let mut stats = Stats::new();
    stats.add(dec(1, 0));
    stats.add(dec(1, 0));
    stats.add(dec(2, 0));
    let m = stats.mean();
    assert_eq!(12, m.scale());
    assert_eq!(1333333333333, m.mantissa());
}

#[test]
fn test_stats_negative_samples() {
    // [-3, 3]: mean 0, variance 9, stddev 3.
    let mut stats = Stats::new();
    stats.add(dec(-3, 0));
    stats.add(dec(3, 0));
    assert!(stats.mean().eq_value(&dec(0, 0)));
    assert!(stats.variance().eq_value(&dec(9, 0)));
    assert!(stats.stddev().eq_value(&dec(3, 0)));
}

#[test]
fn test_stats_negative_mean_truncates_toward_zero() {
    // [-1, -1, -2]: the exact mean -4/3 truncates toward zero.
    let mut stats = Stats::new();
    stats.add(dec(-1, 0));
    stats.add(dec(-1, 0));
    stats.add(dec(-2, 0));
    let m = stats.mean();
    assert_eq!(-1333333333333, m.mantissa());
}

#[test]
fn test_stats_mixed_scales() {
    // 1.20 and 1.2 and 1.200000 all contribute the same value.
    let mut stats = Stats::new();
    stats.add(dec(120, 2));
    stats.add(dec(12, 1));
    stats.add(dec(1200000, 6));
    assert!(stats.mean().eq_value(&dec(12, 1)));
    assert!(stats.variance().eq_value(&dec(0, 0)));
}

#[test]
fn test_free_function_mean() {
    let samples = vec![dec(2, 0), dec(4, 0), dec(4, 0), dec(4, 0), dec(5, 0), dec(5, 0),
        dec(7, 0), dec(9, 0)];
    assert!(mean(&samples).eq_value(&dec(5, 0)));
    assert!(variance(&samples).eq_value(&dec(4, 0)));
    assert!(stddev(&samples).eq_value(&dec(2, 0)));
}

#[test]
fn test_free_functions_empty() {
    let samples: Vec<Decimal> = Vec::new();
    assert!(mean(&samples).eq_value(&dec(0, 0)));
    assert!(variance(&samples).eq_value(&dec(0, 0)));
    assert!(stddev(&samples).eq_value(&dec(0, 0)));
}

#[test]
fn test_stats_default() {
    let stats = Stats::default();
    assert_eq!(0, stats.size());
}

#[test]
fn test_sqrt_trait() {
    assert!(dec(4, 0).sqrt().unwrap().eq_value(&dec(2, 0)));
    assert!(dec(225, 2).sqrt().unwrap().eq_value(&dec(15, 1)));
    assert!(dec(-1, 0).sqrt().is_none());
    // The square root of 2 truncated to six decimal places.
    let r = dec(2, 0).sqrt().unwrap();
    assert_eq!(6, r.scale());
    assert_eq!(1414213, r.mantissa());
}

#[test]
fn test_stddev_truncated() {
    // [1, 2, 3, 4]: mean 2.5 and variance 1.25 are exact; the standard
    // deviation sqrt(1.25) = 1.118033988... is truncated at six decimal
    // places.
    let mut stats = Stats::new();
    for s in [1i64, 2, 3, 4] {
        stats.add(dec(s, 0));
    }
    assert!(stats.mean().eq_value(&dec(25, 1)));
    assert!(stats.variance().eq_value(&dec(125, 2)));
    let sd = stats.stddev();
    assert_eq!(6, sd.scale());
    assert_eq!(1118033, sd.mantissa());
}

#[test]
fn test_stats_thousand_samples() {
    // Samples 1..=1000: mean 500.5 and population variance
    // (1000^2 - 1) / 12 = 83333.25, both exact; the standard deviation
    // is the integer square root of the variance at six decimal places.
    let mut stats = Stats::new();
    for i in 1..=1000i64 {
        stats.add(dec(i, 0));
    }
    assert_eq!(1000, stats.size());
    assert!(stats.mean().eq_value(&dec(5005, 1)));
    assert!(stats.variance().eq_value(&dec(8333325, 2)));

    let sd = stats.stddev();
    assert_eq!(6, sd.scale());
    let sdm = sd.mantissa();
    let vm = stats.variance().mantissa();
    assert_eq!(12, stats.variance().scale());
    assert!(sdm * sdm <= vm);
    assert!(vm < (sdm + 1) * (sdm + 1));
}
