use indicators::indicators::utils::{
    calculate_adl, calculate_ema, calculate_true_range, cumulative_sum, wilder_smoothing,
};
use indicators::models::indicator::IndicatorError;

fn bits(xs: &[f64]) -> Vec<u64> {
    xs.iter().map(|x| x.to_bits()).collect()
}

#[test]
fn test_wilder_smoothing() {
    let data = bits(&[2.0, 3.0, 5.0, 6.0, 9.0, 11.0, 13.0]);
    let period = 3;

    let smoothed = wilder_smoothing(&data, period).unwrap();

    let expected = [
        0.0f64, 0.0, 3.333333, 4.222222, 5.814815, 7.54321, 9.362139,
    ];

    for i in 0..data.len() {
        let got = f64::from_bits(smoothed[i]);
        println!("index:{}, smothed={}, expected={}", i, got, expected[i]);
        if i < period - 1 {
            assert_eq!(got, 0.0);
        } else {
            assert!(
                (got - expected[i]).abs() < 0.0001,
                "Smoothed value at index {} does not match expected value",
                i
            );
        }
    }
}

#[test]
fn test_wilder_smoothing_short_data() {
    let data = bits(&[2.0, 3.0]);
    let result = wilder_smoothing(&data, 3);
    assert!(matches!(
        result,
        Err(IndicatorError::InvalidInput(msg))
            if msg == "Data length must be at least equal to the period for smoothing"
    ));
}

#[test]
fn test_ema_rejects_bad_period() {
    let data = bits(&[2.0, 3.0, 5.0]);
    let zero = calculate_ema(&data, 0);
    assert!(matches!(
        zero,
        Err(IndicatorError::InvalidParameters(msg)) if msg == "Invalid period for EMA calculation"
    ));
    let oversized = calculate_ema(&data, 4);
    assert!(matches!(
        oversized,
        Err(IndicatorError::InvalidParameters(msg)) if msg == "Invalid period for EMA calculation"
    ));
}

#[test]
fn test_ema_seed_is_mean_of_first_period() {
    let data = bits(&[2.0, 3.0, 5.0, 6.0, 9.0]);
    let ema = calculate_ema(&data, 3).unwrap();
    let wilder = wilder_smoothing(&data, 3).unwrap();
    let mean = (2.0 + 3.0 + 5.0) / 3.0;
    assert_eq!(f64::from_bits(ema[2]), mean);
    assert_eq!(f64::from_bits(wilder[2]), mean);
    assert_eq!(ema[2], wilder[2]);
}

#[test]
fn test_true_range_values() {
    let high = bits(&[48.70, 48.72, 48.90]);
    let low = bits(&[47.79, 48.14, 48.39]);
    let close = bits(&[48.16, 48.61, 48.75]);
    let tr = calculate_true_range(&high, &low, &close).unwrap();
    assert_eq!(f64::from_bits(tr[0]), 48.70 - 47.79);
    let hl: f64 = 48.72 - 48.14;
    let hpc: f64 = (48.72f64 - 48.16).abs();
    let lpc: f64 = (48.14f64 - 48.16).abs();
    assert_eq!(f64::from_bits(tr[1]), hl.max(hpc).max(lpc));
}

#[test]
fn test_cumulative_sum_running_total() {
    let data = bits(&[1.5, 2.5, -1.0, 4.0]);
    let cumsum = cumulative_sum(&data);
    assert_eq!(f64::from_bits(cumsum[0]), 1.5);
    assert_eq!(f64::from_bits(cumsum[1]), 4.0);
    assert_eq!(f64::from_bits(cumsum[2]), 3.0);
    assert_eq!(f64::from_bits(cumsum[3]), 7.0);
}

#[test]
fn test_adl_zero_range_bar_carries_total() {
    let high = bits(&[10.0, 12.0, 12.0]);
    let low = bits(&[9.0, 10.0, 12.0]);
    let close = bits(&[9.5, 11.0, 12.0]);
    let volume = bits(&[1000.0, 1100.0, 1200.0]);
    let adl = calculate_adl(&high, &low, &close, &volume).unwrap();
    assert_eq!(adl[2], adl[1]);
}
