use indicators::ieee::{
    eq_value, f64_of_i64, f64_of_u64, gt, is_nan, lt, max_value, NAN_BITS,
};
use indicators::indicators::adx::ADX;
use indicators::indicators::aroon::AROON;
use indicators::models::data::{BarField, InputData, OutputData};
use indicators::models::indicator::{Indicator, IndicatorError};
use indicators::params::{ParamValue, Params};
use indicators::validation::validator::{CandleValidator, ParamRule, Validator};

fn bits(xs: &[f64]) -> Vec<u64> {
    xs.iter().map(|x| x.to_bits()).collect()
}

#[test]
fn test_integer_encoding_matches_widening_cast() {
    let samples: [u64; 9] = [
        0,
        1,
        3,
        14,
        100,
        (1u64 << 53) - 1,
        (1u64 << 53) + 1,
        123_456_789_123_456_789,
        u64::MAX,
    ];
    for n in samples {
        assert_eq!(f64_of_u64(n), (n as f64).to_bits(), "encoding of {}", n);
    }
    let signed: [i64; 5] = [0, -1, -7, i64::MIN, i64::MAX];
    for n in signed {
        assert_eq!(f64_of_i64(n), (n as f64).to_bits(), "encoding of {}", n);
    }
}

#[test]
fn test_bit_level_comparisons_match_float_semantics() {
    let values: [f64; 7] = [0.0, -0.0, 1.5, -2.25, f64::NAN, f64::INFINITY, -1.0e300];
    for a in values {
        for b in values {
            let ab = a.to_bits();
            let bb = b.to_bits();
            assert_eq!(lt(ab, bb), a < b, "lt on {} {}", a, b);
            assert_eq!(gt(ab, bb), a > b, "gt on {} {}", a, b);
            assert_eq!(eq_value(ab, bb), a == b, "eq on {} {}", a, b);
        }
    }
    assert!(is_nan(NAN_BITS));
    assert!(is_nan(f64::NAN.to_bits()));
    assert!(!is_nan(1.0f64.to_bits()));
    assert_eq!(max_value(1.0f64.to_bits(), 2.0f64.to_bits()), 2.0f64.to_bits());
    assert_eq!(max_value(f64::NAN.to_bits(), 2.0f64.to_bits()), 2.0f64.to_bits());
}

#[test]
fn test_calculate_is_deterministic() {
    let input = InputData {
        open: None,
        high: Some(bits(&[30.0, 31.0, 32.0, 33.0, 34.0])),
        low: Some(bits(&[29.0, 30.0, 31.0, 32.0, 33.0])),
        close: Some(bits(&[29.5, 30.5, 31.5, 32.5, 33.5])),
        volume: None,
    };
    let indicator = ADX::new();
    let mut params = Params::empty();
    params.set("period", ParamValue::Int(3));

    let first = indicator.calculate(&input, &params).unwrap();
    let second = indicator.calculate(&input, &params).unwrap();
    match (first, second) {
        (OutputData::SingleSeries(a), OutputData::SingleSeries(b)) => {
            assert_eq!(a, b);
        },
        _ => panic!("Unexpected output format"),
    }
}

#[test]
fn test_candle_violation_reported_before_parameter_violation() {
    // The high field is missing and the period is zero at once: the candle
    // contract is the one reported.
    let input = InputData {
        open: None,
        high: None,
        low: Some(bits(&[29.0, 30.0, 31.0])),
        close: Some(bits(&[29.5, 30.5, 31.5])),
        volume: None,
    };
    let indicator = ADX::new();
    let mut params = Params::empty();
    params.set("period", ParamValue::Int(0));

    let result = indicator.calculate(&input, &params);
    assert!(matches!(
        result,
        Err(IndicatorError::InvalidInput(msg)) if msg == "Field 'HIGH' is required but missing."
    ));
}

#[test]
fn test_first_violated_rule_reported() {
    // Both periods are zero: the first rule in declared order names the
    // short one.
    let input = InputData {
        open: None,
        high: Some(bits(&[10.0, 11.0, 12.0])),
        low: Some(bits(&[9.0, 10.0, 11.0])),
        close: Some(bits(&[9.5, 10.5, 11.5])),
        volume: Some(bits(&[1000.0, 1100.0, 1200.0])),
    };
    let indicator =
        indicators::indicators::chaikin_ad_oscillator::ChaikinADOscillator::new();
    let mut params = Params::empty();
    params.set("short_period", ParamValue::Int(0));
    params.set("long_period", ParamValue::Int(0));

    let result = indicator.calculate(&input, &params);
    assert!(matches!(
        result,
        Err(IndicatorError::InvalidParameters(msg)) if msg == "Parameter 'short_period' must be a positive integer"
    ));
}

#[test]
fn test_adx_window_overrun_is_calculation_error() {
    // Validation passes with the period equal to the length, but the doubled
    // warm-up window overruns the input: a defect, not a user error.
    let input = InputData {
        open: None,
        high: Some(bits(&[30.0, 31.0, 32.0])),
        low: Some(bits(&[29.0, 30.0, 31.0])),
        close: Some(bits(&[29.5, 30.5, 31.5])),
        volume: None,
    };
    let indicator = ADX::new();
    let mut params = Params::empty();
    params.set("period", ParamValue::Int(3));

    let result = indicator.calculate(&input, &params);
    assert!(matches!(
        result,
        Err(IndicatorError::CalculationError(msg)) if msg == "Calculated ADX length exceeds input data length."
    ));
}

#[test]
fn test_parameter_decode_failure_is_atomic() {
    let input = InputData {
        open: None,
        high: Some(bits(&[30.0, 31.0, 32.0])),
        low: Some(bits(&[29.0, 30.0, 31.0])),
        close: Some(bits(&[29.5, 30.5, 31.5])),
        volume: None,
    };
    let indicator = ADX::new();

    let mut fractional = Params::empty();
    fractional.set("period", ParamValue::Num(1.5f64.to_bits()));
    let result = indicator.calculate(&input, &fractional);
    assert!(matches!(
        result,
        Err(IndicatorError::InvalidParameters(msg))
            if msg == "Parameter 'period' does not decode as an unsigned integer"
    ));

    let mut negative = Params::empty();
    negative.set("period", ParamValue::Int(-3));
    let result = indicator.calculate(&input, &negative);
    assert!(matches!(
        result,
        Err(IndicatorError::InvalidParameters(msg))
            if msg == "Parameter 'period' does not decode as an unsigned integer"
    ));
}

#[test]
fn test_empty_required_field_list_rejected() {
    let validator = CandleValidator { required_fields: Vec::new() };
    let input = InputData {
        open: None,
        high: None,
        low: None,
        close: None,
        volume: None,
    };
    let result = validator.validate_candle(&input);
    assert!(matches!(
        result,
        Err(IndicatorError::InvalidInput(msg)) if msg == "Empty input."
    ));
}

#[test]
fn test_less_than_data_rule() {
    let input = InputData {
        open: None,
        high: Some(bits(&[10.0, 11.0, 12.0])),
        low: None,
        close: None,
        volume: None,
    };
    let validator = Validator::new(
        vec![BarField::HIGH],
        vec![ParamRule::LessThanData { param: "span", data_len: 3 }],
    );

    let mut small = Params::empty();
    small.set("span", ParamValue::Int(2));
    assert!(validator.validate(&input, &small).is_ok());

    let mut large = Params::empty();
    large.set("span", ParamValue::Int(3));
    let result = validator.validate(&input, &large);
    assert!(matches!(
        result,
        Err(IndicatorError::InvalidParameters(msg)) if msg == "Parameter 'span' must be less than 3."
    ));

    let absent = Params::empty();
    let result = validator.validate(&input, &absent);
    assert!(matches!(
        result,
        Err(IndicatorError::InvalidParameters(msg)) if msg == "Parameter 'span' must be a number."
    ));
}

#[test]
fn test_less_than_data_rule_renders_negative_bound() {
    let input = InputData {
        open: None,
        high: Some(bits(&[10.0])),
        low: None,
        close: None,
        volume: None,
    };
    let validator = Validator::new(
        vec![BarField::HIGH],
        vec![ParamRule::LessThanData { param: "span", data_len: -5 }],
    );
    let mut params = Params::empty();
    params.set("span", ParamValue::Int(0));
    let result = validator.validate(&input, &params);
    assert!(matches!(
        result,
        Err(IndicatorError::InvalidParameters(msg)) if msg == "Parameter 'span' must be less than -5."
    ));
}

#[test]
fn test_non_integer_number_fails_positive_integer_rule() {
    let input = InputData {
        open: None,
        high: Some(bits(&[10.0, 11.0, 12.0])),
        low: None,
        close: None,
        volume: None,
    };
    let validator = Validator::new(
        vec![BarField::HIGH],
        vec![ParamRule::PositiveInteger("period")],
    );
    let mut params = Params::empty();
    params.set("period", ParamValue::Num(2.5f64.to_bits()));
    let result = validator.validate(&input, &params);
    assert!(matches!(
        result,
        Err(IndicatorError::InvalidParameters(msg)) if msg == "Parameter 'period' must be a positive integer"
    ));
}

#[test]
fn test_missing_required_key_reported() {
    let input = InputData {
        open: None,
        high: Some(bits(&[10.0, 11.0, 12.0])),
        low: None,
        close: None,
        volume: None,
    };
    let validator = Validator::new(
        vec![BarField::HIGH],
        vec![ParamRule::Required("period")],
    );
    let params = Params::empty();
    let result = validator.validate(&input, &params);
    assert!(matches!(
        result,
        Err(IndicatorError::InvalidParameters(msg)) if msg == "Parameter 'period' does not exist"
    ));
}

#[test]
fn test_bar_field_names() {
    assert_eq!(BarField::OPEN.to_str(), "OPEN");
    assert_eq!(BarField::HIGH.to_str(), "HIGH");
    assert_eq!(BarField::LOW.to_str(), "LOW");
    assert_eq!(BarField::CLOSE.to_str(), "CLOSE");
    assert_eq!(BarField::VOLUME.to_str(), "VOLUME");
}

#[test]
fn test_aroon_exact_values_on_rising_series() {
    // Strictly rising highs put the window's high at its last position, and
    // strictly rising lows put the window's low at its first.
    let input = InputData {
        open: None,
        high: Some(bits(&[1.0, 2.0, 3.0, 4.0, 5.0])),
        low: Some(bits(&[0.5, 1.5, 2.5, 3.5, 4.5])),
        close: None,
        volume: None,
    };
    let indicator = AROON::new();
    let mut params = Params::empty();
    params.set("period", ParamValue::Int(3));

    let result = indicator.calculate(&input, &params).unwrap();
    if let OutputData::MultiSeries(output) = result {
        let up = &output.iter().find(|p| p.0 == "aroon_up").unwrap().1;
        let down = &output.iter().find(|p| p.0 == "aroon_down").unwrap().1;
        for i in 2..5 {
            assert_eq!(f64::from_bits(up[i]), 100.0, "up at {}", i);
            assert_eq!(f64::from_bits(down[i]), 1.0 / 3.0 * 100.0, "down at {}", i);
        }
    } else {
        panic!("Unexpected output format");
    }
}

#[test]
fn test_defaults_fill_silently() {
    // An empty parameter set takes the documented defaults: the ADX default
    // period is fourteen, so fourteen bars of data are too few for its
    // doubled window, while twenty-seven suffice.
    let n = 27;
    let high: Vec<f64> = (0..n).map(|i| 30.0 + i as f64).collect();
    let low: Vec<f64> = (0..n).map(|i| 29.0 + i as f64).collect();
    let close: Vec<f64> = (0..n).map(|i| 29.5 + i as f64).collect();
    let input = InputData {
        open: None,
        high: Some(bits(&high)),
        low: Some(bits(&low)),
        close: Some(bits(&close)),
        volume: None,
    };
    let indicator = ADX::new();
    let params = Params::empty();
    let result = indicator.calculate(&input, &params).unwrap();
    if let OutputData::SingleSeries(values) = result {
        assert_eq!(values.len(), n);
        for i in 0..26 {
            assert!(f64::from_bits(values[i]).is_nan());
        }
        assert!(!f64::from_bits(values[26]).is_nan());
    } else {
        panic!("Unexpected output format");
    }
}
