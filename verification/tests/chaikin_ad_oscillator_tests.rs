use indicators::indicators::chaikin_ad_oscillator::ChaikinADOscillator;
use indicators::models::data::{InputData, OutputData};
use indicators::models::indicator::{Indicator, IndicatorError};
use indicators::params::{ParamValue, Params};

fn bits(xs: &[f64]) -> Vec<u64> {
    xs.iter().map(|x| x.to_bits()).collect()
}

#[test]
fn test_chaikin_oscillator() {
    let high = bits(&[10.0, 11.0, 12.0, 13.0, 14.0, 15.0, 16.0, 17.0, 18.0, 19.0]);
    let low = bits(&[9.0, 9.5, 10.5, 11.5, 12.5, 13.5, 14.5, 15.5, 16.5, 17.5]);
    let close = bits(&[9.5, 10.5, 11.5, 12.5, 13.5, 14.5, 15.5, 16.5, 17.5, 18.5]);
    let volume = bits(&[
        1000.0, 1100.0, 1200.0, 1300.0, 1400.0, 1500.0, 1600.0, 1700.0, 1800.0, 1900.0,
    ]);
    let length = high.len();

    let input_data = InputData {
        open: None,
        high: Some(high),
        low: Some(low),
        close: Some(close),
        volume: Some(volume),
    };

    let indicator = ChaikinADOscillator::new();

    let params = Params::empty();

    let result = indicator.calculate(&input_data, &params).unwrap();
    println!("{:?}", result);
    if let OutputData::SingleSeries(chaikin_osc) = result {
        println!("Chaikin Oscillator values: {:?}", chaikin_osc);

        // Every output series is as long as the input; the values before the
        // long-period horizon read NaN and the later ones are computed.
        assert_eq!(chaikin_osc.len(), length);
        let horizon = 10 - 1;
        for i in 0..horizon {
            assert!(f64::from_bits(chaikin_osc[i]).is_nan());
        }
        for i in horizon..length {
            assert!(!f64::from_bits(chaikin_osc[i]).is_nan());
        }
    } else {
        panic!("Unexpected output format");
    }
}

#[test]
fn test_chaikin_oscillator_zero_short_period() {
    let high = bits(&[10.0, 11.0, 12.0, 13.0, 14.0]);
    let low = bits(&[9.0, 10.0, 11.0, 12.0, 13.0]);
    let close = bits(&[9.5, 10.5, 11.5, 12.5, 13.5]);
    let volume = bits(&[1000.0, 5.0, 12.0, 13.0, 14.0]);

    let input_data = InputData {
        open: None,
        high: Some(high),
        low: Some(low),
        close: Some(close),
        volume: Some(volume),
    };

    let indicator = ChaikinADOscillator::new();

    let mut params = Params::empty();
    params.set("short_period", ParamValue::Int(0));
    params.set("long_period", ParamValue::Int(3));

    let result = indicator.calculate(&input_data, &params);
    println!("{:?}", result);
    assert!(matches!(
        result,
        Err(IndicatorError::InvalidParameters(msg)) if msg == "Parameter 'short_period' must be a positive integer"
    ));
}

#[test]
fn test_chaikin_oscillator_zero_long_period() {
    let high = bits(&[10.0, 11.0, 12.0]);
    let low = bits(&[9.0, 10.0, 11.0]);
    let close = bits(&[9.5, 10.5, 11.5]);
    let volume = bits(&[1000.0, 3.0, 5.0]);

    let input_data = InputData {
        open: None,
        high: Some(high),
        low: Some(low),
        close: Some(close),
        volume: Some(volume),
    };

    let indicator = ChaikinADOscillator::new();

    let mut params = Params::empty();
    params.set("short_period", ParamValue::Int(2));
    params.set("long_period", ParamValue::Int(0));

    let result = indicator.calculate(&input_data, &params);
    println!("{:?}", result);
    assert!(matches!(
        result,
        Err(IndicatorError::InvalidParameters(msg)) if msg == "Parameter 'long_period' must be a positive integer"
    ));
}

#[test]
fn test_chaikin_oscillator_short_period_greater_or_equal_long_period() {
    let high = bits(&[10.0, 11.0, 12.0, 13.0]);
    let low = bits(&[9.0, 10.0, 11.0, 12.0]);
    let close = bits(&[9.5, 10.5, 11.5, 12.5]);
    let volume = bits(&[1000.0, 4.0, 12.0, 13.0]);

    let input_data = InputData {
        open: None,
        high: Some(high),
        low: Some(low),
        close: Some(close),
        volume: Some(volume),
    };

    let indicator = ChaikinADOscillator::new();

    let mut params = Params::empty();
    params.set("short_period", ParamValue::Int(3));
    params.set("long_period", ParamValue::Int(3));

    let result = indicator.calculate(&input_data, &params);
    println!("{:?}", result);
    assert!(matches!(
        result,
        Err(IndicatorError::InvalidParameters(msg)) if msg == "Parameter 'short_period' must be less than 'long_period'"
    ));
}

#[test]
fn test_chaikin_oscillator_short_period_greater_than_data_length() {
    let high = bits(&[10.0, 11.0, 12.0]);
    let low = bits(&[9.0, 10.0, 11.0]);
    let close = bits(&[9.5, 10.5, 11.5]);
    let volume = bits(&[1000.0, 3.0, 200.0]);

    let input_data = InputData {
        open: None,
        high: Some(high),
        low: Some(low),
        close: Some(close),
        volume: Some(volume),
    };

    let indicator = ChaikinADOscillator::new();

    let mut params = Params::empty();
    params.set("short_period", ParamValue::Int(5));
    params.set("long_period", ParamValue::Int(6));

    let result = indicator.calculate(&input_data, &params);
    println!("{:?}", result);
    assert!(matches!(
        result,
        Err(IndicatorError::InvalidParameters(msg)) if msg == "Wrong parameter length. 'short_period' > data length. (5 > 3)"
    ));
}

#[test]
fn test_chaikin_oscillator_long_period_greater_than_data_length() {
    let open = bits(&[10.0, 11.0, 12.0]);
    let high = bits(&[10.0, 11.0, 12.0]);
    let low = bits(&[9.0, 10.0, 11.0]);
    let close = bits(&[9.5, 10.5, 11.5]);
    let volume = bits(&[1000.0, 3.0, 11.5]);

    let input_data = InputData {
        open: Some(open),
        high: Some(high),
        low: Some(low),
        close: Some(close),
        volume: Some(volume),
    };

    let indicator = ChaikinADOscillator::new();

    let mut params = Params::empty();
    params.set("short_period", ParamValue::Int(2));
    params.set("long_period", ParamValue::Int(5));

    let result = indicator.calculate(&input_data, &params);
    println!("{:?}", result);
    assert!(matches!(
        result,
        Err(IndicatorError::InvalidParameters(msg)) if msg == "Wrong parameter length. 'long_period' > data length. (5 > 3)"
    ));
}

#[test]
fn test_chaikin_oscillator_data_different_lengths() {
    let open = bits(&[10.0, 11.0, 12.0]);
    let high = bits(&[10.0, 11.0, 12.0, 13.0]);
    let low = bits(&[9.0, 10.0, 11.0]);
    let close = bits(&[9.5, 10.5, 11.5, 12.5]);
    let volume = bits(&[1000.0, 4.0]);

    let input_data = InputData {
        open: Some(open),
        high: Some(high),
        low: Some(low),
        close: Some(close),
        volume: Some(volume),
    };

    let indicator = ChaikinADOscillator::new();

    let params = Params::empty();

    let result = indicator.calculate(&input_data, &params);
    println!("{:?}", result);
    assert!(matches!(
        result,
        Err(IndicatorError::InvalidInput(msg)) if msg == "Input data series of the bars must have the same length."
    ));
}

#[test]
fn test_chaikin_oscillator_missing_high_data() {
    let low = bits(&[9.0, 10.0, 11.0, 12.0]);
    let close = bits(&[9.5, 10.5, 11.5, 12.5]);
    let volume = bits(&[1000.0, 4.0]);

    let input_data = InputData {
        open: None,
        high: None,
        low: Some(low),
        close: Some(close),
        volume: Some(volume),
    };

    let indicator = ChaikinADOscillator::new();

    let params = Params::empty();

    let result = indicator.calculate(&input_data, &params);
    println!("{:?}", result);
    assert!(matches!(
        result,
        Err(IndicatorError::InvalidInput(msg)) if msg == "Field 'HIGH' is required but missing."
    ));
}

#[test]
fn test_chaikin_oscillator_missing_low_data() {
    let high = bits(&[10.0, 11.0, 12.0, 13.0]);
    let close = bits(&[9.5, 10.5, 11.5, 12.5]);
    let volume = bits(&[1000.0, 4.0]);

    let input_data = InputData {
        open: None,
        high: Some(high),
        low: None,
        close: Some(close),
        volume: Some(volume),
    };

    let indicator = ChaikinADOscillator::new();

    let params = Params::empty();

    let result = indicator.calculate(&input_data, &params);
    println!("{:?}", result);
    assert!(matches!(
        result,
        Err(IndicatorError::InvalidInput(msg)) if msg == "Field 'LOW' is required but missing."
    ));
}

#[test]
fn test_chaikin_oscillator_missing_close_data() {
    let high = bits(&[10.0, 11.0, 12.0, 13.0]);
    let low = bits(&[9.0, 10.0, 11.0, 12.0]);
    let volume = bits(&[1000.0, 4.0]);

    let input_data = InputData {
        open: None,
        high: Some(high),
        low: Some(low),
        close: None,
        volume: Some(volume),
    };

    let indicator = ChaikinADOscillator::new();

    let params = Params::empty();

    let result = indicator.calculate(&input_data, &params);
    println!("{:?}", result);
    assert!(matches!(
        result,
        Err(IndicatorError::InvalidInput(msg)) if msg == "Field 'CLOSE' is required but missing."
    ));
}

#[test]
fn test_chaikin_oscillator_missing_volume_data() {
    let high = bits(&[10.0, 11.0, 12.0, 13.0]);
    let low = bits(&[9.0, 10.0, 11.0, 12.0]);
    let close = bits(&[9.5, 10.5, 11.5, 12.5]);

    let input_data = InputData {
        open: None,
        high: Some(high),
        low: Some(low),
        close: Some(close),
        volume: None,
    };

    let indicator = ChaikinADOscillator::new();

    let params = Params::empty();

    let result = indicator.calculate(&input_data, &params);
    println!("{:?}", result);
    assert!(matches!(
        result,
        Err(IndicatorError::InvalidInput(msg)) if msg == "Field 'VOLUME' is required but missing."
    ));
}

#[test]
fn test_chaikin_oscillator_insufficient_data_length() {
    let high = bits(&[10.0, 11.0]);
    let low = bits(&[9.0, 10.0]);
    let close = bits(&[9.5, 10.5]);
    let volume = bits(&[1000.0, 2.0]);

    let input_data = InputData {
        open: None,
        high: Some(high),
        low: Some(low),
        close: Some(close),
        volume: Some(volume),
    };

    let indicator = ChaikinADOscillator::new();

    let params = Params::empty();

    let result = indicator.calculate(&input_data, &params);
    println!("{:?}", result);
    assert!(matches!(
        result,
        Err(IndicatorError::InvalidParameters(msg)) if msg == "Wrong parameter length. 'short_period' > data length. (3 > 2)"
    ));
}

#[test]
fn test_chaikin_oscillator_empty_data() {
    let high: Vec<u64> = Vec::new();
    let low: Vec<u64> = Vec::new();
    let close: Vec<u64> = Vec::new();
    let volume: Vec<u64> = Vec::new();

    let input_data = InputData {
        open: None,
        high: Some(high),
        low: Some(low),
        close: Some(close),
        volume: Some(volume),
    };

    let indicator = ChaikinADOscillator::new();

    let params = Params::empty();

    let result = indicator.calculate(&input_data, &params);
    println!("{:?}", result);
    assert!(matches!(
        result,
        Err(IndicatorError::InvalidParameters(msg)) if msg == "Wrong parameter length. 'short_period' > data length. (3 > 0)"
    ));
}
