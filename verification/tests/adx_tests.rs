use indicators::indicators::adx::ADX;
use indicators::models::data::{InputData, OutputData};
use indicators::models::indicator::{Indicator, IndicatorError};
use indicators::params::{ParamValue, Params};

fn bits(xs: &[f64]) -> Vec<u64> {
    xs.iter().map(|x| x.to_bits()).collect()
}

#[test]
fn test_adx() {
    let high = bits(&[
        30.1980, 30.3950, 30.4300, 30.6150, 30.7700, 31.1300, 31.2700, 31.1300, 31.2800, 31.4500,
        31.4100, 31.4100, 31.3800, 31.5800, 31.7000,
    ]);
    let low = bits(&[
        29.8700, 30.0700, 30.2600, 30.3750, 30.5200, 30.8200, 30.8700, 30.7800, 31.0300, 31.2000,
        31.0900, 31.1700, 31.0800, 31.3300, 31.4700,
    ]);
    let close = bits(&[
        30.0750, 30.2500, 30.3600, 30.5800, 30.6900, 31.0900, 31.1300, 31.1000, 31.2700, 31.3200,
        31.2300, 31.3500, 31.2000, 31.5500, 31.6600,
    ]);
    let length = high.len();
    let input_data = InputData {
        open: None,
        high: Some(high),
        low: Some(low),
        close: Some(close),
        volume: None,
    };

    let indicator = ADX::new();

    let mut params = Params::empty();
    params.set("period", ParamValue::Int(3));

    let result = indicator.calculate(&input_data, &params).unwrap();

    if let OutputData::SingleSeries(adx_values) = result {
        println!("ADX values: {:?}", adx_values);
        assert_eq!(adx_values.len(), length);
    } else {
        panic!("Unexpected output format");
    }
}

#[test]
fn test_adx_zero_period() {
    let high = bits(&[30.0, 31.0, 32.0]);
    let low = bits(&[29.0, 30.0, 31.0]);
    let close = bits(&[29.5, 30.5, 31.5]);

    let input_data = InputData {
        open: None,
        high: Some(high),
        low: Some(low),
        close: Some(close),
        volume: None,
    };

    let indicator = ADX::new();

    let mut params = Params::empty();
    params.set("period", ParamValue::Int(0));

    let result = indicator.calculate(&input_data, &params);

    assert!(matches!(
        result,
        Err(IndicatorError::InvalidParameters(msg)) if msg == "Parameter 'period' must be a positive integer"
    ));
}

#[test]
fn test_adx_period_greater_than_data_length() {
    let high = bits(&[30.0, 31.0, 32.0]);
    let low = bits(&[29.0, 30.0, 31.0]);
    let close = bits(&[29.5, 30.5, 31.5]);

    let input_data = InputData {
        open: None,
        high: Some(high),
        low: Some(low),
        close: Some(close),
        volume: None,
    };

    let indicator = ADX::new();

    let mut params = Params::empty();
    params.set("period", ParamValue::Int(5));

    let result = indicator.calculate(&input_data, &params);
    assert!(matches!(
        result,
        Err(IndicatorError::InvalidParameters(msg)) if msg == "Wrong parameter length. 'period' > data length. (5 > 3)"
    ));
}

#[test]
fn test_adx_data_different_lengths() {
    let high = bits(&[30.0, 31.0, 32.0]);
    let low = bits(&[29.0, 30.0]);
    let close = bits(&[29.5, 30.5, 31.5]);

    let input_data = InputData {
        open: None,
        high: Some(high),
        low: Some(low),
        close: Some(close),
        volume: None,
    };

    let indicator = ADX::new();

    let mut params = Params::empty();
    params.set("period", ParamValue::Int(2));

    let result = indicator.calculate(&input_data, &params);

    assert!(matches!(
        result,
        Err(IndicatorError::InvalidInput(msg)) if msg == "Input data series of the bars must have the same length."
    ));
}

#[test]
fn test_adx_missing_high_data() {
    let low = bits(&[29.0, 30.0, 31.0]);
    let close = bits(&[29.5, 30.5, 31.5]);

    let input_data = InputData {
        open: None,
        high: None,
        low: Some(low),
        close: Some(close),
        volume: None,
    };

    let indicator = ADX::new();

    let mut params = Params::empty();
    params.set("period", ParamValue::Int(2));

    let result = indicator.calculate(&input_data, &params);
    assert!(matches!(
        result,
        Err(IndicatorError::InvalidInput(msg)) if msg == "Field 'HIGH' is required but missing."
    ));
}

#[test]
fn test_adx_empty_data() {
    let high: Vec<u64> = Vec::new();
    let low: Vec<u64> = Vec::new();
    let close: Vec<u64> = Vec::new();

    let input_data = InputData {
        open: None,
        high: Some(high),
        low: Some(low),
        close: Some(close),
        volume: None,
    };

    let indicator = ADX::new();

    let mut params = Params::empty();
    params.set("period", ParamValue::Int(14));

    let result = indicator.calculate(&input_data, &params);
    println!("{:?}", result);
    assert!(matches!(
        result,
        Err(IndicatorError::InvalidParameters(msg)) if msg == "Wrong parameter length. 'period' > data length. (14 > 0)"
    ));
}

#[test]
fn test_adx_with_nan_output() {
    let high = bits(&[30.0, 31.0, 32.0, 33.0, 34.0]);
    let low = bits(&[29.0, 30.0, 31.0, 32.0, 33.0]);
    let close = bits(&[29.5, 30.5, 31.5, 32.5, 33.5]);
    let length = high.len();

    let input_data = InputData {
        open: None,
        high: Some(high),
        low: Some(low),
        close: Some(close),
        volume: None,
    };

    let indicator = ADX::new();

    let mut params = Params::empty();
    params.set("period", ParamValue::Int(3));

    let result = indicator.calculate(&input_data, &params).unwrap();

    if let OutputData::SingleSeries(adx_values) = result {
        println!("ADX values: {:?}", adx_values);

        assert_eq!(adx_values.len(), length);

        let invalid_length = 2 * (3 - 1);
        for i in 0..invalid_length {
            assert!(
                f64::from_bits(adx_values[i]).is_nan(),
                "Expected NaN at index {}",
                i
            );
        }

        for i in invalid_length..adx_values.len() {
            assert!(
                !f64::from_bits(adx_values[i]).is_nan(),
                "Expected valid ADX value at index {}, found NaN",
                i
            );
        }
    } else {
        panic!("Unexpected output format");
    }
}
