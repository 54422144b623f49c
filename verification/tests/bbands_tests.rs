use indicators::indicators::bbands::BBands;
use indicators::models::data::{InputData, OutputData};
use indicators::models::indicator::Indicator;
use indicators::params::{ParamValue, Params};

fn bits(xs: &[f64]) -> Vec<u64> {
    xs.iter().map(|x| x.to_bits()).collect()
}

fn sample_input() -> InputData {
    InputData {
        open: None,
        high: None,
        low: None,
        close: Some(bits(&[
            22.27, 22.19, 22.08, 22.17, 22.18, 22.13, 22.23, 22.43, 22.24, 22.29, 22.15, 22.39,
            22.38, 22.61, 23.36, 24.05, 23.75, 23.83, 23.95, 23.63, 23.82, 23.87, 23.65, 23.19,
            23.10, 23.33, 22.68, 23.10, 22.40, 22.17,
        ])),
        volume: None,
    }
}

fn series<'a>(out: &'a [(String, Vec<u64>)], name: &str) -> &'a Vec<u64> {
    &out.iter().find(|p| p.0 == name).unwrap().1
}

fn bbands_output() -> Vec<(String, Vec<u64>)> {
    let indicator = BBands::new();
    let mut params = Params::empty();
    params.set("period", ParamValue::Int(20));
    params.set("std_dev_multiplier", ParamValue::Num(2.0f64.to_bits()));
    match indicator.calculate(&sample_input(), &params).unwrap() {
        OutputData::MultiSeries(output) => output,
        _ => panic!("Unexpected output format"),
    }
}

#[test]
fn test_bollinger_bands_middle_length() {
    let output = bbands_output();
    let middle_band = series(&output, "middle_band");
    println!("Middle Band: {:?}", middle_band);
    assert_eq!(middle_band.len(), 30);
}

#[test]
fn test_bollinger_bands_middle_expected_nan() {
    let output = bbands_output();
    let middle_band = series(&output, "middle_band");
    println!("Middle Band: {:?}", middle_band);
    let invalid_length = 20 - 1;
    for i in 0..invalid_length {
        assert!(
            f64::from_bits(middle_band[i]).is_nan(),
            "Expected NaN at index {}",
            i
        );
    }
}

#[test]
fn test_bollinger_bands_middle_expected_value() {
    let output = bbands_output();
    let middle_band = series(&output, "middle_band");
    println!("Middle Band: {:?}", middle_band);
    let invalid_length = 20 - 1;
    for i in invalid_length..middle_band.len() {
        assert!(
            !f64::from_bits(middle_band[i]).is_nan(),
            "Expected valid middle band value at index {}, found NaN",
            i
        );
    }
}

#[test]
fn test_bollinger_bands_upper_length() {
    let output = bbands_output();
    let upper_band = series(&output, "upper_band");
    println!("Upper Band: {:?}", upper_band);
    assert_eq!(upper_band.len(), 30);
}

#[test]
fn test_bollinger_bands_upper_expected_nan() {
    let output = bbands_output();
    let upper_band = series(&output, "upper_band");
    println!("Upper Band: {:?}", upper_band);
    let invalid_length = 20 - 1;
    for i in 0..invalid_length {
        assert!(
            f64::from_bits(upper_band[i]).is_nan(),
            "Expected NaN at index {}",
            i
        );
    }
}

#[test]
fn test_bollinger_bands_upper_expected_value() {
    let output = bbands_output();
    let upper_band = series(&output, "upper_band");
    println!("Upper Band: {:?}", upper_band);
    let invalid_length = 20 - 1;
    for i in invalid_length..upper_band.len() {
        assert!(
            !f64::from_bits(upper_band[i]).is_nan(),
            "Expected valid upper band value at index {}, found NaN",
            i
        );
    }
}

#[test]
fn test_bollinger_bands_lower_length() {
    let output = bbands_output();
    let lower_band = series(&output, "lower_band");
    println!("Lower Band: {:?}", lower_band);
    assert_eq!(lower_band.len(), 30);
}

#[test]
fn test_bollinger_bands_lower_expected_nan() {
    let output = bbands_output();
    let lower_band = series(&output, "lower_band");
    println!("Lower Band: {:?}", lower_band);
    let invalid_length = 20 - 1;
    for i in 0..invalid_length {
        assert!(
            f64::from_bits(lower_band[i]).is_nan(),
            "Expected NaN at index {}",
            i
        );
    }
}

#[test]
fn test_bollinger_bands_lower_expected_value() {
    let output = bbands_output();
    let lower_band = series(&output, "lower_band");
    println!("Lower Band: {:?}", lower_band);
    let invalid_length = 20 - 1;
    for i in invalid_length..lower_band.len() {
        assert!(
            !f64::from_bits(lower_band[i]).is_nan(),
            "Expected valid lower band value at index {}, found NaN",
            i
        );
    }
}

#[test]
fn test_bollinger_bands_deviation_validity() {
    let output = bbands_output();
    let lower_band = series(&output, "lower_band");
    let middle_band = series(&output, "middle_band");
    let upper_band = series(&output, "upper_band");

    let invalid_length = 20 - 1;
    for i in invalid_length..middle_band.len() {
        assert!(
            f64::from_bits(upper_band[i]) >= f64::from_bits(middle_band[i]),
            "Upper band at index {} is not greater than or equal to middle band",
            i
        );
        assert!(
            f64::from_bits(lower_band[i]) <= f64::from_bits(middle_band[i]),
            "Lower band at index {} is not less than or equal to middle band",
            i
        );
    }
}
