use indicators::indicators::adxr::ADXR;
use indicators::models::data::{InputData, OutputData};
use indicators::models::indicator::Indicator;
use indicators::params::{ParamValue, Params};

fn bits(xs: &[f64]) -> Vec<u64> {
    xs.iter().map(|x| x.to_bits()).collect()
}

#[test]
fn test_adxr() {
    let high = bits(&[30.0, 32.0, 31.0, 33.0, 34.0, 35.0, 36.0, 37.0, 38.0, 39.0]);
    let low = bits(&[29.0, 30.0, 29.5, 31.0, 32.0, 33.0, 34.0, 35.0, 36.0, 37.0]);
    let close = bits(&[29.5, 31.0, 30.5, 32.0, 33.0, 34.0, 35.0, 36.0, 37.0, 38.0]);
    let length = high.len();

    let input_data = InputData {
        open: None,
        high: Some(high),
        low: Some(low),
        close: Some(close),
        volume: None,
    };

    let indicator = ADXR::new();
    let period_num = 3;
    let mut params = Params::empty();
    params.set("period", ParamValue::Int(period_num as i64));

    let result = indicator.calculate(&input_data, &params).unwrap();

    if let OutputData::SingleSeries(adxr_values) = result {
        println!("ADXR values: {:?}", adxr_values);

        assert_eq!(adxr_values.len(), length);

        let invalid_length = 2 * (period_num - 1) + period_num;
        for i in 0..invalid_length {
            assert!(
                f64::from_bits(adxr_values[i]).is_nan(),
                "Expected NaN at index {}",
                i
            );
        }

        for i in invalid_length..adxr_values.len() {
            assert!(
                !f64::from_bits(adxr_values[i]).is_nan(),
                "Expected valid ADXR value at index {}, found NaN",
                i
            );
        }
    } else {
        panic!("Unexpected output format");
    }
}
