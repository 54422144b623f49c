use indicators::indicators::chaikin_ad_line::ChaikinADLine;
use indicators::models::data::{InputData, OutputData};
use indicators::models::indicator::Indicator;
use indicators::params::Params;

fn bits(xs: &[f64]) -> Vec<u64> {
    xs.iter().map(|x| x.to_bits()).collect()
}

#[test]
fn test_chaikin_ad_line() {
    let high = bits(&[10.0, 11.0, 12.0, 13.0, 14.0]);
    let low = bits(&[9.0, 9.5, 10.5, 11.5, 12.5]);
    let close = bits(&[9.5, 10.5, 11.5, 12.5, 13.5]);
    let volume = bits(&[1000.0, 1100.0, 1200.0, 1300.0, 1400.0]);

    let input_data = InputData {
        open: None,
        high: Some(high),
        low: Some(low),
        close: Some(close),
        volume: Some(volume),
    };

    let indicator = ChaikinADLine::new();

    let params = Params::empty();

    let result = indicator.calculate(&input_data, &params).unwrap();

    if let OutputData::SingleSeries(ad_line) = result {
        let expected = [0.0f64, 366.6667, 766.6667, 1200.0, 1666.6667];

        for (calculated, expected) in ad_line.iter().zip(expected.iter()) {
            let got = f64::from_bits(*calculated);
            assert!(
                (got - expected).abs() < 0.0001,
                "Calculated value {} does not match expected value {}",
                got,
                expected
            );
        }
    } else {
        panic!("Unexpected output format");
    }
}

#[test]
fn test_chaikin_ad_line_zero_range() {
    let high = bits(&[10.0, 11.0, 12.0, 13.0, 13.0]);
    let low = bits(&[9.0, 9.5, 10.5, 11.5, 13.0]);
    let close = bits(&[9.5, 10.5, 11.5, 12.5, 13.0]);
    let volume = bits(&[1000.0, 1100.0, 1200.0, 1300.0, 1400.0]);

    let input_data = InputData {
        open: None,
        high: Some(high),
        low: Some(low),
        close: Some(close),
        volume: Some(volume),
    };

    let indicator = ChaikinADLine::new();

    let params = Params::empty();

    let result = indicator.calculate(&input_data, &params).unwrap();

    if let OutputData::SingleSeries(ad_line) = result {
        let expected = [0.0f64, 366.6667, 766.6667, 1200.0, 1200.0];

        for (calculated, expected) in ad_line.iter().zip(expected.iter()) {
            let got = f64::from_bits(*calculated);
            assert!(
                (got - expected).abs() < 0.0001,
                "Calculated value {} does not match expected value {}",
                got,
                expected
            );
        }
    } else {
        panic!("Unexpected output format");
    }
}
