use indicators::indicators::avgprice::AvgPrice;
use indicators::models::data::{InputData, OutputData};
use indicators::models::indicator::Indicator;
use indicators::params::Params;

fn bits(xs: &[f64]) -> Vec<u64> {
    xs.iter().map(|x| x.to_bits()).collect()
}

fn sample_input() -> InputData {
    InputData {
        open: Some(bits(&[1.0, 2.0, 3.0, 4.0, 5.0])),
        high: Some(bits(&[1.5, 2.5, 3.5, 4.5, 5.5])),
        low: Some(bits(&[0.5, 1.5, 2.5, 3.5, 4.5])),
        close: Some(bits(&[1.2, 2.2, 3.2, 4.2, 5.2])),
        volume: None,
    }
}

#[test]
fn test_avg_price_length() {
    let indicator = AvgPrice::new();
    let params = Params::empty();

    let result = indicator.calculate(&sample_input(), &params).unwrap();

    if let OutputData::SingleSeries(avg_price_values) = result {
        println!("Average Price values: {:?}", avg_price_values);
        assert_eq!(avg_price_values.len(), 5);
    } else {
        panic!("Unexpected output format");
    }
}

#[test]
fn test_avg_price_expected_value() {
    let open = [1.0f64, 2.0, 3.0, 4.0, 5.0];
    let high = [1.5f64, 2.5, 3.5, 4.5, 5.5];
    let low = [0.5f64, 1.5, 2.5, 3.5, 4.5];
    let close = [1.2f64, 2.2, 3.2, 4.2, 5.2];

    let indicator = AvgPrice::new();
    let params = Params::empty();

    let result = indicator.calculate(&sample_input(), &params).unwrap();

    if let OutputData::SingleSeries(avg_price_values) = result {
        println!("Average Price values: {:?}", avg_price_values);
        for i in 0..open.len() {
            let got = f64::from_bits(avg_price_values[i]);
            let expected = (open[i] + high[i] + low[i] + close[i]) / 4.0;
            assert!(
                (got - expected).abs() < 1e-6,
                "Average Price value at index {} does not match expected value. {} and {}",
                i,
                got,
                expected
            );
        }
    } else {
        panic!("Unexpected output format");
    }
}
