pub mod adx;
pub mod adxr;
pub mod apo;
pub mod aroon;
pub mod atr;
pub mod avgprice;
pub mod bbands;
pub mod chaikin_ad_line;
pub mod chaikin_ad_oscillator;
pub mod utils;
