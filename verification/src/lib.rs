//! Technical-indicator library over OHLCV candle series.
//!
//! Every series value is carried as the raw bit pattern (`u64`) of an IEEE 754
//! double, so results are pinned bit for bit. The pure bit-level structure
//! (classification, comparison, warm-up handling, validation, composition) is
//! verified; the five rounding arithmetic primitives are delegated to an
//! outside soft-float implementation behind narrow trusted wrappers.

pub mod ieee;
pub mod indicators;
pub mod laws;
pub mod models;
pub mod num;
pub mod params;
pub mod strutil;
pub mod validation;
