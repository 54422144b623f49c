//! The indicator contract: error kinds, result views, and the polymorphic
//! interface every indicator exposes.

use vstd::prelude::*;
use std::collections::HashSet;
use crate::models::data::{InputData, OutputData};
use crate::models::groups::Group;
use crate::params::Params;

verus! {

/// The three error kinds: candle-contract violations, parameter-contract
/// violations, and broken internal invariants.
#[derive(Debug)]
pub enum IndicatorError {
    InvalidInput(String),
    InvalidParameters(String),
    CalculationError(String),
}

/// Mathematical image of an error: its kind and its message text.
pub enum SpecError {
    Input(Seq<char>),
    Params(Seq<char>),
    Calc(Seq<char>),
}

pub open spec fn err_view(e: IndicatorError) -> SpecError {
    match e {
        IndicatorError::InvalidInput(m) => SpecError::Input(m@),
        IndicatorError::InvalidParameters(m) => SpecError::Params(m@),
        IndicatorError::CalculationError(m) => SpecError::Calc(m@),
    }
}

/// Mathematical image of an output: each series as a sequence of bit
/// patterns, named series keeping their key order.
pub enum OutputV {
    Single(Seq<u64>),
    Multi(Seq<(Seq<char>, Seq<u64>)>),
}

pub open spec fn output_view(o: OutputData) -> OutputV {
    match o {
        OutputData::SingleSeries(v) => OutputV::Single(v@),
        OutputData::MultiSeries(m) => OutputV::Multi(m@.map_values(|p: (String, Vec<u64>)| (p.0@, p.1@))),
    }
}

pub open spec fn result_view(r: Result<OutputData, IndicatorError>) -> Result<OutputV, SpecError> {
    match r {
        Result::Ok(o) => Result::Ok(output_view(o)),
        Result::Err(e) => Result::Err(err_view(e)),
    }
}

/// The polymorphic indicator interface: identity, classification tags, and a
/// `calculate` operation whose result is pinned, value by value, to the
/// implementor's own mathematical description `calc_spec`. Two calls on equal
/// input therefore give bit-identical output.
pub trait Indicator {
    spec fn calc_spec(&self, data: InputData, params: Params) -> Result<OutputV, SpecError>;

    fn short_name(&self) -> &'static str;

    fn name(&self) -> &'static str;

    fn get_groups(&self) -> &HashSet<Group>;

    fn calculate(&self, data: &InputData, params: &Params) -> (r: Result<
        OutputData,
        IndicatorError,
    >)
        ensures
            result_view(r) == self.calc_spec(*data, *params),
    ;
}

} // verus!
