//! Average price: the elementwise mean of open, high, low and close. Every
//! index is valid when the four fields are present; there is no warm-up.

use vstd::prelude::*;
use std::collections::HashSet;
use crate::ieee::{f64_of_u64, spec_f64_of_u64};
use crate::models::data::{spec_field, BarField, InputData, OutputData};
use crate::models::groups::{
    CalculationMethodology, ComplexityLevel, DataInputType, Group, MarketSuitability,
    MathematicalBasis, OutputFormat, SignalInterpretation, SignalType, SmoothingTechnique,
    TimeframeFocus, TradingStrategySuitability, UseCase,
};
use crate::models::indicator::{Indicator, IndicatorError, OutputV, SpecError};
use crate::num;
use crate::num::{add_bits, div_bits};
use crate::params::Params;
use crate::validation::validator::{lemma_all_present, spec_candle_error, Validator};

verus! {

pub struct AvgPrice {
    groups: HashSet<Group>,
    validator: Validator,
}

pub fn create_groups() -> HashSet<Group> {
    let mut groups = HashSet::new();
    groups.insert(Group::UseCase(UseCase::PriceTransformation));
    groups.insert(Group::MathematicalBasis(MathematicalBasis::Averaging));
    groups.insert(Group::DataInputType(DataInputType::PriceBased));
    groups.insert(Group::SignalType(SignalType::Coincident));
    groups.insert(Group::OutputFormat(OutputFormat::SingleLine));
    groups.insert(Group::OutputFormat(OutputFormat::Absolute));
    groups.insert(Group::TimeframeFocus(TimeframeFocus::Short));
    groups.insert(Group::TimeframeFocus(TimeframeFocus::Medium));
    groups.insert(Group::TimeframeFocus(TimeframeFocus::Long));
    groups.insert(Group::ComplexityLevel(ComplexityLevel::Basic));
    groups.insert(Group::MarketSuitability(MarketSuitability::Trending));
    groups.insert(Group::MarketSuitability(MarketSuitability::RangeBound));
    groups.insert(Group::TradingStrategySuitability(TradingStrategySuitability::Intraday));
    groups.insert(Group::TradingStrategySuitability(TradingStrategySuitability::Swing));
    groups.insert(Group::TradingStrategySuitability(TradingStrategySuitability::Positional));
    groups.insert(Group::SmoothingTechnique(SmoothingTechnique::Raw));
    groups.insert(Group::CalculationMethodology(CalculationMethodology::Averaging));
    groups.insert(Group::SignalInterpretation(SignalInterpretation::Patterns));
    groups
}

pub open spec fn spec_avgprice_fields() -> Seq<BarField> {
    seq![BarField::CLOSE, BarField::LOW, BarField::HIGH, BarField::OPEN]
}

fn create_validator() -> (v: Validator)
    ensures
        v.spec_fields() == spec_avgprice_fields(),
        v.spec_rules().len() == 0,
{
    let fields = vec![BarField::CLOSE, BarField::LOW, BarField::HIGH, BarField::OPEN];
    proof {
        assert(fields@ =~= spec_avgprice_fields());
    }
    Validator::new(fields, Vec::new())
}

/// The average-price value at one bar: `(open + high + low + close) / 4`.
pub open spec fn spec_avgprice_at(
    o: Seq<u64>,
    h: Seq<u64>,
    l: Seq<u64>,
    c: Seq<u64>,
    i: int,
) -> u64 {
    div_bits(add_bits(add_bits(add_bits(o[i], h[i]), l[i]), c[i]), spec_f64_of_u64(4))
}

/// The whole average-price run: the candle contract checked first, then one
/// output series exactly as long as the input.
pub open spec fn spec_avgprice_calc(d: InputData) -> Result<OutputV, SpecError> {
    match spec_candle_error(spec_avgprice_fields(), d) {
        Option::Some(e) => Result::Err(e),
        Option::None => {
            let o = spec_field(d, BarField::OPEN)->Some_0;
            let h = spec_field(d, BarField::HIGH)->Some_0;
            let l = spec_field(d, BarField::LOW)->Some_0;
            let c = spec_field(d, BarField::CLOSE)->Some_0;
            Result::Ok(
                OutputV::Single(Seq::new(o.len(), |i: int| spec_avgprice_at(o, h, l, c, i))),
            )
        },
    }
}

impl AvgPrice {
    #[verifier::type_invariant]
    spec fn wf(self) -> bool {
        &&& self.validator.spec_fields() == spec_avgprice_fields()
        &&& self.validator.spec_rules().len() == 0
    }

    pub fn new() -> Self {
        let groups = create_groups();
        let validator = create_validator();
        Self { groups, validator }
    }
}

impl Indicator for AvgPrice {
    open spec fn calc_spec(&self, data: InputData, params: Params) -> Result<OutputV, SpecError> {
        spec_avgprice_calc(data)
    }

    fn short_name(&self) -> &'static str {
        "AVGPRICE"
    }

    fn name(&self) -> &'static str {
        "Average Price"
    }

    fn get_groups(&self) -> &HashSet<Group> {
        &self.groups
    }

    fn calculate(&self, data: &InputData, params: &Params) -> Result<OutputData, IndicatorError> {
        proof {
            use_type_invariant(&*self);
        }
        match self.validator.validate_data(data) {
            Err(e) => {
                return Err(e);
            },
            Ok(u) => {},
        }
        proof {
            lemma_all_present(spec_avgprice_fields(), *data);
            assert(spec_avgprice_fields()[0] == BarField::CLOSE);
            assert(spec_avgprice_fields()[1] == BarField::LOW);
            assert(spec_avgprice_fields()[2] == BarField::HIGH);
            assert(spec_avgprice_fields()[3] == BarField::OPEN);
            assert(spec_field(*data, BarField::OPEN) is Some);
            assert(spec_field(*data, BarField::HIGH) is Some);
            assert(spec_field(*data, BarField::LOW) is Some);
            assert(spec_field(*data, BarField::CLOSE) is Some);
        }
        let open = data.get_by_bar_field(&BarField::OPEN).unwrap();
        let high = data.get_by_bar_field(&BarField::HIGH).unwrap();
        let low = data.get_by_bar_field(&BarField::LOW).unwrap();
        let close = data.get_by_bar_field(&BarField::CLOSE).unwrap();
        let length: usize = open.len();
        let four: u64 = f64_of_u64(4);
        let mut avg_price: Vec<u64> = Vec::new();
        let mut i: usize = 0;
        while i < length
            invariant
                i <= length,
                length == open@.len(),
                length == high@.len(),
                length == low@.len(),
                length == close@.len(),
                four == spec_f64_of_u64(4),
                avg_price@.len() == i,
                forall|j: int|
                    0 <= j < i ==> avg_price@[j] == spec_avgprice_at(open@, high@, low@, close@, j),
            decreases length - i,
        {
            let sum: u64 = num::add(num::add(num::add(open[i], high[i]), low[i]), close[i]);
            avg_price.push(num::div(sum, four));
            i = i + 1;
        }
        proof {
            let o = spec_field(*data, BarField::OPEN)->Some_0;
            let h = spec_field(*data, BarField::HIGH)->Some_0;
            let l = spec_field(*data, BarField::LOW)->Some_0;
            let c = spec_field(*data, BarField::CLOSE)->Some_0;
            assert(avg_price@ =~= Seq::new(o.len(), |i: int| spec_avgprice_at(o, h, l, c, i)));
        }
        Ok(OutputData::SingleSeries(avg_price))
    }
}

} // verus!
