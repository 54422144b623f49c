//! Chaikin accumulation/distribution line: the running total of money-flow
//! volume over the whole series. Every index is defined; there is no
//! warm-up, and a zero-range bar carries the prior total forward unchanged.

use vstd::prelude::*;
use std::collections::HashSet;
use crate::indicators::utils::{calculate_adl, spec_adl_at};
use crate::models::data::{spec_field, BarField, InputData, OutputData};
use crate::models::groups::{
    CalculationMethodology, ComplexityLevel, DataInputType, Group, MarketSuitability,
    MathematicalBasis, OutputFormat, SignalInterpretation, SignalType, SmoothingTechnique,
    TimeframeFocus, TradingStrategySuitability, UseCase,
};
use crate::models::indicator::{Indicator, IndicatorError, OutputV, SpecError};
use crate::params::Params;
use crate::validation::validator::{lemma_all_present, spec_candle_error, Validator};

verus! {

pub struct ChaikinADLine {
    groups: HashSet<Group>,
    validator: Validator,
}

pub fn create_groups() -> HashSet<Group> {
    let mut groups = HashSet::new();
    groups.insert(Group::UseCase(UseCase::VolumeConfirmation));
    groups.insert(Group::UseCase(UseCase::MarketStrengthMeasurement));
    groups.insert(Group::MathematicalBasis(MathematicalBasis::VolumeWeighted));
    groups.insert(Group::DataInputType(DataInputType::PriceVolumeCombined));
    groups.insert(Group::SignalType(SignalType::Leading));
    groups.insert(Group::OutputFormat(OutputFormat::SingleLine));
    groups.insert(Group::TimeframeFocus(TimeframeFocus::Medium));
    groups.insert(Group::TimeframeFocus(TimeframeFocus::Long));
    groups.insert(Group::ComplexityLevel(ComplexityLevel::Intermediate));
    groups.insert(Group::MarketSuitability(MarketSuitability::Trending));
    groups.insert(Group::TradingStrategySuitability(TradingStrategySuitability::Swing));
    groups.insert(Group::TradingStrategySuitability(TradingStrategySuitability::Positional));
    groups.insert(Group::SmoothingTechnique(SmoothingTechnique::Raw));
    groups.insert(Group::CalculationMethodology(CalculationMethodology::Cumulative));
    groups.insert(Group::SignalInterpretation(SignalInterpretation::Divergence));
    groups
}

pub open spec fn spec_ad_line_fields() -> Seq<BarField> {
    seq![BarField::CLOSE, BarField::HIGH, BarField::LOW, BarField::VOLUME]
}

fn create_validator() -> (v: Validator)
    ensures
        v.spec_fields() == spec_ad_line_fields(),
        v.spec_rules().len() == 0,
{
    let fields = vec![BarField::CLOSE, BarField::HIGH, BarField::LOW, BarField::VOLUME];
    proof {
        assert(fields@ =~= spec_ad_line_fields());
    }
    Validator::new(fields, Vec::new())
}

/// The whole accumulation/distribution run: the candle contract checked
/// first, then one output series exactly as long as the input.
pub open spec fn spec_ad_line_calc(d: InputData) -> Result<OutputV, SpecError> {
    match spec_candle_error(spec_ad_line_fields(), d) {
        Option::Some(e) => Result::Err(e),
        Option::None => {
            let h = spec_field(d, BarField::HIGH)->Some_0;
            let l = spec_field(d, BarField::LOW)->Some_0;
            let c = spec_field(d, BarField::CLOSE)->Some_0;
            let v = spec_field(d, BarField::VOLUME)->Some_0;
            Result::Ok(OutputV::Single(Seq::new(h.len(), |i: int| spec_adl_at(h, l, c, v, i))))
        },
    }
}

impl ChaikinADLine {
    #[verifier::type_invariant]
    spec fn wf(self) -> bool {
        &&& self.validator.spec_fields() == spec_ad_line_fields()
        &&& self.validator.spec_rules().len() == 0
    }

    pub fn new() -> Self {
        let validator = create_validator();
        let groups = create_groups();
        Self { groups, validator }
    }
}

impl Indicator for ChaikinADLine {
    open spec fn calc_spec(&self, data: InputData, params: Params) -> Result<OutputV, SpecError> {
        spec_ad_line_calc(data)
    }

    fn short_name(&self) -> &'static str {
        "AD"
    }

    fn name(&self) -> &'static str {
        "Chaikin Accumulation/Distribution Line"
    }

    fn get_groups(&self) -> &HashSet<Group> {
        &self.groups
    }

    fn calculate(&self, data: &InputData, params: &Params) -> Result<OutputData, IndicatorError> {
        proof {
            use_type_invariant(&*self);
        }
        match self.validator.validate_data(data) {
            Err(e) => {
                return Err(e);
            },
            Ok(u) => {},
        }
        proof {
            lemma_all_present(spec_ad_line_fields(), *data);
            assert(spec_ad_line_fields()[0] == BarField::CLOSE);
            assert(spec_ad_line_fields()[1] == BarField::HIGH);
            assert(spec_ad_line_fields()[2] == BarField::LOW);
            assert(spec_ad_line_fields()[3] == BarField::VOLUME);
            assert(spec_field(*data, BarField::HIGH) is Some);
            assert(spec_field(*data, BarField::LOW) is Some);
            assert(spec_field(*data, BarField::CLOSE) is Some);
            assert(spec_field(*data, BarField::VOLUME) is Some);
        }
        let high = data.get_by_bar_field(&BarField::HIGH).unwrap();
        let low = data.get_by_bar_field(&BarField::LOW).unwrap();
        let close = data.get_by_bar_field(&BarField::CLOSE).unwrap();
        let volume = data.get_by_bar_field(&BarField::VOLUME).unwrap();
        let ad_line = match calculate_adl(high, low, close, volume) {
            Ok(v) => v,
            Err(e) => {
                return Err(e);
            },
        };
        proof {
            let h = spec_field(*data, BarField::HIGH)->Some_0;
            let l = spec_field(*data, BarField::LOW)->Some_0;
            let c = spec_field(*data, BarField::CLOSE)->Some_0;
            let v = spec_field(*data, BarField::VOLUME)->Some_0;
            assert(ad_line@ =~= Seq::new(h.len(), |i: int| spec_adl_at(h, l, c, v, i)));
        }
        Ok(OutputData::SingleSeries(ad_line))
    }
}

} // verus!
