//! Average directional movement rating: the mean of the directional index
//! at a bar and at the bar one period earlier, both taken from the upstream
//! indicator's output treated as an opaque single series. Warm-up horizon:
//! `2 * (period - 1) + period`.

use vstd::prelude::*;
use std::collections::HashSet;
use vstd::string::StringExecFns;
use crate::ieee::{f64_of_u64, is_nan, spec_f64_of_u64, spec_is_nan, NAN_BITS};
use crate::indicators::adx::{spec_adx_calc, ADX};
use crate::models::data::{BarField, InputData, OutputData};
use crate::models::groups::{
    CalculationMethodology, ComplexityLevel, DataInputType, Group, MarketSuitability,
    MathematicalBasis, OutputFormat, SignalInterpretation, SignalType, SmoothingTechnique,
    TimeframeFocus, TradingStrategySuitability, UseCase,
};
use crate::models::indicator::{Indicator, IndicatorError, OutputV, SpecError};
use crate::num;
use crate::num::{add_bits, div_bits};
use crate::params::{
    decode_usize, spec_decode_usize, spec_usize_value, usize_value, ParamValue, Params,
};
use crate::validation::validator::{spec_validate, ParamRule, Validator};

verus! {

/// The decoded parameter schema.
pub struct ADXRParams {
    pub period: usize,
}

pub fn default_period() -> (p: usize)
    ensures
        p == 14,
{
    14
}

pub struct ADXR {
    groups: HashSet<Group>,
    validator: Validator,
}

pub open spec fn spec_adxr_fields() -> Seq<BarField> {
    seq![BarField::HIGH, BarField::LOW, BarField::CLOSE]
}

pub open spec fn spec_adxr_rules() -> Seq<ParamRule> {
    seq![
        ParamRule::Required("period"),
        ParamRule::PositiveInteger("period"),
        ParamRule::WithinDataLength { param: "period", field: BarField::HIGH },
    ]
}

fn create_validator() -> (v: Validator)
    ensures
        v.spec_fields() == spec_adxr_fields(),
        v.spec_rules() == spec_adxr_rules(),
{
    let fields = vec![BarField::HIGH, BarField::LOW, BarField::CLOSE];
    let rules = vec![
        ParamRule::Required("period"),
        ParamRule::PositiveInteger("period"),
        ParamRule::WithinDataLength { param: "period", field: BarField::HIGH },
    ];
    proof {
        assert(fields@ =~= spec_adxr_fields());
        assert(rules@ =~= spec_adxr_rules());
    }
    Validator::new(fields, rules)
}

pub fn create_groups() -> HashSet<Group> {
    let mut groups = HashSet::new();
    groups.insert(Group::UseCase(UseCase::TrendIdentification));
    groups.insert(Group::UseCase(UseCase::MarketStrengthMeasurement));
    groups.insert(Group::MathematicalBasis(MathematicalBasis::Averaging));
    groups.insert(Group::MathematicalBasis(MathematicalBasis::RatioBased));
    groups.insert(Group::MathematicalBasis(MathematicalBasis::Oscillation));
    groups.insert(Group::DataInputType(DataInputType::PriceBased));
    groups.insert(Group::SignalType(SignalType::Lagging));
    groups.insert(Group::OutputFormat(OutputFormat::SingleLine));
    groups.insert(Group::OutputFormat(OutputFormat::Percentage));
    groups.insert(Group::TimeframeFocus(TimeframeFocus::Medium));
    groups.insert(Group::TimeframeFocus(TimeframeFocus::Long));
    groups.insert(Group::ComplexityLevel(ComplexityLevel::Intermediate));
    groups.insert(Group::MarketSuitability(MarketSuitability::Trending));
    groups.insert(Group::TradingStrategySuitability(TradingStrategySuitability::Swing));
    groups.insert(Group::TradingStrategySuitability(TradingStrategySuitability::Positional));
    groups.insert(Group::SmoothingTechnique(SmoothingTechnique::SimpleAverage));
    groups.insert(Group::CalculationMethodology(CalculationMethodology::Ratio));
    groups.insert(Group::CalculationMethodology(CalculationMethodology::Cumulative));
    groups.insert(Group::SignalInterpretation(SignalInterpretation::ThresholdLevels));
    groups
}

/// The parameter mapping the decoded schema denotes.
pub open spec fn spec_adxr_params_map(period: usize) -> Map<Seq<char>, ParamValue> {
    Map::empty().insert("period"@, spec_usize_value(period))
}

pub open spec fn msg_invalid_upstream() -> Seq<char> {
    "Invalid ADX output."@
}

/// The rating at one bar: the mean of the upstream value here and one
/// period back, NaN when either is NaN or the earlier bar does not exist.
pub open spec fn spec_adxr_at(adx: Seq<u64>, p: int, i: int) -> u64 {
    if i >= p && !spec_is_nan(adx[i]) && !spec_is_nan(adx[i - p]) {
        div_bits(add_bits(adx[i], adx[i - p]), spec_f64_of_u64(2))
    } else {
        NAN_BITS
    }
}

/// The whole run: schema decoding, then validation, the upstream indicator's own
/// run consumed as an opaque single series, then one output series exactly
/// as long as the upstream one.
pub open spec fn spec_adxr_calc(d: InputData, pm: Map<Seq<char>, ParamValue>) -> Result<
    OutputV,
    SpecError,
> {
    match spec_decode_usize(pm, "period"@, 14) {
        Result::Err(m) => Result::Err(SpecError::Params(m)),
        Result::Ok(period) => {
            let vp = spec_adxr_params_map(period);
            match spec_validate(spec_adxr_fields(), spec_adxr_rules(), vp, d) {
                Option::Some(e) => Result::Err(e),
                Option::None => match spec_adx_calc(d, pm) {
                    Result::Err(e) => Result::Err(e),
                    Result::Ok(ov) => match ov {
                        OutputV::Single(adx) => Result::Ok(
                            OutputV::Single(
                                Seq::new(adx.len(), |i: int| spec_adxr_at(adx, period as int, i)),
                            ),
                        ),
                        OutputV::Multi(m) => Result::Err(SpecError::Calc(msg_invalid_upstream())),
                    },
                },
            }
        },
    }
}

impl ADXR {
    #[verifier::type_invariant]
    spec fn wf(self) -> bool {
        &&& self.validator.spec_fields() == spec_adxr_fields()
        &&& self.validator.spec_rules() == spec_adxr_rules()
    }

    pub fn new() -> Self {
        let groups = create_groups();
        let validator = create_validator();
        Self { groups, validator }
    }
}

impl Indicator for ADXR {
    open spec fn calc_spec(&self, data: InputData, params: Params) -> Result<OutputV, SpecError> {
        spec_adxr_calc(data, params@)
    }

    fn short_name(&self) -> &'static str {
        "ADXR"
    }

    fn name(&self) -> &'static str {
        "Average Directional Movement Index Rating"
    }

    fn get_groups(&self) -> &HashSet<Group> {
        &self.groups
    }

    fn calculate(&self, data: &InputData, params: &Params) -> Result<OutputData, IndicatorError> {
        proof {
            use_type_invariant(&*self);
        }
        let schema = ADXRParams {
            period: match decode_usize(params, "period", default_period()) {
                Ok(p) => p,
                Err(m) => {
                    return Err(IndicatorError::InvalidParameters(m));
                },
            },
        };
        let period: usize = schema.period;
        let mut vp = Params::empty();
        vp.set("period", usize_value(period));
        match self.validator.validate(data, &vp) {
            Err(e) => {
                return Err(e);
            },
            Ok(u) => {},
        }
        let adx_indicator = ADX::new();
        let adx_values: Vec<u64> = match adx_indicator.calculate(data, params) {
            Err(e) => {
                return Err(e);
            },
            Ok(OutputData::SingleSeries(series)) => series,
            Ok(OutputData::MultiSeries(m)) => {
                return Err(
                    IndicatorError::CalculationError(String::from_str("Invalid ADX output.")),
                );
            },
        };
        let length: usize = adx_values.len();
        let two: u64 = f64_of_u64(2);
        let mut adxr_values: Vec<u64> = Vec::new();
        let mut i: usize = 0;
        while i < length
            invariant
                i <= length,
                length == adx_values@.len(),
                two == spec_f64_of_u64(2),
                adxr_values@.len() == i,
                forall|j: int|
                    0 <= j < i ==> adxr_values@[j] == spec_adxr_at(adx_values@, period as int, j),
            decreases length - i,
        {
            if i >= period && !is_nan(adx_values[i]) && !is_nan(adx_values[i - period]) {
                adxr_values.push(num::div(num::add(adx_values[i], adx_values[i - period]), two));
            } else {
                adxr_values.push(NAN_BITS);
            }
            i = i + 1;
        }
        proof {
            assert(adxr_values@ =~= Seq::new(
                adx_values@.len(),
                |j: int| spec_adxr_at(adx_values@, period as int, j),
            ));
        }
        Ok(OutputData::SingleSeries(adxr_values))
    }
}

} // verus!
