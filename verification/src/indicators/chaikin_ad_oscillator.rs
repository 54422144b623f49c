//! Chaikin accumulation/distribution oscillator: the short exponential
//! average of the accumulation/distribution line minus the long one.
//! Warm-up horizon: `long_period - 1`.

use vstd::prelude::*;
use std::collections::HashSet;
use crate::ieee::NAN_BITS;
use crate::indicators::utils::{calculate_adl, calculate_ema, spec_adl_at, spec_ema_zero_at};
use crate::models::data::{spec_field, BarField, InputData, OutputData};
use crate::models::groups::{
    CalculationMethodology, ComplexityLevel, DataInputType, Group, MarketSuitability,
    MathematicalBasis, OutputFormat, SignalInterpretation, SignalType, SmoothingTechnique,
    TimeframeFocus, TradingStrategySuitability, UseCase,
};
use crate::models::indicator::{Indicator, IndicatorError, OutputV, SpecError};
use crate::num;
use crate::num::sub_bits;
use crate::params::{
    decode_usize, spec_decode_usize, spec_usize_value, usize_value, ParamValue, Params,
};
use crate::validation::validator::{
    lemma_all_present, spec_rule_error, spec_rules_error, spec_validate, ParamRule, Validator,
};

verus! {

/// The decoded parameter schema.
pub struct ChaikinOscillatorParams {
    pub short_period: usize,
    pub long_period: usize,
}

pub fn default_short_period() -> (p: usize)
    ensures
        p == 3,
{
    3
}

pub fn default_long_period() -> (p: usize)
    ensures
        p == 10,
{
    10
}

pub struct ChaikinADOscillator {
    groups: HashSet<Group>,
    validator: Validator,
}

pub open spec fn spec_adosc_fields() -> Seq<BarField> {
    seq![BarField::HIGH, BarField::LOW, BarField::CLOSE, BarField::VOLUME]
}

pub open spec fn spec_adosc_rules() -> Seq<ParamRule> {
    seq![
        ParamRule::Required("short_period"),
        ParamRule::Required("long_period"),
        ParamRule::PositiveInteger("short_period"),
        ParamRule::PositiveInteger("long_period"),
        ParamRule::CorrectPeriod { left: "short_period", right: "long_period" },
        ParamRule::WithinDataLength { param: "short_period", field: BarField::HIGH },
        ParamRule::WithinDataLength { param: "long_period", field: BarField::HIGH },
    ]
}

fn create_validator() -> (v: Validator)
    ensures
        v.spec_fields() == spec_adosc_fields(),
        v.spec_rules() == spec_adosc_rules(),
{
    let fields = vec![BarField::HIGH, BarField::LOW, BarField::CLOSE, BarField::VOLUME];
    let rules = vec![
        ParamRule::Required("short_period"),
        ParamRule::Required("long_period"),
        ParamRule::PositiveInteger("short_period"),
        ParamRule::PositiveInteger("long_period"),
        ParamRule::CorrectPeriod { left: "short_period", right: "long_period" },
        ParamRule::WithinDataLength { param: "short_period", field: BarField::HIGH },
        ParamRule::WithinDataLength { param: "long_period", field: BarField::HIGH },
    ];
    proof {
        assert(fields@ =~= spec_adosc_fields());
        assert(rules@ =~= spec_adosc_rules());
    }
    Validator::new(fields, rules)
}

pub fn create_groups() -> HashSet<Group> {
    let mut groups = HashSet::new();
    groups.insert(Group::UseCase(UseCase::MomentumDetection));
    groups.insert(Group::UseCase(UseCase::VolumeConfirmation));
    groups.insert(Group::MathematicalBasis(MathematicalBasis::Differentiation));
    groups.insert(Group::MathematicalBasis(MathematicalBasis::VolumeWeighted));
    groups.insert(Group::DataInputType(DataInputType::PriceVolumeCombined));
    groups.insert(Group::SignalType(SignalType::Leading));
    groups.insert(Group::OutputFormat(OutputFormat::SingleLine));
    groups.insert(Group::TimeframeFocus(TimeframeFocus::Short));
    groups.insert(Group::TimeframeFocus(TimeframeFocus::Medium));
    groups.insert(Group::ComplexityLevel(ComplexityLevel::Intermediate));
    groups.insert(Group::MarketSuitability(MarketSuitability::Trending));
    groups.insert(Group::MarketSuitability(MarketSuitability::RangeBound));
    groups.insert(Group::TradingStrategySuitability(TradingStrategySuitability::Intraday));
    groups.insert(Group::TradingStrategySuitability(TradingStrategySuitability::Swing));
    groups.insert(Group::SmoothingTechnique(SmoothingTechnique::Exponential));
    groups.insert(Group::CalculationMethodology(CalculationMethodology::Differential));
    groups.insert(Group::SignalInterpretation(SignalInterpretation::Crossovers));
    groups.insert(Group::SignalInterpretation(SignalInterpretation::Divergence));
    groups
}

/// The parameter mapping the decoded schema denotes.
pub open spec fn spec_adosc_params_map(short: usize, long: usize) -> Map<Seq<char>, ParamValue> {
    Map::empty().insert("short_period"@, spec_usize_value(short)).insert(
        "long_period"@,
        spec_usize_value(long),
    )
}

/// The oscillator value at one bar over the accumulation/distribution line:
/// NaN inside the warm-up horizon of the long average, afterwards the short
/// average minus the long one.
pub open spec fn spec_adosc_at(adl: Seq<u64>, short: int, long: int, i: int) -> u64 {
    if i < long - 1 {
        NAN_BITS
    } else {
        sub_bits(spec_ema_zero_at(adl, short, i), spec_ema_zero_at(adl, long, i))
    }
}

/// The whole oscillator run: schema decoding, then validation, then one output
/// series exactly as long as the input.
pub open spec fn spec_adosc_calc(d: InputData, pm: Map<Seq<char>, ParamValue>) -> Result<
    OutputV,
    SpecError,
> {
    match spec_decode_usize(pm, "short_period"@, 3) {
        Result::Err(m) => Result::Err(SpecError::Params(m)),
        Result::Ok(short) => match spec_decode_usize(pm, "long_period"@, 10) {
            Result::Err(m) => Result::Err(SpecError::Params(m)),
            Result::Ok(long) => {
                let vp = spec_adosc_params_map(short, long);
                match spec_validate(spec_adosc_fields(), spec_adosc_rules(), vp, d) {
                    Option::Some(e) => Result::Err(e),
                    Option::None => {
                        let h = spec_field(d, BarField::HIGH)->Some_0;
                        let l = spec_field(d, BarField::LOW)->Some_0;
                        let c = spec_field(d, BarField::CLOSE)->Some_0;
                        let v = spec_field(d, BarField::VOLUME)->Some_0;
                        let adl = Seq::new(h.len(), |i: int| spec_adl_at(h, l, c, v, i));
                        Result::Ok(
                            OutputV::Single(
                                Seq::new(
                                    h.len(),
                                    |i: int| spec_adosc_at(adl, short as int, long as int, i),
                                ),
                            ),
                        )
                    },
                }
            },
        },
    }
}

impl ChaikinADOscillator {
    #[verifier::type_invariant]
    spec fn wf(self) -> bool {
        &&& self.validator.spec_fields() == spec_adosc_fields()
        &&& self.validator.spec_rules() == spec_adosc_rules()
    }

    pub fn new() -> Self {
        let groups = create_groups();
        let validator = create_validator();
        Self { groups, validator }
    }
}

impl Indicator for ChaikinADOscillator {
    open spec fn calc_spec(&self, data: InputData, params: Params) -> Result<OutputV, SpecError> {
        spec_adosc_calc(data, params@)
    }

    fn short_name(&self) -> &'static str {
        "ADOSC"
    }

    fn name(&self) -> &'static str {
        "Chaikin Accumulation/Distribution Oscillator"
    }

    fn get_groups(&self) -> &HashSet<Group> {
        &self.groups
    }

    fn calculate(&self, data: &InputData, params: &Params) -> Result<OutputData, IndicatorError> {
        proof {
            use_type_invariant(&*self);
        }
        let schema = ChaikinOscillatorParams {
            short_period: match decode_usize(params, "short_period", default_short_period()) {
                Ok(p) => p,
                Err(m) => {
                    return Err(IndicatorError::InvalidParameters(m));
                },
            },
            long_period: match decode_usize(params, "long_period", default_long_period()) {
                Ok(p) => p,
                Err(m) => {
                    return Err(IndicatorError::InvalidParameters(m));
                },
            },
        };
        let short_period: usize = schema.short_period;
        let long_period: usize = schema.long_period;
        let mut vp = Params::empty();
        vp.set("short_period", usize_value(short_period));
        vp.set("long_period", usize_value(long_period));
        match self.validator.validate(data, &vp) {
            Err(e) => {
                return Err(e);
            },
            Ok(u) => {},
        }
        proof {
            assert("short_period"@ != "long_period"@) by {
                reveal_strlit("short_period");
                reveal_strlit("long_period");
                assert("short_period"@.len() == 12);
                assert("long_period"@.len() == 11);
            }
            let rules = spec_adosc_rules();
            let vp_m = spec_adosc_params_map(short_period, long_period);
            assert(vp@ == vp_m);
            assert(rules.len() == 7);
            let r1 = rules.skip(1);
            let r2 = r1.skip(1);
            let r3 = r2.skip(1);
            let r4 = r3.skip(1);
            let r5 = r4.skip(1);
            let r6 = r5.skip(1);
            assert(r1[0] == rules[1]);
            assert(r2[0] == rules[2]);
            assert(r3[0] == rules[3]);
            assert(r4[0] == rules[4]);
            assert(r5[0] == rules[5]);
            assert(r6[0] == rules[6]);
            assert(r6.skip(1).len() == 0);
            assert(spec_rules_error(rules, vp_m, *data) is None);
            assert(spec_rule_error(rules[0], vp_m, *data) is None);
            assert(spec_rules_error(r1, vp_m, *data) is None);
            assert(spec_rule_error(rules[1], vp_m, *data) is None);
            assert(spec_rules_error(r2, vp_m, *data) is None);
            assert(spec_rule_error(rules[2], vp_m, *data) is None);
            assert(spec_rules_error(r3, vp_m, *data) is None);
            assert(spec_rule_error(rules[3], vp_m, *data) is None);
            assert(spec_rules_error(r4, vp_m, *data) is None);
            assert(spec_rule_error(rules[4], vp_m, *data) is None);
            assert(spec_rules_error(r5, vp_m, *data) is None);
            assert(spec_rule_error(rules[5], vp_m, *data) is None);
            assert(spec_rules_error(r6, vp_m, *data) is None);
            assert(spec_rule_error(rules[6], vp_m, *data) is None);
            lemma_all_present(spec_adosc_fields(), *data);
            assert(spec_adosc_fields()[0] == BarField::HIGH);
            assert(spec_adosc_fields()[1] == BarField::LOW);
            assert(spec_adosc_fields()[2] == BarField::CLOSE);
            assert(spec_adosc_fields()[3] == BarField::VOLUME);
            assert(spec_field(*data, BarField::HIGH) is Some);
            assert(spec_field(*data, BarField::LOW) is Some);
            assert(spec_field(*data, BarField::CLOSE) is Some);
            assert(spec_field(*data, BarField::VOLUME) is Some);
        }
        let high = data.get_by_bar_field(&BarField::HIGH).unwrap();
        let low = data.get_by_bar_field(&BarField::LOW).unwrap();
        let close = data.get_by_bar_field(&BarField::CLOSE).unwrap();
        let volume = data.get_by_bar_field(&BarField::VOLUME).unwrap();
        let length: usize = high.len();
        assert(1 <= short_period && short_period < long_period && long_period <= length);
        let adl = match calculate_adl(high, low, close, volume) {
            Ok(v) => v,
            Err(e) => {
                return Err(e);
            },
        };
        let short_ema = match calculate_ema(&adl, short_period) {
            Ok(v) => v,
            Err(e) => {
                proof {
                    assert(false);
                }
                return Err(e);
            },
        };
        let long_ema = match calculate_ema(&adl, long_period) {
            Ok(v) => v,
            Err(e) => {
                proof {
                    assert(false);
                }
                return Err(e);
            },
        };
        let mut oscillator_values: Vec<u64> = Vec::new();
        let mut i: usize = 0;
        while i < length
            invariant
                i <= length,
                length == adl@.len(),
                long_period >= 1,
                short_ema@.len() == length,
                long_ema@.len() == length,
                forall|j: int|
                    0 <= j < length ==> short_ema@[j] == spec_ema_zero_at(
                        adl@,
                        short_period as int,
                        j,
                    ),
                forall|j: int|
                    0 <= j < length ==> long_ema@[j] == spec_ema_zero_at(
                        adl@,
                        long_period as int,
                        j,
                    ),
                oscillator_values@.len() == i,
                forall|j: int|
                    0 <= j < i ==> oscillator_values@[j] == spec_adosc_at(
                        adl@,
                        short_period as int,
                        long_period as int,
                        j,
                    ),
            decreases length - i,
        {
            if i < long_period - 1 {
                oscillator_values.push(NAN_BITS);
            } else {
                oscillator_values.push(num::sub(short_ema[i], long_ema[i]));
            }
            i = i + 1;
        }
        proof {
            let h = spec_field(*data, BarField::HIGH)->Some_0;
            let l = spec_field(*data, BarField::LOW)->Some_0;
            let c = spec_field(*data, BarField::CLOSE)->Some_0;
            let v = spec_field(*data, BarField::VOLUME)->Some_0;
            let adl_s = Seq::new(h.len(), |i: int| spec_adl_at(h, l, c, v, i));
            assert(adl@ =~= adl_s);
            assert(oscillator_values@ =~= Seq::new(
                h.len(),
                |i: int| spec_adosc_at(adl_s, short_period as int, long_period as int, i),
            ));
        }
        Ok(OutputData::SingleSeries(oscillator_values))
    }
}

} // verus!
