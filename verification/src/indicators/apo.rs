//! Absolute price oscillator: the fast exponential average of the closes
//! minus the slow one. Warm-up horizon: `slow_period - 1`.

use vstd::prelude::*;
use std::collections::HashSet;
use crate::ieee::NAN_BITS;
use crate::indicators::utils::{exponential_moving_average, spec_ema_nan_at};
use crate::models::data::{spec_field, BarField, InputData, OutputData};
use crate::models::groups::{
    CalculationMethodology, ComplexityLevel, DataInputType, Group, MarketSuitability,
    MathematicalBasis, OutputFormat, SignalInterpretation, SignalType, SmoothingTechnique,
    TimeframeFocus, TradingStrategySuitability, UseCase,
};
use crate::models::indicator::{Indicator, IndicatorError, OutputV, SpecError};
use crate::num;
use crate::num::sub_bits;
use crate::params::{
    decode_usize, spec_decode_usize, spec_usize_value, usize_value, ParamValue, Params,
};
use crate::validation::validator::{
    lemma_all_present, spec_rule_error, spec_rules_error, spec_validate, ParamRule, Validator,
};

verus! {

/// The decoded parameter schema.
pub struct APOParams {
    pub fast_period: usize,
    pub slow_period: usize,
}

pub fn default_fast_period() -> (p: usize)
    ensures
        p == 12,
{
    12
}

pub fn default_slow_period() -> (p: usize)
    ensures
        p == 26,
{
    26
}

pub struct APO {
    groups: HashSet<Group>,
    validator: Validator,
}

pub open spec fn spec_apo_fields() -> Seq<BarField> {
    seq![BarField::CLOSE]
}

pub open spec fn spec_apo_rules() -> Seq<ParamRule> {
    seq![
        ParamRule::Required("fast_period"),
        ParamRule::Required("slow_period"),
        ParamRule::PositiveInteger("fast_period"),
        ParamRule::PositiveInteger("slow_period"),
        ParamRule::CorrectPeriod { left: "fast_period", right: "slow_period" },
        ParamRule::WithinDataLength { param: "fast_period", field: BarField::CLOSE },
        ParamRule::WithinDataLength { param: "slow_period", field: BarField::CLOSE },
    ]
}

fn create_validator() -> (v: Validator)
    ensures
        v.spec_fields() == spec_apo_fields(),
        v.spec_rules() == spec_apo_rules(),
{
    let fields = vec![BarField::CLOSE];
    let rules = vec![
        ParamRule::Required("fast_period"),
        ParamRule::Required("slow_period"),
        ParamRule::PositiveInteger("fast_period"),
        ParamRule::PositiveInteger("slow_period"),
        ParamRule::CorrectPeriod { left: "fast_period", right: "slow_period" },
        ParamRule::WithinDataLength { param: "fast_period", field: BarField::CLOSE },
        ParamRule::WithinDataLength { param: "slow_period", field: BarField::CLOSE },
    ];
    proof {
        assert(fields@ =~= spec_apo_fields());
        assert(rules@ =~= spec_apo_rules());
    }
    Validator::new(fields, rules)
}

pub fn create_groups() -> HashSet<Group> {
    let mut groups = HashSet::new();
    groups.insert(Group::UseCase(UseCase::MomentumDetection));
    groups.insert(Group::UseCase(UseCase::TrendIdentification));
    groups.insert(Group::MathematicalBasis(MathematicalBasis::Differentiation));
    groups.insert(Group::MathematicalBasis(MathematicalBasis::Oscillation));
    groups.insert(Group::DataInputType(DataInputType::PriceBased));
    groups.insert(Group::SignalType(SignalType::Lagging));
    groups.insert(Group::OutputFormat(OutputFormat::SingleLine));
    groups.insert(Group::TimeframeFocus(TimeframeFocus::Short));
    groups.insert(Group::TimeframeFocus(TimeframeFocus::Medium));
    groups.insert(Group::ComplexityLevel(ComplexityLevel::Basic));
    groups.insert(Group::MarketSuitability(MarketSuitability::Trending));
    groups.insert(Group::MarketSuitability(MarketSuitability::RangeBound));
    groups.insert(Group::TradingStrategySuitability(TradingStrategySuitability::Intraday));
    groups.insert(Group::TradingStrategySuitability(TradingStrategySuitability::Swing));
    groups.insert(Group::SmoothingTechnique(SmoothingTechnique::Exponential));
    groups.insert(Group::CalculationMethodology(CalculationMethodology::Differential));
    groups.insert(Group::SignalInterpretation(SignalInterpretation::Crossovers));
    groups
}

/// The parameter mapping the decoded schema denotes.
pub open spec fn spec_apo_params_map(fast: usize, slow: usize) -> Map<Seq<char>, ParamValue> {
    Map::empty().insert("fast_period"@, spec_usize_value(fast)).insert(
        "slow_period"@,
        spec_usize_value(slow),
    )
}

/// The oscillator value at one bar: NaN inside the warm-up horizon of the
/// slow average, afterwards the fast average minus the slow one.
pub open spec fn spec_apo_at(c: Seq<u64>, fast: int, slow: int, i: int) -> u64 {
    if i < slow - 1 {
        NAN_BITS
    } else {
        sub_bits(spec_ema_nan_at(c, fast, i), spec_ema_nan_at(c, slow, i))
    }
}

/// The whole oscillator run: schema decoding, then validation, then one output
/// series exactly as long as the input.
pub open spec fn spec_apo_calc(d: InputData, pm: Map<Seq<char>, ParamValue>) -> Result<
    OutputV,
    SpecError,
> {
    match spec_decode_usize(pm, "fast_period"@, 12) {
        Result::Err(m) => Result::Err(SpecError::Params(m)),
        Result::Ok(fast) => match spec_decode_usize(pm, "slow_period"@, 26) {
            Result::Err(m) => Result::Err(SpecError::Params(m)),
            Result::Ok(slow) => {
                let vp = spec_apo_params_map(fast, slow);
                match spec_validate(spec_apo_fields(), spec_apo_rules(), vp, d) {
                    Option::Some(e) => Result::Err(e),
                    Option::None => {
                        let c = spec_field(d, BarField::CLOSE)->Some_0;
                        Result::Ok(
                            OutputV::Single(
                                Seq::new(
                                    c.len(),
                                    |i: int| spec_apo_at(c, fast as int, slow as int, i),
                                ),
                            ),
                        )
                    },
                }
            },
        },
    }
}

impl APO {
    #[verifier::type_invariant]
    spec fn wf(self) -> bool {
        &&& self.validator.spec_fields() == spec_apo_fields()
        &&& self.validator.spec_rules() == spec_apo_rules()
    }

    pub fn new() -> Self {
        let groups = create_groups();
        let validator = create_validator();
        APO { groups, validator }
    }
}

impl Indicator for APO {
    open spec fn calc_spec(&self, data: InputData, params: Params) -> Result<OutputV, SpecError> {
        spec_apo_calc(data, params@)
    }

    fn short_name(&self) -> &'static str {
        "APO"
    }

    fn name(&self) -> &'static str {
        "Absolute Price Oscillator"
    }

    fn get_groups(&self) -> &HashSet<Group> {
        &self.groups
    }

    fn calculate(&self, data: &InputData, params: &Params) -> Result<OutputData, IndicatorError> {
        proof {
            use_type_invariant(&*self);
        }
        let schema = APOParams {
            fast_period: match decode_usize(params, "fast_period", default_fast_period()) {
                Ok(p) => p,
                Err(m) => {
                    return Err(IndicatorError::InvalidParameters(m));
                },
            },
            slow_period: match decode_usize(params, "slow_period", default_slow_period()) {
                Ok(p) => p,
                Err(m) => {
                    return Err(IndicatorError::InvalidParameters(m));
                },
            },
        };
        let fast_period: usize = schema.fast_period;
        let slow_period: usize = schema.slow_period;
        let mut vp = Params::empty();
        vp.set("fast_period", usize_value(fast_period));
        vp.set("slow_period", usize_value(slow_period));
        match self.validator.validate(data, &vp) {
            Err(e) => {
                return Err(e);
            },
            Ok(u) => {},
        }
        proof {
            assert("fast_period"@ != "slow_period"@) by {
                reveal_strlit("fast_period");
                reveal_strlit("slow_period");
                assert("fast_period"@[0] == 'f');
                assert("slow_period"@[0] == 's');
            }
            let rules = spec_apo_rules();
            let vp_m = spec_apo_params_map(fast_period, slow_period);
            assert(vp@ == vp_m);
            assert(rules.len() == 7);
            let r1 = rules.skip(1);
            let r2 = r1.skip(1);
            let r3 = r2.skip(1);
            let r4 = r3.skip(1);
            let r5 = r4.skip(1);
            let r6 = r5.skip(1);
            assert(r1[0] == rules[1]);
            assert(r2[0] == rules[2]);
            assert(r3[0] == rules[3]);
            assert(r4[0] == rules[4]);
            assert(r5[0] == rules[5]);
            assert(r6[0] == rules[6]);
            assert(r6.skip(1).len() == 0);
            assert(spec_rules_error(rules, vp_m, *data) is None);
            assert(spec_rule_error(rules[0], vp_m, *data) is None);
            assert(spec_rules_error(r1, vp_m, *data) is None);
            assert(spec_rule_error(rules[1], vp_m, *data) is None);
            assert(spec_rules_error(r2, vp_m, *data) is None);
            assert(spec_rule_error(rules[2], vp_m, *data) is None);
            assert(spec_rules_error(r3, vp_m, *data) is None);
            assert(spec_rule_error(rules[3], vp_m, *data) is None);
            assert(spec_rules_error(r4, vp_m, *data) is None);
            assert(spec_rule_error(rules[4], vp_m, *data) is None);
            assert(spec_rules_error(r5, vp_m, *data) is None);
            assert(spec_rule_error(rules[5], vp_m, *data) is None);
            assert(spec_rules_error(r6, vp_m, *data) is None);
            assert(spec_rule_error(rules[6], vp_m, *data) is None);
            lemma_all_present(spec_apo_fields(), *data);
            assert(spec_apo_fields()[0] == BarField::CLOSE);
            assert(spec_field(*data, BarField::CLOSE) is Some);
        }
        let close = data.get_by_bar_field(&BarField::CLOSE).unwrap();
        let length: usize = close.len();
        assert(1 <= fast_period && fast_period < slow_period && slow_period <= length);
        let fast_ema = exponential_moving_average(close, fast_period);
        let slow_ema = exponential_moving_average(close, slow_period);
        let mut apo_values: Vec<u64> = Vec::new();
        let mut i: usize = 0;
        while i < length
            invariant
                i <= length,
                slow_period >= 1,
                length == close@.len(),
                fast_ema@.len() == length,
                slow_ema@.len() == length,
                forall|j: int|
                    0 <= j < length ==> fast_ema@[j] == spec_ema_nan_at(
                        close@,
                        fast_period as int,
                        j,
                    ),
                forall|j: int|
                    0 <= j < length ==> slow_ema@[j] == spec_ema_nan_at(
                        close@,
                        slow_period as int,
                        j,
                    ),
                apo_values@.len() == i,
                forall|j: int|
                    0 <= j < i ==> apo_values@[j] == spec_apo_at(
                        close@,
                        fast_period as int,
                        slow_period as int,
                        j,
                    ),
            decreases length - i,
        {
            if i < slow_period - 1 {
                apo_values.push(NAN_BITS);
            } else {
                apo_values.push(num::sub(fast_ema[i], slow_ema[i]));
            }
            i = i + 1;
        }
        proof {
            let c = spec_field(*data, BarField::CLOSE)->Some_0;
            assert(apo_values@ =~= Seq::new(
                c.len(),
                |i: int| spec_apo_at(c, fast_period as int, slow_period as int, i),
            ));
        }
        Ok(OutputData::SingleSeries(apo_values))
    }
}

} // verus!
