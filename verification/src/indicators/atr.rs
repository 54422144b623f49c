//! Average true range: true range per bar, seeded at position `period - 1`
//! with the mean of the first `period` true-range values, then Wilder's
//! running average. Warm-up horizon: `period - 1`.

use vstd::prelude::*;
use std::collections::HashSet;
use crate::ieee::{f64_of_u64, spec_f64_of_u64, NAN_BITS};
use crate::indicators::utils::{calculate_true_range, spec_mean_prefix, spec_sum_prefix, spec_true_range_at};
use crate::models::data::{spec_field, BarField, InputData, OutputData};
use crate::models::groups::{
    CalculationMethodology, ComplexityLevel, DataInputType, Group, MarketSuitability,
    MathematicalBasis, OutputFormat, SignalInterpretation, SignalType, SmoothingTechnique,
    TimeframeFocus, TradingStrategySuitability, UseCase,
};
use crate::models::indicator::{Indicator, IndicatorError, OutputV, SpecError};
use crate::num;
use crate::num::{add_bits, div_bits, mul_bits, sub_bits};
use crate::params::{decode_usize, spec_decode_usize, spec_usize_value, usize_value, ParamValue, Params};
use crate::validation::validator::{
    lemma_all_present, spec_rule_error, spec_rules_error, spec_validate, ParamRule, Validator,
};

verus! {

/// The decoded parameter schema.
pub struct ATRParams {
    pub period: usize,
}

pub fn default_period() -> (p: usize)
    ensures
        p == 14,
{
    14
}

pub struct ATR {
    groups: HashSet<Group>,
    validator: Validator,
}

pub open spec fn spec_atr_fields() -> Seq<BarField> {
    seq![BarField::HIGH, BarField::LOW, BarField::CLOSE]
}

pub open spec fn spec_atr_rules() -> Seq<ParamRule> {
    seq![
        ParamRule::Required("period"),
        ParamRule::PositiveInteger("period"),
        ParamRule::WithinDataLength { param: "period", field: BarField::HIGH },
    ]
}

fn create_validator() -> (v: Validator)
    ensures
        v.spec_fields() == spec_atr_fields(),
        v.spec_rules() == spec_atr_rules(),
{
    let fields = vec![BarField::HIGH, BarField::LOW, BarField::CLOSE];
    let rules = vec![
        ParamRule::Required("period"),
        ParamRule::PositiveInteger("period"),
        ParamRule::WithinDataLength { param: "period", field: BarField::HIGH },
    ];
    proof {
        assert(fields@ =~= spec_atr_fields());
        assert(rules@ =~= spec_atr_rules());
    }
    Validator::new(fields, rules)
}

pub fn create_groups() -> HashSet<Group> {
    let mut groups = HashSet::new();
    groups.insert(Group::UseCase(UseCase::VolatilityMeasurement));
    groups.insert(Group::MathematicalBasis(MathematicalBasis::Averaging));
    groups.insert(Group::MathematicalBasis(MathematicalBasis::StatisticalMethods));
    groups.insert(Group::DataInputType(DataInputType::PriceBased));
    groups.insert(Group::SignalType(SignalType::Lagging));
    groups.insert(Group::OutputFormat(OutputFormat::SingleLine));
    groups.insert(Group::OutputFormat(OutputFormat::Absolute));
    groups.insert(Group::TimeframeFocus(TimeframeFocus::Short));
    groups.insert(Group::TimeframeFocus(TimeframeFocus::Medium));
    groups.insert(Group::ComplexityLevel(ComplexityLevel::Basic));
    groups.insert(Group::MarketSuitability(MarketSuitability::Trending));
    groups.insert(Group::MarketSuitability(MarketSuitability::RangeBound));
    groups.insert(Group::MarketSuitability(MarketSuitability::Volatile));
    groups.insert(Group::TradingStrategySuitability(TradingStrategySuitability::Intraday));
    groups.insert(Group::TradingStrategySuitability(TradingStrategySuitability::Swing));
    groups.insert(Group::SmoothingTechnique(SmoothingTechnique::Exponential));
    groups.insert(Group::CalculationMethodology(CalculationMethodology::Statistical));
    groups.insert(Group::SignalInterpretation(SignalInterpretation::ThresholdLevels));
    groups
}

/// The parameter mapping the decoded schema denotes: a value too wide for a
/// signed integer no longer reads as one.
pub open spec fn spec_atr_params_map(period: usize) -> Map<Seq<char>, ParamValue> {
    Map::empty().insert("period"@, spec_usize_value(period))
}

/// The running-average recurrence over a true-range series: NaN below the
/// seed position, the mean of the first `p` values there, then
/// `(prev * (p - 1) + tr[i]) / p`.
pub open spec fn spec_atr_rec(tr: Seq<u64>, p: int, i: int) -> u64
    decreases i,
{
    if p < 1 {
        NAN_BITS
    } else if i < p - 1 {
        NAN_BITS
    } else if i == p - 1 {
        spec_mean_prefix(tr, p)
    } else {
        let prev = spec_atr_rec(tr, p, i - 1);
        let pbits = spec_f64_of_u64(p as u64);
        div_bits(add_bits(mul_bits(prev, sub_bits(pbits, spec_f64_of_u64(1))), tr[i]), pbits)
    }
}

/// The whole average-true-range run: schema decoding, then validation, then one
/// output series exactly as long as the input with a NaN warm-up prefix of
/// `period - 1`.
pub open spec fn spec_atr_calc(d: InputData, pm: Map<Seq<char>, ParamValue>) -> Result<
    OutputV,
    SpecError,
> {
    match spec_decode_usize(pm, "period"@, 14) {
        Result::Err(m) => Result::Err(SpecError::Params(m)),
        Result::Ok(period) => {
            let vp = spec_atr_params_map(period);
            match spec_validate(spec_atr_fields(), spec_atr_rules(), vp, d) {
                Option::Some(e) => Result::Err(e),
                Option::None => {
                    let h = spec_field(d, BarField::HIGH)->Some_0;
                    let l = spec_field(d, BarField::LOW)->Some_0;
                    let c = spec_field(d, BarField::CLOSE)->Some_0;
                    let tr = Seq::new(h.len(), |i: int| spec_true_range_at(h, l, c, i));
                    Result::Ok(
                        OutputV::Single(
                            Seq::new(h.len(), |i: int| spec_atr_rec(tr, period as int, i)),
                        ),
                    )
                },
            }
        },
    }
}

impl ATR {
    #[verifier::type_invariant]
    spec fn wf(self) -> bool {
        &&& self.validator.spec_fields() == spec_atr_fields()
        &&& self.validator.spec_rules() == spec_atr_rules()
    }

    pub fn new() -> Self {
        let groups = create_groups();
        let validator = create_validator();
        Self { groups, validator }
    }
}

impl Indicator for ATR {
    open spec fn calc_spec(&self, data: InputData, params: Params) -> Result<OutputV, SpecError> {
        spec_atr_calc(data, params@)
    }

    fn short_name(&self) -> &'static str {
        "ATR"
    }

    fn name(&self) -> &'static str {
        "Average True Range"
    }

    fn get_groups(&self) -> &HashSet<Group> {
        &self.groups
    }

    fn calculate(&self, data: &InputData, params: &Params) -> Result<OutputData, IndicatorError> {
        proof {
            use_type_invariant(&*self);
        }
        let schema = ATRParams {
            period: match decode_usize(params, "period", default_period()) {
                Ok(p) => p,
                Err(m) => {
                    return Err(IndicatorError::InvalidParameters(m));
                },
            },
        };
        let period: usize = schema.period;
        let mut vp = Params::empty();
        vp.set("period", usize_value(period));
        match self.validator.validate(data, &vp) {
            Err(e) => {
                return Err(e);
            },
            Ok(u) => {},
        }
        proof {
            let rules = spec_atr_rules();
            let vp_m = spec_atr_params_map(period);
            assert(vp@ == vp_m);
            assert(rules.len() == 3);
            assert(rules.skip(1)[0] == rules[1]);
            assert(rules.skip(1).skip(1)[0] == rules[2]);
            assert(rules.skip(1).skip(1).skip(1).len() == 0);
            assert(spec_rules_error(rules, vp_m, *data) is None);
            assert(spec_rule_error(rules[0], vp_m, *data) is None);
            assert(spec_rules_error(rules.skip(1), vp_m, *data) is None);
            assert(spec_rule_error(rules[1], vp_m, *data) is None);
            assert(spec_rules_error(rules.skip(1).skip(1), vp_m, *data) is None);
            assert(spec_rule_error(rules[2], vp_m, *data) is None);
            lemma_all_present(spec_atr_fields(), *data);
            assert(spec_atr_fields()[0] == BarField::HIGH);
            assert(spec_atr_fields()[1] == BarField::LOW);
            assert(spec_atr_fields()[2] == BarField::CLOSE);
            assert(spec_field(*data, BarField::HIGH) is Some);
            assert(spec_field(*data, BarField::LOW) is Some);
            assert(spec_field(*data, BarField::CLOSE) is Some);
        }
        let high = data.get_by_bar_field(&BarField::HIGH).unwrap();
        let low = data.get_by_bar_field(&BarField::LOW).unwrap();
        let close = data.get_by_bar_field(&BarField::CLOSE).unwrap();
        let length: usize = high.len();
        assert(1 <= period && period <= length);
        let tr = match calculate_true_range(high, low, close) {
            Ok(v) => v,
            Err(e) => {
                return Err(e);
            },
        };
        let ghost tr_spec = Seq::new(high@.len(), |i: int| spec_true_range_at(high@, low@, close@, i));
        proof {
            assert(tr@ =~= tr_spec);
        }
        let mut atr: Vec<u64> = Vec::new();
        let mut i: usize = 0;
        while i < period - 1
            invariant
                period >= 1,
                i <= period - 1,
                atr@.len() == i,
                forall|j: int| 0 <= j < i ==> atr@[j] == NAN_BITS,
            decreases period - 1 - i,
        {
            atr.push(NAN_BITS);
            i = i + 1;
        }
        let mut sum: u64 = crate::ieee::ZERO_BITS;
        let mut k: usize = 0;
        while k < period
            invariant
                k <= period,
                period <= tr@.len(),
                sum == spec_sum_prefix(tr@, k as int),
            decreases period - k,
        {
            sum = num::add(sum, tr[k]);
            k = k + 1;
        }
        let pbits: u64 = f64_of_u64(period as u64);
        atr.push(num::div(sum, pbits));
        assert(forall|j: int| 0 <= j < period ==> atr@[j] == spec_atr_rec(tr@, period as int, j));
        let pm1: u64 = num::sub(pbits, f64_of_u64(1));
        let mut i2: usize = period;
        while i2 < length
            invariant
                period >= 1,
                period <= i2 <= length,
                length == tr@.len(),
                pbits == spec_f64_of_u64(period as u64),
                pm1 == sub_bits(pbits, spec_f64_of_u64(1)),
                atr@.len() == i2,
                forall|j: int| 0 <= j < i2 ==> atr@[j] == spec_atr_rec(tr@, period as int, j),
            decreases length - i2,
        {
            let prev: u64 = atr[i2 - 1];
            atr.push(num::div(num::add(num::mul(prev, pm1), tr[i2]), pbits));
            i2 = i2 + 1;
        }
        proof {
            let h = spec_field(*data, BarField::HIGH)->Some_0;
            assert(atr@ =~= Seq::new(h.len(), |i: int| spec_atr_rec(tr_spec, period as int, i)));
        }
        Ok(OutputData::SingleSeries(atr))
    }
}

} // verus!
