//! Aroon: for each window of `period` bars, how recently the highest high
//! and the lowest low occurred, scaled to a percentage. Warm-up horizon:
//! `period - 1`.

use vstd::prelude::*;
use std::collections::HashSet;
use vstd::string::StringExecFns;
use crate::ieee::{f64_of_u64, gt, lt, spec_f64_of_u64, spec_gt, spec_lt, NAN_BITS};
use crate::models::data::{spec_field, BarField, InputData, OutputData};
use crate::models::groups::{
    CalculationMethodology, ComplexityLevel, DataInputType, Group, MarketSuitability,
    MathematicalBasis, OutputFormat, SignalInterpretation, SignalType, SmoothingTechnique,
    TimeframeFocus, TradingStrategySuitability, UseCase,
};
use crate::models::indicator::{Indicator, IndicatorError, OutputV, SpecError};
use crate::num;
use crate::num::{div_bits, mul_bits};
use crate::params::{
    decode_usize, spec_decode_usize, spec_usize_value, usize_value, ParamValue, Params,
};
use crate::validation::validator::{
    lemma_all_present, spec_rule_error, spec_rules_error, spec_validate, ParamRule, Validator,
};

verus! {

/// The decoded parameter schema.
pub struct AROONParams {
    pub period: usize,
}

pub fn default_period() -> (p: usize)
    ensures
        p == 14,
{
    14
}

pub struct AROON {
    groups: HashSet<Group>,
    validator: Validator,
}

pub open spec fn spec_aroon_fields() -> Seq<BarField> {
    seq![BarField::HIGH, BarField::LOW]
}

pub open spec fn spec_aroon_rules() -> Seq<ParamRule> {
    seq![
        ParamRule::Required("period"),
        ParamRule::PositiveInteger("period"),
        ParamRule::WithinDataLength { param: "period", field: BarField::HIGH },
        ParamRule::WithinDataLength { param: "period", field: BarField::LOW },
    ]
}

fn create_validator() -> (v: Validator)
    ensures
        v.spec_fields() == spec_aroon_fields(),
        v.spec_rules() == spec_aroon_rules(),
{
    let fields = vec![BarField::HIGH, BarField::LOW];
    let rules = vec![
        ParamRule::Required("period"),
        ParamRule::PositiveInteger("period"),
        ParamRule::WithinDataLength { param: "period", field: BarField::HIGH },
        ParamRule::WithinDataLength { param: "period", field: BarField::LOW },
    ];
    proof {
        assert(fields@ =~= spec_aroon_fields());
        assert(rules@ =~= spec_aroon_rules());
    }
    Validator::new(fields, rules)
}

pub fn create_groups() -> HashSet<Group> {
    let mut groups = HashSet::new();
    groups.insert(Group::UseCase(UseCase::TrendIdentification));
    groups.insert(Group::UseCase(UseCase::MomentumDetection));
    groups.insert(Group::MathematicalBasis(MathematicalBasis::Oscillation));
    groups.insert(Group::MathematicalBasis(MathematicalBasis::StatisticalMethods));
    groups.insert(Group::DataInputType(DataInputType::PriceBased));
    groups.insert(Group::SignalType(SignalType::Leading));
    groups.insert(Group::OutputFormat(OutputFormat::MultiLine));
    groups.insert(Group::OutputFormat(OutputFormat::Percentage));
    groups.insert(Group::TimeframeFocus(TimeframeFocus::Short));
    groups.insert(Group::TimeframeFocus(TimeframeFocus::Medium));
    groups.insert(Group::ComplexityLevel(ComplexityLevel::Basic));
    groups.insert(Group::MarketSuitability(MarketSuitability::Trending));
    groups.insert(Group::TradingStrategySuitability(TradingStrategySuitability::Intraday));
    groups.insert(Group::TradingStrategySuitability(TradingStrategySuitability::Swing));
    groups.insert(Group::SmoothingTechnique(SmoothingTechnique::Raw));
    groups.insert(Group::CalculationMethodology(CalculationMethodology::Statistical));
    groups.insert(Group::SignalInterpretation(SignalInterpretation::Crossovers));
    groups.insert(Group::SignalInterpretation(SignalInterpretation::ThresholdLevels));
    groups
}

/// The parameter mapping the decoded schema denotes.
pub open spec fn spec_aroon_params_map(period: usize) -> Map<Seq<char>, ParamValue> {
    Map::empty().insert("period"@, spec_usize_value(period))
}

/// Position of the first largest value in `s[start..end)`, scanning left to
/// right and keeping the incumbent on ties or unordered comparisons.
pub open spec fn spec_argmax(s: Seq<u64>, start: int, end: int) -> int
    decreases end - start,
{
    if end - start <= 1 {
        start
    } else {
        let b = spec_argmax(s, start, end - 1);
        if spec_gt(s[end - 1], s[b]) {
            end - 1
        } else {
            b
        }
    }
}

/// Position of the first smallest value in `s[start..end)`, scanning left to
/// right and keeping the incumbent on ties or unordered comparisons.
pub open spec fn spec_argmin(s: Seq<u64>, start: int, end: int) -> int
    decreases end - start,
{
    if end - start <= 1 {
        start
    } else {
        let b = spec_argmin(s, start, end - 1);
        if spec_lt(s[end - 1], s[b]) {
            end - 1
        } else {
            b
        }
    }
}

/// The upward value at one bar: NaN inside the warm-up, afterwards
/// `(1 + offset of the window's high) / period * 100`.
pub open spec fn spec_aroon_up_at(h: Seq<u64>, p: int, i: int) -> u64 {
    if i < p - 1 {
        NAN_BITS
    } else {
        let start = i + 1 - p;
        let rel = spec_argmax(h, start, i + 1) - start;
        mul_bits(
            div_bits(spec_f64_of_u64((rel + 1) as u64), spec_f64_of_u64(p as u64)),
            spec_f64_of_u64(100),
        )
    }
}

/// The downward value at one bar: NaN inside the warm-up, afterwards
/// `(1 + offset of the window's low) / period * 100`.
pub open spec fn spec_aroon_down_at(l: Seq<u64>, p: int, i: int) -> u64 {
    if i < p - 1 {
        NAN_BITS
    } else {
        let start = i + 1 - p;
        let rel = spec_argmin(l, start, i + 1) - start;
        mul_bits(
            div_bits(spec_f64_of_u64((rel + 1) as u64), spec_f64_of_u64(p as u64)),
            spec_f64_of_u64(100),
        )
    }
}

/// The whole run: schema decoding, then validation, then the two named output
/// series, each exactly as long as the input.
pub open spec fn spec_aroon_calc(d: InputData, pm: Map<Seq<char>, ParamValue>) -> Result<
    OutputV,
    SpecError,
> {
    match spec_decode_usize(pm, "period"@, 14) {
        Result::Err(m) => Result::Err(SpecError::Params(m)),
        Result::Ok(period) => {
            let vp = spec_aroon_params_map(period);
            match spec_validate(spec_aroon_fields(), spec_aroon_rules(), vp, d) {
                Option::Some(e) => Result::Err(e),
                Option::None => {
                    let h = spec_field(d, BarField::HIGH)->Some_0;
                    let l = spec_field(d, BarField::LOW)->Some_0;
                    Result::Ok(
                        OutputV::Multi(
                            seq![
                                (
                                    "aroon_up"@,
                                    Seq::new(
                                        h.len(),
                                        |i: int| spec_aroon_up_at(h, period as int, i),
                                    ),
                                ),
                                (
                                    "aroon_down"@,
                                    Seq::new(
                                        l.len(),
                                        |i: int| spec_aroon_down_at(l, period as int, i),
                                    ),
                                ),
                            ],
                        ),
                    )
                },
            }
        },
    }
}

impl AROON {
    #[verifier::type_invariant]
    spec fn wf(self) -> bool {
        &&& self.validator.spec_fields() == spec_aroon_fields()
        &&& self.validator.spec_rules() == spec_aroon_rules()
    }

    pub fn new() -> Self {
        let groups = create_groups();
        let validator = create_validator();
        Self { groups, validator }
    }
}

impl Indicator for AROON {
    open spec fn calc_spec(&self, data: InputData, params: Params) -> Result<OutputV, SpecError> {
        spec_aroon_calc(data, params@)
    }

    fn short_name(&self) -> &'static str {
        "AROON"
    }

    fn name(&self) -> &'static str {
        "Aroon"
    }

    fn get_groups(&self) -> &HashSet<Group> {
        &self.groups
    }

    fn calculate(&self, data: &InputData, params: &Params) -> Result<OutputData, IndicatorError> {
        proof {
            use_type_invariant(&*self);
        }
        let schema = AROONParams {
            period: match decode_usize(params, "period", default_period()) {
                Ok(p) => p,
                Err(m) => {
                    return Err(IndicatorError::InvalidParameters(m));
                },
            },
        };
        let period: usize = schema.period;
        let mut vp = Params::empty();
        vp.set("period", usize_value(period));
        match self.validator.validate(data, &vp) {
            Err(e) => {
                return Err(e);
            },
            Ok(u) => {},
        }
        proof {
            let rules = spec_aroon_rules();
            let vp_m = spec_aroon_params_map(period);
            assert(vp@ == vp_m);
            assert(rules.len() == 4);
            let r1 = rules.skip(1);
            let r2 = r1.skip(1);
            let r3 = r2.skip(1);
            assert(r1[0] == rules[1]);
            assert(r2[0] == rules[2]);
            assert(r3[0] == rules[3]);
            assert(r3.skip(1).len() == 0);
            assert(spec_rules_error(rules, vp_m, *data) is None);
            assert(spec_rule_error(rules[0], vp_m, *data) is None);
            assert(spec_rules_error(r1, vp_m, *data) is None);
            assert(spec_rule_error(rules[1], vp_m, *data) is None);
            assert(spec_rules_error(r2, vp_m, *data) is None);
            assert(spec_rule_error(rules[2], vp_m, *data) is None);
            assert(spec_rules_error(r3, vp_m, *data) is None);
            assert(spec_rule_error(rules[3], vp_m, *data) is None);
            lemma_all_present(spec_aroon_fields(), *data);
            assert(spec_aroon_fields()[0] == BarField::HIGH);
            assert(spec_aroon_fields()[1] == BarField::LOW);
            assert(spec_field(*data, BarField::HIGH) is Some);
            assert(spec_field(*data, BarField::LOW) is Some);
        }
        let high = data.get_by_bar_field(&BarField::HIGH).unwrap();
        let low = data.get_by_bar_field(&BarField::LOW).unwrap();
        let length: usize = high.len();
        assert(1 <= period && period <= length);
        let pbits: u64 = f64_of_u64(period as u64);
        let hundred: u64 = f64_of_u64(100);
        let mut up: Vec<u64> = Vec::new();
        let mut down: Vec<u64> = Vec::new();
        let mut i: usize = 0;
        while i < length
            invariant
                i <= length,
                1 <= period <= length,
                length == high@.len(),
                length == low@.len(),
                pbits == spec_f64_of_u64(period as u64),
                hundred == spec_f64_of_u64(100),
                up@.len() == i,
                down@.len() == i,
                forall|j: int| 0 <= j < i ==> up@[j] == spec_aroon_up_at(high@, period as int, j),
                forall|j: int|
                    0 <= j < i ==> down@[j] == spec_aroon_down_at(low@, period as int, j),
            decreases length - i,
        {
            if i < period - 1 {
                up.push(NAN_BITS);
                down.push(NAN_BITS);
            } else {
                let start: usize = i + 1 - period;
                let mut best_h: usize = start;
                let mut best_l: usize = start;
                let mut j: usize = start + 1;
                while j <= i
                    invariant
                        start < j <= i + 1,
                        i < length,
                        length == high@.len(),
                        length == low@.len(),
                        start <= best_h < j,
                        start <= best_l < j,
                        best_h == spec_argmax(high@, start as int, j as int),
                        best_l == spec_argmin(low@, start as int, j as int),
                    decreases i + 1 - j,
                {
                    if gt(high[j], high[best_h]) {
                        best_h = j;
                    }
                    if lt(low[j], low[best_l]) {
                        best_l = j;
                    }
                    j = j + 1;
                }
                let rel_h: usize = best_h - start;
                let rel_l: usize = best_l - start;
                up.push(num::mul(num::div(f64_of_u64((rel_h + 1) as u64), pbits), hundred));
                down.push(num::mul(num::div(f64_of_u64((rel_l + 1) as u64), pbits), hundred));
            }
            i = i + 1;
        }
        let mut output: Vec<(String, Vec<u64>)> = Vec::new();
        output.push((String::from_str("aroon_up"), up));
        output.push((String::from_str("aroon_down"), down));
        proof {
            let h = spec_field(*data, BarField::HIGH)->Some_0;
            let l = spec_field(*data, BarField::LOW)->Some_0;
            let up_s = Seq::new(h.len(), |i: int| spec_aroon_up_at(h, period as int, i));
            let down_s = Seq::new(l.len(), |i: int| spec_aroon_down_at(l, period as int, i));
            assert(output@[0].1@ =~= up_s);
            assert(output@[1].1@ =~= down_s);
            let mapped = output@.map_values(|p: (String, Vec<u64>)| (p.0@, p.1@));
            assert(mapped =~= seq![("aroon_up"@, up_s), ("aroon_down"@, down_s)]);
        }
        Ok(OutputData::MultiSeries(output))
    }
}

} // verus!
