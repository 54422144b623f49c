//! Bollinger bands: rolling mean and rolling population standard deviation
//! of the closes over a window, computed from prefix sums of the values and
//! their squares; the upper and lower bands sit a multiplier of the
//! deviation away from the mean. Warm-up horizon: `period - 1`.

use vstd::prelude::*;
use std::collections::HashSet;
use vstd::string::StringExecFns;
use crate::ieee::{f64_of_u64, spec_f64_of_u64, NAN_BITS};
use crate::indicators::utils::{cumulative_sum, spec_cumsum_at};
use crate::models::data::{spec_field, BarField, InputData, OutputData};
use crate::models::groups::{
    CalculationMethodology, ComplexityLevel, DataInputType, Group, MarketSuitability,
    MathematicalBasis, OutputFormat, SignalInterpretation, SignalType, SmoothingTechnique,
    TimeframeFocus, TradingStrategySuitability, UseCase,
};
use crate::models::indicator::{Indicator, IndicatorError, OutputV, SpecError};
use crate::num;
use crate::num::{add_bits, div_bits, mul_bits, sqrt_bits, sub_bits};
use crate::params::{
    decode_f64_bits, decode_usize, spec_decode_f64_bits, spec_decode_usize, spec_usize_value,
    usize_value, ParamValue, Params,
};
use crate::validation::validator::{
    lemma_all_present, spec_rule_error, spec_rules_error, spec_validate, ParamRule, Validator,
};

verus! {

/// The decoded parameter schema; the multiplier is a double bit pattern.
pub struct BBandsParams {
    pub period: usize,
    pub std_dev_multiplier: u64,
}

pub fn default_period() -> (p: usize)
    ensures
        p == 20,
{
    20
}

/// The default deviation multiplier: the encoding of two.
pub fn default_std_dev_multiplier() -> (bits: u64)
    ensures
        bits == spec_f64_of_u64(2),
{
    f64_of_u64(2)
}

pub struct BBands {
    groups: HashSet<Group>,
    validator: Validator,
}

pub open spec fn spec_bbands_fields() -> Seq<BarField> {
    seq![BarField::CLOSE]
}

pub open spec fn spec_bbands_rules() -> Seq<ParamRule> {
    seq![
        ParamRule::Required("period"),
        ParamRule::Required("std_dev_multiplier"),
        ParamRule::PositiveInteger("period"),
    ]
}

fn create_validator() -> (v: Validator)
    ensures
        v.spec_fields() == spec_bbands_fields(),
        v.spec_rules() == spec_bbands_rules(),
{
    let fields = vec![BarField::CLOSE];
    let rules = vec![
        ParamRule::Required("period"),
        ParamRule::Required("std_dev_multiplier"),
        ParamRule::PositiveInteger("period"),
    ];
    proof {
        assert(fields@ =~= spec_bbands_fields());
        assert(rules@ =~= spec_bbands_rules());
    }
    Validator::new(fields, rules)
}

pub fn create_groups() -> HashSet<Group> {
    let mut groups = HashSet::new();
    groups.insert(Group::UseCase(UseCase::VolatilityMeasurement));
    groups.insert(Group::UseCase(UseCase::TrendIdentification));
    groups.insert(Group::MathematicalBasis(MathematicalBasis::Averaging));
    groups.insert(Group::MathematicalBasis(MathematicalBasis::StatisticalMethods));
    groups.insert(Group::DataInputType(DataInputType::PriceBased));
    groups.insert(Group::SignalType(SignalType::Lagging));
    groups.insert(Group::OutputFormat(OutputFormat::Band));
    groups.insert(Group::OutputFormat(OutputFormat::Absolute));
    groups.insert(Group::TimeframeFocus(TimeframeFocus::Short));
    groups.insert(Group::TimeframeFocus(TimeframeFocus::Medium));
    groups.insert(Group::ComplexityLevel(ComplexityLevel::Intermediate));
    groups.insert(Group::MarketSuitability(MarketSuitability::Trending));
    groups.insert(Group::MarketSuitability(MarketSuitability::RangeBound));
    groups.insert(Group::MarketSuitability(MarketSuitability::Volatile));
    groups.insert(Group::TradingStrategySuitability(TradingStrategySuitability::Intraday));
    groups.insert(Group::TradingStrategySuitability(TradingStrategySuitability::Swing));
    groups.insert(Group::SmoothingTechnique(SmoothingTechnique::SimpleAverage));
    groups.insert(Group::CalculationMethodology(CalculationMethodology::Statistical));
    groups.insert(Group::SignalInterpretation(SignalInterpretation::ThresholdLevels));
    groups.insert(Group::SignalInterpretation(SignalInterpretation::Patterns));
    groups
}

/// The parameter mapping the decoded schema denotes.
pub open spec fn spec_bbands_params_map(period: usize, k: u64) -> Map<Seq<char>, ParamValue> {
    Map::empty().insert("period"@, spec_usize_value(period)).insert(
        "std_dev_multiplier"@,
        ParamValue::Num(k),
    )
}

/// The elementwise squares of a series.
pub open spec fn spec_squares(c: Seq<u64>) -> Seq<u64> {
    Seq::new(c.len(), |i: int| mul_bits(c[i], c[i]))
}

/// The window sum ending at `i`, read off the prefix sums.
pub open spec fn spec_window_sum(c: Seq<u64>, p: int, i: int) -> u64 {
    if i + 1 - p == 0 {
        spec_cumsum_at(c, i)
    } else {
        sub_bits(spec_cumsum_at(c, i), spec_cumsum_at(c, i - p))
    }
}

/// The rolling mean at `i`: the window sum divided by the window length.
pub open spec fn spec_bbands_mean(c: Seq<u64>, p: int, i: int) -> u64 {
    div_bits(spec_window_sum(c, p, i), spec_f64_of_u64(p as u64))
}

/// The rolling population standard deviation at `i`, from the window sums of
/// the values and their squares:
/// `sqrt((sum_sq - 2 * mean * sum + mean * mean * p) / p)`.
pub open spec fn spec_bbands_sd(c: Seq<u64>, p: int, i: int) -> u64 {
    let pbits = spec_f64_of_u64(p as u64);
    let sum = spec_window_sum(c, p, i);
    let sum_sq = spec_window_sum(spec_squares(c), p, i);
    let mean = spec_bbands_mean(c, p, i);
    let variance = div_bits(
        add_bits(
            sub_bits(sum_sq, mul_bits(mul_bits(spec_f64_of_u64(2), mean), sum)),
            mul_bits(mul_bits(mean, mean), pbits),
        ),
        pbits,
    );
    sqrt_bits(variance)
}

pub open spec fn spec_middle_at(c: Seq<u64>, p: int, i: int) -> u64 {
    if i < p - 1 {
        NAN_BITS
    } else {
        spec_bbands_mean(c, p, i)
    }
}

pub open spec fn spec_upper_at(c: Seq<u64>, p: int, k: u64, i: int) -> u64 {
    if i < p - 1 {
        NAN_BITS
    } else {
        add_bits(spec_bbands_mean(c, p, i), mul_bits(spec_bbands_sd(c, p, i), k))
    }
}

pub open spec fn spec_lower_at(c: Seq<u64>, p: int, k: u64, i: int) -> u64 {
    if i < p - 1 {
        NAN_BITS
    } else {
        sub_bits(spec_bbands_mean(c, p, i), mul_bits(spec_bbands_sd(c, p, i), k))
    }
}

/// The whole run: schema decoding, then validation, then the three named output
/// series, each exactly as long as the input.
pub open spec fn spec_bbands_calc(d: InputData, pm: Map<Seq<char>, ParamValue>) -> Result<
    OutputV,
    SpecError,
> {
    match spec_decode_usize(pm, "period"@, 20) {
        Result::Err(m) => Result::Err(SpecError::Params(m)),
        Result::Ok(period) => match spec_decode_f64_bits(
            pm,
            "std_dev_multiplier"@,
            spec_f64_of_u64(2),
        ) {
            Result::Err(m) => Result::Err(SpecError::Params(m)),
            Result::Ok(k) => {
                let vp = spec_bbands_params_map(period, k);
                match spec_validate(spec_bbands_fields(), spec_bbands_rules(), vp, d) {
                    Option::Some(e) => Result::Err(e),
                    Option::None => {
                        let c = spec_field(d, BarField::CLOSE)->Some_0;
                        let p = period as int;
                        Result::Ok(
                            OutputV::Multi(
                                seq![
                                    (
                                        "middle_band"@,
                                        Seq::new(c.len(), |i: int| spec_middle_at(c, p, i)),
                                    ),
                                    (
                                        "upper_band"@,
                                        Seq::new(c.len(), |i: int| spec_upper_at(c, p, k, i)),
                                    ),
                                    (
                                        "lower_band"@,
                                        Seq::new(c.len(), |i: int| spec_lower_at(c, p, k, i)),
                                    ),
                                ],
                            ),
                        )
                    },
                }
            },
        },
    }
}

impl BBands {
    #[verifier::type_invariant]
    spec fn wf(self) -> bool {
        &&& self.validator.spec_fields() == spec_bbands_fields()
        &&& self.validator.spec_rules() == spec_bbands_rules()
    }

    pub fn new() -> Self {
        let groups = create_groups();
        let validator = create_validator();
        Self { groups, validator }
    }
}

impl Indicator for BBands {
    open spec fn calc_spec(&self, data: InputData, params: Params) -> Result<OutputV, SpecError> {
        spec_bbands_calc(data, params@)
    }

    fn short_name(&self) -> &'static str {
        "BBANDS"
    }

    fn name(&self) -> &'static str {
        "Bollinger Bands"
    }

    fn get_groups(&self) -> &HashSet<Group> {
        &self.groups
    }

    fn calculate(&self, data: &InputData, params: &Params) -> Result<OutputData, IndicatorError> {
        proof {
            use_type_invariant(&*self);
        }
        let schema = BBandsParams {
            period: match decode_usize(params, "period", default_period()) {
                Ok(p) => p,
                Err(m) => {
                    return Err(IndicatorError::InvalidParameters(m));
                },
            },
            std_dev_multiplier: match decode_f64_bits(
                params,
                "std_dev_multiplier",
                default_std_dev_multiplier(),
            ) {
                Ok(k) => k,
                Err(m) => {
                    return Err(IndicatorError::InvalidParameters(m));
                },
            },
        };
        let period: usize = schema.period;
        let std_dev_multiplier: u64 = schema.std_dev_multiplier;
        let mut vp = Params::empty();
        vp.set("period", usize_value(period));
        vp.set("std_dev_multiplier", ParamValue::Num(std_dev_multiplier));
        match self.validator.validate(data, &vp) {
            Err(e) => {
                return Err(e);
            },
            Ok(u) => {},
        }
        proof {
            assert("period"@ != "std_dev_multiplier"@) by {
                reveal_strlit("period");
                reveal_strlit("std_dev_multiplier");
                assert("period"@.len() == 6);
                assert("std_dev_multiplier"@.len() == 18);
            }
            let rules = spec_bbands_rules();
            let vp_m = spec_bbands_params_map(period, std_dev_multiplier);
            assert(vp@ == vp_m);
            assert(rules.len() == 3);
            let r1 = rules.skip(1);
            let r2 = r1.skip(1);
            assert(r1[0] == rules[1]);
            assert(r2[0] == rules[2]);
            assert(r2.skip(1).len() == 0);
            assert(spec_rules_error(rules, vp_m, *data) is None);
            assert(spec_rule_error(rules[0], vp_m, *data) is None);
            assert(spec_rules_error(r1, vp_m, *data) is None);
            assert(spec_rule_error(rules[1], vp_m, *data) is None);
            assert(spec_rules_error(r2, vp_m, *data) is None);
            assert(spec_rule_error(rules[2], vp_m, *data) is None);
            lemma_all_present(spec_bbands_fields(), *data);
            assert(spec_bbands_fields()[0] == BarField::CLOSE);
            assert(spec_field(*data, BarField::CLOSE) is Some);
        }
        let close = data.get_by_bar_field(&BarField::CLOSE).unwrap();
        let length: usize = close.len();
        assert(period >= 1);
        let pbits: u64 = f64_of_u64(period as u64);
        let two: u64 = f64_of_u64(2);
        let mut close_sq: Vec<u64> = Vec::new();
        let mut i0: usize = 0;
        while i0 < length
            invariant
                i0 <= length,
                length == close@.len(),
                close_sq@.len() == i0,
                forall|j: int| 0 <= j < i0 ==> close_sq@[j] == mul_bits(close@[j], close@[j]),
            decreases length - i0,
        {
            close_sq.push(num::mul(close[i0], close[i0]));
            i0 = i0 + 1;
        }
        proof {
            assert(close_sq@ =~= spec_squares(close@));
        }
        let cumsum = cumulative_sum(close);
        let cumsum_sq = cumulative_sum(&close_sq);
        let mut ma: Vec<u64> = Vec::new();
        let mut sd: Vec<u64> = Vec::new();
        let mut upper: Vec<u64> = Vec::new();
        let mut lower: Vec<u64> = Vec::new();
        let mut i: usize = 0;
        while i < length
            invariant
                i <= length,
                1 <= period,
                length == close@.len(),
                cumsum@.len() == length,
                cumsum_sq@.len() == length,
                close_sq@ == spec_squares(close@),
                forall|j: int| 0 <= j < length ==> cumsum@[j] == spec_cumsum_at(close@, j),
                forall|j: int|
                    0 <= j < length ==> cumsum_sq@[j] == spec_cumsum_at(spec_squares(close@), j),
                pbits == spec_f64_of_u64(period as u64),
                two == spec_f64_of_u64(2),
                ma@.len() == i,
                sd@.len() == i,
                upper@.len() == i,
                lower@.len() == i,
                forall|j: int| 0 <= j < i ==> ma@[j] == spec_middle_at(close@, period as int, j),
                forall|j: int|
                    0 <= j < i ==> upper@[j] == spec_upper_at(
                        close@,
                        period as int,
                        std_dev_multiplier,
                        j,
                    ),
                forall|j: int|
                    0 <= j < i ==> lower@[j] == spec_lower_at(
                        close@,
                        period as int,
                        std_dev_multiplier,
                        j,
                    ),
            decreases length - i,
        {
            if i < period - 1 {
                ma.push(NAN_BITS);
                sd.push(NAN_BITS);
                upper.push(NAN_BITS);
                lower.push(NAN_BITS);
            } else {
                let start: usize = i + 1 - period;
                let sum: u64 = if start == 0 {
                    cumsum[i]
                } else {
                    num::sub(cumsum[i], cumsum[start - 1])
                };
                let sum_sq: u64 = if start == 0 {
                    cumsum_sq[i]
                } else {
                    num::sub(cumsum_sq[i], cumsum_sq[start - 1])
                };
                let mean: u64 = num::div(sum, pbits);
                let variance: u64 = num::div(
                    num::add(
                        num::sub(sum_sq, num::mul(num::mul(two, mean), sum)),
                        num::mul(num::mul(mean, mean), pbits),
                    ),
                    pbits,
                );
                let std_dev: u64 = num::sqrt(variance);
                ma.push(mean);
                sd.push(std_dev);
                upper.push(num::add(mean, num::mul(std_dev, std_dev_multiplier)));
                lower.push(num::sub(mean, num::mul(std_dev, std_dev_multiplier)));
            }
            i = i + 1;
        }
        let mut output: Vec<(String, Vec<u64>)> = Vec::new();
        output.push((String::from_str("middle_band"), ma));
        output.push((String::from_str("upper_band"), upper));
        output.push((String::from_str("lower_band"), lower));
        proof {
            let c = spec_field(*data, BarField::CLOSE)->Some_0;
            let p = period as int;
            let mid_s = Seq::new(c.len(), |i: int| spec_middle_at(c, p, i));
            let up_s = Seq::new(c.len(), |i: int| spec_upper_at(c, p, std_dev_multiplier, i));
            let low_s = Seq::new(c.len(), |i: int| spec_lower_at(c, p, std_dev_multiplier, i));
            assert(output@[0].1@ =~= mid_s);
            assert(output@[1].1@ =~= up_s);
            assert(output@[2].1@ =~= low_s);
            let mapped = output@.map_values(|pr: (String, Vec<u64>)| (pr.0@, pr.1@));
            assert(mapped =~= seq![
                ("middle_band"@, mid_s),
                ("upper_band"@, up_s),
                ("lower_band"@, low_s),
            ]);
        }
        Ok(OutputData::MultiSeries(output))
    }
}

} // verus!
