//! Average directional index: true range and signed directional movements,
//! each Wilder-smoothed; the smoothed movements are ratio-normalized into
//! directional indicators whose scaled absolute difference is smoothed once
//! more. Warm-up horizon: `2 * (period - 1)`.

use vstd::prelude::*;
use std::collections::HashSet;
use vstd::string::StringExecFns;
use crate::ieee::{
    abs_bits, f64_of_u64, is_non_finite, spec_abs_bits, spec_f64_of_u64, spec_is_non_finite,
    NAN_BITS, ZERO_BITS,
};
use crate::indicators::utils::{
    calculate_directional_movements, calculate_true_range, spec_minus_dm_at, spec_plus_dm_at,
    spec_true_range_at, spec_wilder_at, wilder_smoothing,
};
use crate::models::data::{spec_field, BarField, InputData, OutputData};
use crate::models::groups::{
    CalculationMethodology, ComplexityLevel, DataInputType, Group, MarketSuitability,
    MathematicalBasis, OutputFormat, SignalInterpretation, SignalType, SmoothingTechnique,
    TimeframeFocus, TradingStrategySuitability, UseCase,
};
use crate::models::indicator::{Indicator, IndicatorError, OutputV, SpecError};
use crate::num;
use crate::num::{add_bits, div_bits, mul_bits, sub_bits};
use crate::params::{
    decode_usize, spec_decode_usize, spec_usize_value, usize_value, ParamValue, Params,
};
use crate::validation::validator::{
    lemma_all_present, spec_rule_error, spec_rules_error, spec_validate, ParamRule, Validator,
};

verus! {

/// The decoded parameter schema.
pub struct ADXParams {
    pub period: usize,
}

pub fn default_period() -> (p: usize)
    ensures
        p == 14,
{
    14
}

pub struct ADX {
    groups: HashSet<Group>,
    validator: Validator,
}

pub open spec fn spec_adx_fields() -> Seq<BarField> {
    seq![BarField::HIGH, BarField::LOW, BarField::CLOSE]
}

pub open spec fn spec_adx_rules() -> Seq<ParamRule> {
    seq![
        ParamRule::Required("period"),
        ParamRule::PositiveInteger("period"),
        ParamRule::WithinDataLength { param: "period", field: BarField::HIGH },
    ]
}

fn create_validator() -> (v: Validator)
    ensures
        v.spec_fields() == spec_adx_fields(),
        v.spec_rules() == spec_adx_rules(),
{
    let fields = vec![BarField::HIGH, BarField::LOW, BarField::CLOSE];
    let rules = vec![
        ParamRule::Required("period"),
        ParamRule::PositiveInteger("period"),
        ParamRule::WithinDataLength { param: "period", field: BarField::HIGH },
    ];
    proof {
        assert(fields@ =~= spec_adx_fields());
        assert(rules@ =~= spec_adx_rules());
    }
    Validator::new(fields, rules)
}

pub fn create_groups() -> HashSet<Group> {
    let mut groups = HashSet::new();
    groups.insert(Group::UseCase(UseCase::TrendIdentification));
    groups.insert(Group::UseCase(UseCase::MarketStrengthMeasurement));
    groups.insert(Group::MathematicalBasis(MathematicalBasis::Averaging));
    groups.insert(Group::MathematicalBasis(MathematicalBasis::RatioBased));
    groups.insert(Group::DataInputType(DataInputType::PriceBased));
    groups.insert(Group::SignalType(SignalType::Lagging));
    groups.insert(Group::OutputFormat(OutputFormat::SingleLine));
    groups.insert(Group::OutputFormat(OutputFormat::Percentage));
    groups.insert(Group::TimeframeFocus(TimeframeFocus::Short));
    groups.insert(Group::TimeframeFocus(TimeframeFocus::Medium));
    groups.insert(Group::ComplexityLevel(ComplexityLevel::Intermediate));
    groups.insert(Group::MarketSuitability(MarketSuitability::Trending));
    groups.insert(Group::TradingStrategySuitability(TradingStrategySuitability::Swing));
    groups.insert(Group::TradingStrategySuitability(TradingStrategySuitability::Intraday));
    groups.insert(Group::SmoothingTechnique(SmoothingTechnique::Exponential));
    groups.insert(Group::CalculationMethodology(CalculationMethodology::Ratio));
    groups.insert(Group::SignalInterpretation(SignalInterpretation::ThresholdLevels));
    groups
}

/// The parameter mapping the decoded schema denotes.
pub open spec fn spec_adx_params_map(period: usize) -> Map<Seq<char>, ParamValue> {
    Map::empty().insert("period"@, spec_usize_value(period))
}

pub open spec fn msg_adx_overrun() -> Seq<char> {
    "Calculated ADX length exceeds input data length."@
}

/// The normalized directional index series: both directional indicators as a
/// percentage of the smoothed true range, their scaled absolute relative
/// difference, and zero where that ratio is NaN or infinite (the documented
/// zero-by-zero normalization).
pub open spec fn spec_dx_seq(h: Seq<u64>, l: Seq<u64>, c: Seq<u64>, p: int) -> Seq<u64> {
    let tr = Seq::new(h.len(), |i: int| spec_true_range_at(h, l, c, i));
    let pdm = Seq::new(h.len(), |i: int| spec_plus_dm_at(h, l, i));
    let mdm = Seq::new(h.len(), |i: int| spec_minus_dm_at(h, l, i));
    let hundred = spec_f64_of_u64(100);
    Seq::new(
        h.len(),
        |i: int|
            {
                let stri = spec_wilder_at(tr, p, i);
                let pdi = mul_bits(div_bits(spec_wilder_at(pdm, p, i), stri), hundred);
                let mdi = mul_bits(div_bits(spec_wilder_at(mdm, p, i), stri), hundred);
                let raw = mul_bits(div_bits(spec_abs_bits(sub_bits(pdi, mdi)), add_bits(pdi, mdi)), hundred);
                if spec_is_non_finite(raw) {
                    ZERO_BITS
                } else {
                    raw
                }
            },
    )
}

/// The output value at one bar: NaN inside the doubled warm-up horizon,
/// afterwards the twice-smoothed directional index.
pub open spec fn spec_adx_at(h: Seq<u64>, l: Seq<u64>, c: Seq<u64>, p: int, i: int) -> u64 {
    if i < 2 * (p - 1) {
        NAN_BITS
    } else {
        spec_wilder_at(spec_dx_seq(h, l, c, p), p, i)
    }
}

/// The whole run: schema decoding, then validation, a defect check on the derived
/// window, then one output series exactly as long as the input.
pub open spec fn spec_adx_calc(d: InputData, pm: Map<Seq<char>, ParamValue>) -> Result<
    OutputV,
    SpecError,
> {
    match spec_decode_usize(pm, "period"@, 14) {
        Result::Err(m) => Result::Err(SpecError::Params(m)),
        Result::Ok(period) => {
            let vp = spec_adx_params_map(period);
            match spec_validate(spec_adx_fields(), spec_adx_rules(), vp, d) {
                Option::Some(e) => Result::Err(e),
                Option::None => {
                    let h = spec_field(d, BarField::HIGH)->Some_0;
                    let l = spec_field(d, BarField::LOW)->Some_0;
                    let c = spec_field(d, BarField::CLOSE)->Some_0;
                    if 2 * (period - 1) > h.len() {
                        Result::Err(SpecError::Calc(msg_adx_overrun()))
                    } else {
                        Result::Ok(
                            OutputV::Single(
                                Seq::new(h.len(), |i: int| spec_adx_at(h, l, c, period as int, i)),
                            ),
                        )
                    }
                },
            }
        },
    }
}

impl ADX {
    #[verifier::type_invariant]
    spec fn wf(self) -> bool {
        &&& self.validator.spec_fields() == spec_adx_fields()
        &&& self.validator.spec_rules() == spec_adx_rules()
    }

    pub fn new() -> Self {
        let validator = create_validator();
        let groups = create_groups();
        Self { groups, validator }
    }
}

impl Indicator for ADX {
    open spec fn calc_spec(&self, data: InputData, params: Params) -> Result<OutputV, SpecError> {
        spec_adx_calc(data, params@)
    }

    fn short_name(&self) -> &'static str {
        "ADX"
    }

    fn name(&self) -> &'static str {
        "Average Directional Index"
    }

    fn get_groups(&self) -> &HashSet<Group> {
        &self.groups
    }

    fn calculate(&self, data: &InputData, params: &Params) -> Result<OutputData, IndicatorError> {
        proof {
            use_type_invariant(&*self);
        }
        let schema = ADXParams {
            period: match decode_usize(params, "period", default_period()) {
                Ok(p) => p,
                Err(m) => {
                    return Err(IndicatorError::InvalidParameters(m));
                },
            },
        };
        let period: usize = schema.period;
        let mut vp = Params::empty();
        vp.set("period", usize_value(period));
        match self.validator.validate(data, &vp) {
            Err(e) => {
                return Err(e);
            },
            Ok(u) => {},
        }
        proof {
            let rules = spec_adx_rules();
            let vp_m = spec_adx_params_map(period);
            assert(vp@ == vp_m);
            assert(rules.len() == 3);
            assert(rules.skip(1)[0] == rules[1]);
            assert(rules.skip(1).skip(1)[0] == rules[2]);
            assert(rules.skip(1).skip(1).skip(1).len() == 0);
            assert(spec_rules_error(rules, vp_m, *data) is None);
            assert(spec_rule_error(rules[0], vp_m, *data) is None);
            assert(spec_rules_error(rules.skip(1), vp_m, *data) is None);
            assert(spec_rule_error(rules[1], vp_m, *data) is None);
            assert(spec_rules_error(rules.skip(1).skip(1), vp_m, *data) is None);
            assert(spec_rule_error(rules[2], vp_m, *data) is None);
            lemma_all_present(spec_adx_fields(), *data);
            assert(spec_adx_fields()[0] == BarField::HIGH);
            assert(spec_adx_fields()[1] == BarField::LOW);
            assert(spec_adx_fields()[2] == BarField::CLOSE);
            assert(spec_field(*data, BarField::HIGH) is Some);
            assert(spec_field(*data, BarField::LOW) is Some);
            assert(spec_field(*data, BarField::CLOSE) is Some);
        }
        let high = data.get_by_bar_field(&BarField::HIGH).unwrap();
        let low = data.get_by_bar_field(&BarField::LOW).unwrap();
        let close = data.get_by_bar_field(&BarField::CLOSE).unwrap();
        let length: usize = high.len();
        assert(1 <= period && period <= length);
        if period - 1 > length / 2 {
            assert(2 * (period - 1) > high@.len());
            return Err(
                IndicatorError::CalculationError(
                    String::from_str("Calculated ADX length exceeds input data length."),
                ),
            );
        }
        let start_index: usize = 2 * (period - 1);
        assert(start_index <= length);
        let tr = match calculate_true_range(high, low, close) {
            Ok(v) => v,
            Err(e) => {
                return Err(e);
            },
        };
        let dms = match calculate_directional_movements(high, low) {
            Ok(v) => v,
            Err(e) => {
                return Err(e);
            },
        };
        let (plus_dm, minus_dm) = dms;
        let smoothed_tr = match wilder_smoothing(&tr, period) {
            Ok(v) => v,
            Err(e) => {
                proof {
                    assert(false);
                }
                return Err(e);
            },
        };
        let smoothed_plus_dm = match wilder_smoothing(&plus_dm, period) {
            Ok(v) => v,
            Err(e) => {
                proof {
                    assert(false);
                }
                return Err(e);
            },
        };
        let smoothed_minus_dm = match wilder_smoothing(&minus_dm, period) {
            Ok(v) => v,
            Err(e) => {
                proof {
                    assert(false);
                }
                return Err(e);
            },
        };
        let ghost tr_s = Seq::new(high@.len(), |i: int| spec_true_range_at(high@, low@, close@, i));
        let ghost pdm_s = Seq::new(high@.len(), |i: int| spec_plus_dm_at(high@, low@, i));
        let ghost mdm_s = Seq::new(high@.len(), |i: int| spec_minus_dm_at(high@, low@, i));
        proof {
            assert(tr@ =~= tr_s);
            assert(plus_dm@ =~= pdm_s);
            assert(minus_dm@ =~= mdm_s);
        }
        let hundred: u64 = f64_of_u64(100);
        let mut dx: Vec<u64> = Vec::new();
        let mut i: usize = 0;
        let ghost dx_s = spec_dx_seq(high@, low@, close@, period as int);
        while i < length
            invariant
                i <= length,
                length == high@.len(),
                smoothed_tr@.len() == length,
                smoothed_plus_dm@.len() == length,
                smoothed_minus_dm@.len() == length,
                hundred == spec_f64_of_u64(100),
                dx_s == spec_dx_seq(high@, low@, close@, period as int),
                dx_s.len() == length,
                tr_s == Seq::new(high@.len(), |i: int| spec_true_range_at(high@, low@, close@, i)),
                pdm_s == Seq::new(high@.len(), |i: int| spec_plus_dm_at(high@, low@, i)),
                mdm_s == Seq::new(high@.len(), |i: int| spec_minus_dm_at(high@, low@, i)),
                forall|j: int|
                    0 <= j < length ==> smoothed_tr@[j] == spec_wilder_at(tr_s, period as int, j),
                forall|j: int|
                    0 <= j < length ==> smoothed_plus_dm@[j] == spec_wilder_at(
                        pdm_s,
                        period as int,
                        j,
                    ),
                forall|j: int|
                    0 <= j < length ==> smoothed_minus_dm@[j] == spec_wilder_at(
                        mdm_s,
                        period as int,
                        j,
                    ),
                dx@.len() == i,
                forall|j: int| 0 <= j < i ==> dx@[j] == dx_s[j],
            decreases length - i,
        {
            let stri: u64 = smoothed_tr[i];
            let pdi: u64 = num::mul(num::div(smoothed_plus_dm[i], stri), hundred);
            let mdi: u64 = num::mul(num::div(smoothed_minus_dm[i], stri), hundred);
            let raw: u64 = num::mul(num::div(abs_bits(num::sub(pdi, mdi)), num::add(pdi, mdi)), hundred);
            if is_non_finite(raw) {
                dx.push(ZERO_BITS);
            } else {
                dx.push(raw);
            }
            i = i + 1;
        }
        let adx = match wilder_smoothing(&dx, period) {
            Ok(v) => v,
            Err(e) => {
                proof {
                    assert(false);
                }
                return Err(e);
            },
        };
        proof {
            assert(dx@ =~= dx_s);
        }
        let mut full_adx: Vec<u64> = Vec::new();
        let mut i2: usize = 0;
        while i2 < length
            invariant
                i2 <= length,
                length == high@.len(),
                start_index == 2 * (period - 1),
                period >= 1,
                adx@.len() == length,
                forall|j: int| 0 <= j < length ==> adx@[j] == spec_wilder_at(dx_s, period as int, j),
                dx_s == spec_dx_seq(high@, low@, close@, period as int),
                full_adx@.len() == i2,
                forall|j: int|
                    0 <= j < i2 ==> full_adx@[j] == spec_adx_at(
                        high@,
                        low@,
                        close@,
                        period as int,
                        j,
                    ),
            decreases length - i2,
        {
            if i2 < start_index {
                full_adx.push(NAN_BITS);
            } else {
                full_adx.push(adx[i2]);
            }
            i2 = i2 + 1;
        }
        proof {
            let h = spec_field(*data, BarField::HIGH)->Some_0;
            let l = spec_field(*data, BarField::LOW)->Some_0;
            let c = spec_field(*data, BarField::CLOSE)->Some_0;
            assert(full_adx@ =~= Seq::new(
                h.len(),
                |i: int| spec_adx_at(h, l, c, period as int, i),
            ));
        }
        Ok(OutputData::SingleSeries(full_adx))
    }
}

} // verus!
