//! The library-wide laws: alignment of every output with the input length,
//! the NaN warm-up prefixes, determinism, validation ordering, the equality
//! of the two smoothing seeds, and the zero-range carry of the
//! accumulation/distribution line.

use vstd::prelude::*;
use crate::ieee::{lemma_nan_pattern, spec_is_nan, ZERO_BITS};
use crate::indicators::adx::{spec_adx_calc, spec_adx_at};
use crate::indicators::adxr::spec_adxr_calc;
use crate::indicators::apo::spec_apo_calc;
use crate::indicators::aroon::spec_aroon_calc;
use crate::indicators::atr::spec_atr_calc;
use crate::indicators::avgprice::spec_avgprice_calc;
use crate::indicators::bbands::spec_bbands_calc;
use crate::indicators::chaikin_ad_line::spec_ad_line_calc;
use crate::indicators::chaikin_ad_oscillator::spec_adosc_calc;
use crate::indicators::utils::{
    spec_adl_at, spec_ema_nan_at, spec_ema_zero_at, spec_mean_prefix, spec_wilder_at,
};
use crate::models::data::{spec_field, BarField, InputData};
use crate::models::indicator::{Indicator, OutputV, SpecError};
use crate::num::sub_bits;
use crate::params::{spec_decode_usize, ParamValue};
use crate::validation::validator::{
    msg_positive_integer, msg_unequal_lengths, msg_wrong_length, spec_all_same_length,
    spec_candle_error, spec_first_missing, spec_get_i64, spec_rule_error, spec_rules_error,
    spec_validate, ParamRule,
};

verus! {

/// Identical `(series, params)` always yields bit-identical output: any two
/// results that `calculate`'s contract admits for equal arguments are equal.
pub proof fn lemma_calculate_deterministic<I: Indicator>(
    ind: &I,
    data: InputData,
    params: crate::params::Params,
    r1: Result<OutputV, SpecError>,
    r2: Result<OutputV, SpecError>,
)
    requires
        r1 == ind.calc_spec(data, params),
        r2 == ind.calc_spec(data, params),
    ensures
        r1 == r2,
{
}

/// A candle-contract violation is reported even when the parameters would
/// also be invalid: the whole validation run returns exactly the candle error.
pub proof fn lemma_candle_reported_first(
    fields: Seq<BarField>,
    rules: Seq<ParamRule>,
    pm: Map<Seq<char>, ParamValue>,
    d: InputData,
)
    requires
        spec_candle_error(fields, d) is Some,
    ensures
        spec_validate(fields, rules, pm, d) == spec_candle_error(fields, d),
{
}

/// Among the parameter rules, the first violated rule in declared order is
/// the one reported.
pub proof fn lemma_first_rule_reported(
    rules: Seq<ParamRule>,
    pm: Map<Seq<char>, ParamValue>,
    d: InputData,
    k: int,
)
    requires
        0 <= k < rules.len(),
        spec_rule_error(rules[k], pm, d) is Some,
        forall|j: int| 0 <= j < k ==> spec_rule_error(rules[j], pm, d) is None,
    ensures
        spec_rules_error(rules, pm, d) == spec_rule_error(rules[k], pm, d),
    decreases k,
{
    if k == 0 {
    } else {
        assert(rules.skip(1)[k - 1] == rules[k]);
        assert forall|j: int| 0 <= j < k - 1 implies spec_rule_error(
            rules.skip(1)[j],
            pm,
            d,
        ) is None by {
            assert(rules.skip(1)[j] == rules[j + 1]);
        }
        lemma_first_rule_reported(rules.skip(1), pm, d, k - 1);
    }
}

/// A value of zero under a positive-integer rule is rejected with exactly
/// the documented message.
pub proof fn lemma_zero_period_rejected(
    name: &'static str,
    pm: Map<Seq<char>, ParamValue>,
    d: InputData,
)
    requires
        spec_get_i64(pm, name@) == Option::Some(0i64),
    ensures
        spec_rule_error(ParamRule::PositiveInteger(name), pm, d) == Option::Some(
            SpecError::Params(msg_positive_integer(name@)),
        ),
{
}

/// A period above the named field's length is rejected with exactly the
/// documented message, value and bound included.
pub proof fn lemma_oversized_period_rejected(
    name: &'static str,
    field: BarField,
    pm: Map<Seq<char>, ParamValue>,
    d: InputData,
    v: i64,
    s: Seq<u64>,
)
    requires
        spec_get_i64(pm, name@) == Option::Some(v),
        spec_field(d, field) == Option::Some(s),
        v > s.len(),
    ensures
        spec_rule_error(ParamRule::WithinDataLength { param: name, field }, pm, d)
            == Option::Some(SpecError::Params(msg_wrong_length(name@, v as int, s.len()))),
{
}

/// When every required field is present, none is reported missing.
pub proof fn lemma_none_missing(fields: Seq<BarField>, d: InputData)
    requires
        forall|i: int| 0 <= i < fields.len() ==> spec_field(d, fields[i]) is Some,
    ensures
        spec_first_missing(fields, d) is None,
    decreases fields.len(),
{
    if fields.len() > 0 {
        assert forall|i: int|
            0 <= i < fields.skip(1).len() implies spec_field(d, fields.skip(1)[i]) is Some by {
            assert(fields.skip(1)[i] == fields[i + 1]);
        }
        lemma_none_missing(fields.skip(1), d);
    }
}

/// Required fields present but of unequal lengths are rejected with exactly
/// the documented message, once, whatever else differs.
pub proof fn lemma_unequal_lengths_rejected(
    fields: Seq<BarField>,
    d: InputData,
    a: int,
    b: int,
)
    requires
        forall|i: int| 0 <= i < fields.len() ==> spec_field(d, fields[i]) is Some,
        0 <= a < fields.len(),
        0 <= b < fields.len(),
        spec_field(d, fields[a])->Some_0.len() != spec_field(d, fields[b])->Some_0.len(),
    ensures
        spec_candle_error(fields, d) == Option::Some(
            SpecError::Input(msg_unequal_lengths()),
        ),
{
    lemma_none_missing(fields, d);
    assert(!spec_all_same_length(fields, d));
}

/// The Wilder-smoothing seed equals the arithmetic mean of the first
/// `period` input values, and the exponential-smoothing seed equals the
/// same mean, in both of its warm-up conventions.
pub proof fn lemma_smoothing_seeds(data: Seq<u64>, p: int)
    requires
        p >= 1,
    ensures
        spec_wilder_at(data, p, p - 1) == spec_mean_prefix(data, p),
        spec_ema_zero_at(data, p, p - 1) == spec_mean_prefix(data, p),
        spec_ema_nan_at(data, p, p - 1) == spec_mean_prefix(data, p),
{
}

/// A bar whose range is zero carries the accumulation/distribution line
/// forward unchanged.
pub proof fn lemma_adl_zero_range_carries(
    h: Seq<u64>,
    l: Seq<u64>,
    c: Seq<u64>,
    v: Seq<u64>,
    i: int,
)
    requires
        i >= 1,
        crate::ieee::spec_eq(sub_bits(h[i], l[i]), ZERO_BITS),
    ensures
        spec_adl_at(h, l, c, v, i) == spec_adl_at(h, l, c, v, i - 1),
{
}

/// Every output series of every indicator is exactly as long as the input,
/// and its warm-up prefix reads NaN: the single-series indicators.
pub proof fn lemma_atr_shape(
    d: InputData,
    pm: Map<Seq<char>, ParamValue>,
    period: usize,
    s: Seq<u64>,
)
    requires
        spec_decode_usize(pm, "period"@, 14) == Result::<usize, Seq<char>>::Ok(period),
        spec_atr_calc(d, pm) == Result::<OutputV, SpecError>::Ok(OutputV::Single(s)),
    ensures
        s.len() == spec_field(d, BarField::HIGH)->Some_0.len(),
        forall|i: int| 0 <= i < s.len() && i < period - 1 ==> spec_is_nan(s[i]),
{
    lemma_nan_pattern();
}

pub proof fn lemma_adx_shape(
    d: InputData,
    pm: Map<Seq<char>, ParamValue>,
    period: usize,
    s: Seq<u64>,
)
    requires
        spec_decode_usize(pm, "period"@, 14) == Result::<usize, Seq<char>>::Ok(period),
        spec_adx_calc(d, pm) == Result::<OutputV, SpecError>::Ok(OutputV::Single(s)),
    ensures
        s.len() == spec_field(d, BarField::HIGH)->Some_0.len(),
        forall|i: int| 0 <= i < s.len() && i < 2 * (period - 1) ==> spec_is_nan(s[i]),
{
    lemma_nan_pattern();
}

pub proof fn lemma_adxr_shape(
    d: InputData,
    pm: Map<Seq<char>, ParamValue>,
    period: usize,
    s: Seq<u64>,
)
    requires
        spec_decode_usize(pm, "period"@, 14) == Result::<usize, Seq<char>>::Ok(period),
        spec_adxr_calc(d, pm) == Result::<OutputV, SpecError>::Ok(OutputV::Single(s)),
    ensures
        s.len() == spec_field(d, BarField::HIGH)->Some_0.len(),
        forall|i: int| 0 <= i < s.len() && i < 2 * (period - 1) + period ==> spec_is_nan(s[i]),
{
    lemma_nan_pattern();
    let adx = match spec_adx_calc(d, pm) {
        Result::Ok(ov) => match ov {
            OutputV::Single(a) => a,
            OutputV::Multi(m) => Seq::empty(),
        },
        Result::Err(e) => Seq::empty(),
    };
    assert forall|i: int|
        0 <= i < s.len() && i < 2 * (period - 1) + period implies spec_is_nan(s[i]) by {
        if i >= period {
            assert(i - period < 2 * (period - 1));
            assert(adx[i - period] == spec_adx_at(
                spec_field(d, BarField::HIGH)->Some_0,
                spec_field(d, BarField::LOW)->Some_0,
                spec_field(d, BarField::CLOSE)->Some_0,
                period as int,
                i - period,
            ));
        }
    }
}

pub proof fn lemma_apo_shape(
    d: InputData,
    pm: Map<Seq<char>, ParamValue>,
    slow: usize,
    s: Seq<u64>,
)
    requires
        spec_decode_usize(pm, "slow_period"@, 26) == Result::<usize, Seq<char>>::Ok(slow),
        spec_apo_calc(d, pm) == Result::<OutputV, SpecError>::Ok(OutputV::Single(s)),
    ensures
        s.len() == spec_field(d, BarField::CLOSE)->Some_0.len(),
        forall|i: int| 0 <= i < s.len() && i < slow - 1 ==> spec_is_nan(s[i]),
{
    lemma_nan_pattern();
}

pub proof fn lemma_adosc_shape(
    d: InputData,
    pm: Map<Seq<char>, ParamValue>,
    long: usize,
    s: Seq<u64>,
)
    requires
        spec_decode_usize(pm, "long_period"@, 10) == Result::<usize, Seq<char>>::Ok(long),
        spec_adosc_calc(d, pm) == Result::<OutputV, SpecError>::Ok(OutputV::Single(s)),
    ensures
        s.len() == spec_field(d, BarField::HIGH)->Some_0.len(),
        forall|i: int| 0 <= i < s.len() && i < long - 1 ==> spec_is_nan(s[i]),
{
    lemma_nan_pattern();
}

pub proof fn lemma_ad_line_shape(d: InputData, s: Seq<u64>)
    requires
        spec_ad_line_calc(d) == Result::<OutputV, SpecError>::Ok(OutputV::Single(s)),
    ensures
        s.len() == spec_field(d, BarField::HIGH)->Some_0.len(),
{
}

pub proof fn lemma_avgprice_shape(d: InputData, s: Seq<u64>)
    requires
        spec_avgprice_calc(d) == Result::<OutputV, SpecError>::Ok(OutputV::Single(s)),
    ensures
        s.len() == spec_field(d, BarField::OPEN)->Some_0.len(),
{
}

/// The two multi-series indicators: the fixed keys in their fixed order,
/// every series exactly as long as the input, and NaN warm-up prefixes.
pub proof fn lemma_aroon_shape(
    d: InputData,
    pm: Map<Seq<char>, ParamValue>,
    period: usize,
    m: Seq<(Seq<char>, Seq<u64>)>,
)
    requires
        spec_decode_usize(pm, "period"@, 14) == Result::<usize, Seq<char>>::Ok(period),
        spec_aroon_calc(d, pm) == Result::<OutputV, SpecError>::Ok(OutputV::Multi(m)),
    ensures
        m.len() == 2,
        m[0].0 == "aroon_up"@,
        m[1].0 == "aroon_down"@,
        m[0].1.len() == spec_field(d, BarField::HIGH)->Some_0.len(),
        m[1].1.len() == spec_field(d, BarField::LOW)->Some_0.len(),
        forall|i: int| 0 <= i < m[0].1.len() && i < period - 1 ==> spec_is_nan(m[0].1[i]),
        forall|i: int| 0 <= i < m[1].1.len() && i < period - 1 ==> spec_is_nan(m[1].1[i]),
{
    lemma_nan_pattern();
}

pub proof fn lemma_bbands_shape(
    d: InputData,
    pm: Map<Seq<char>, ParamValue>,
    period: usize,
    m: Seq<(Seq<char>, Seq<u64>)>,
)
    requires
        spec_decode_usize(pm, "period"@, 20) == Result::<usize, Seq<char>>::Ok(period),
        spec_bbands_calc(d, pm) == Result::<OutputV, SpecError>::Ok(OutputV::Multi(m)),
    ensures
        m.len() == 3,
        m[0].0 == "middle_band"@,
        m[1].0 == "upper_band"@,
        m[2].0 == "lower_band"@,
        forall|k: int| 0 <= k < 3 ==> #[trigger] m[k].1.len() == spec_field(
            d,
            BarField::CLOSE,
        )->Some_0.len(),
        forall|k: int, i: int|
            0 <= k < 3 && 0 <= i < m[k].1.len() && i < period - 1 ==> spec_is_nan(#[trigger] m[k].1[i]),
{
    lemma_nan_pattern();
}

} // verus!
