//! The shared numeric kernels: stateless pure functions over series of
//! double bit patterns, each pinned to its recurrence value by value.

use vstd::prelude::*;
use vstd::string::StringExecFns;
use crate::ieee::{
    abs_bits, eq_value, gt, max_value, spec_abs_bits, spec_eq, spec_f64_of_u64, spec_gt, spec_max,
    f64_of_u64, NAN_BITS, ZERO_BITS,
};
use crate::models::indicator::{err_view, IndicatorError, SpecError};
use crate::num;
use crate::num::{add_bits, div_bits, mul_bits, sub_bits};

verus! {

/// True range at one bar: the bar's own range for the first bar, otherwise
/// the largest of the bar's range and the two gaps from the prior close.
pub open spec fn spec_true_range_at(h: Seq<u64>, l: Seq<u64>, c: Seq<u64>, i: int) -> u64 {
    if i == 0 {
        sub_bits(h[0], l[0])
    } else {
        let hl = sub_bits(h[i], l[i]);
        let hc = spec_abs_bits(sub_bits(h[i], c[i - 1]));
        let lc = spec_abs_bits(sub_bits(l[i], c[i - 1]));
        spec_max(spec_max(hl, hc), lc)
    }
}

/// Signed upward directional movement at one bar: the rise of the high when
/// it beats both the fall of the low and zero, else zero; zero at the first
/// bar.
pub open spec fn spec_plus_dm_at(h: Seq<u64>, l: Seq<u64>, i: int) -> u64 {
    if i == 0 {
        ZERO_BITS
    } else {
        let up = sub_bits(h[i], h[i - 1]);
        let down = sub_bits(l[i - 1], l[i]);
        if spec_gt(up, down) && spec_gt(up, ZERO_BITS) {
            up
        } else {
            ZERO_BITS
        }
    }
}

/// Signed downward directional movement at one bar, the mirror image of the
/// upward one.
pub open spec fn spec_minus_dm_at(h: Seq<u64>, l: Seq<u64>, i: int) -> u64 {
    if i == 0 {
        ZERO_BITS
    } else {
        let up = sub_bits(h[i], h[i - 1]);
        let down = sub_bits(l[i - 1], l[i]);
        if spec_gt(down, up) && spec_gt(down, ZERO_BITS) {
            down
        } else {
            ZERO_BITS
        }
    }
}

/// Running total: each position holds the sum of everything up to it, added
/// left to right onto an initial zero.
pub open spec fn spec_cumsum_at(x: Seq<u64>, i: int) -> u64
    decreases i,
{
    if i <= 0 {
        add_bits(ZERO_BITS, x[0])
    } else {
        add_bits(spec_cumsum_at(x, i - 1), x[i])
    }
}

pub fn calculate_true_range(high: &Vec<u64>, low: &Vec<u64>, close: &Vec<u64>) -> (r: Result<
    Vec<u64>,
    IndicatorError,
>)
    requires
        high@.len() == low@.len(),
        high@.len() == close@.len(),
    ensures
        r is Ok,
        r->Ok_0@.len() == high@.len(),
        forall|i: int|
            0 <= i < high@.len() ==> r->Ok_0@[i] == spec_true_range_at(high@, low@, close@, i),
{
    let length: usize = high.len();
    let mut tr: Vec<u64> = Vec::new();
    let mut i: usize = 0;
    while i < length
        invariant
            i <= length,
            length == high@.len(),
            length == low@.len(),
            length == close@.len(),
            tr@.len() == i,
            forall|j: int| 0 <= j < i ==> tr@[j] == spec_true_range_at(high@, low@, close@, j),
        decreases length - i,
    {
        if i == 0 {
            tr.push(num::sub(high[0], low[0]));
        } else {
            let hl: u64 = num::sub(high[i], low[i]);
            let hc: u64 = abs_bits(num::sub(high[i], close[i - 1]));
            let lc: u64 = abs_bits(num::sub(low[i], close[i - 1]));
            tr.push(max_value(max_value(hl, hc), lc));
        }
        i = i + 1;
    }
    Ok(tr)
}

pub fn calculate_directional_movements(high: &Vec<u64>, low: &Vec<u64>) -> (r: Result<
    (Vec<u64>, Vec<u64>),
    IndicatorError,
>)
    requires
        high@.len() == low@.len(),
    ensures
        r is Ok,
        r->Ok_0.0@.len() == high@.len(),
        r->Ok_0.1@.len() == high@.len(),
        forall|i: int| 0 <= i < high@.len() ==> r->Ok_0.0@[i] == spec_plus_dm_at(high@, low@, i),
        forall|i: int| 0 <= i < high@.len() ==> r->Ok_0.1@[i] == spec_minus_dm_at(high@, low@, i),
{
    let length: usize = high.len();
    let mut plus_dm: Vec<u64> = Vec::new();
    let mut minus_dm: Vec<u64> = Vec::new();
    let mut i: usize = 0;
    while i < length
        invariant
            i <= length,
            length == high@.len(),
            length == low@.len(),
            plus_dm@.len() == i,
            minus_dm@.len() == i,
            forall|j: int| 0 <= j < i ==> plus_dm@[j] == spec_plus_dm_at(high@, low@, j),
            forall|j: int| 0 <= j < i ==> minus_dm@[j] == spec_minus_dm_at(high@, low@, j),
        decreases length - i,
    {
        if i == 0 {
            plus_dm.push(ZERO_BITS);
            minus_dm.push(ZERO_BITS);
        } else {
            let up: u64 = num::sub(high[i], high[i - 1]);
            let down: u64 = num::sub(low[i - 1], low[i]);
            if gt(up, down) && gt(up, ZERO_BITS) {
                plus_dm.push(up);
            } else {
                plus_dm.push(ZERO_BITS);
            }
            if gt(down, up) && gt(down, ZERO_BITS) {
                minus_dm.push(down);
            } else {
                minus_dm.push(ZERO_BITS);
            }
        }
        i = i + 1;
    }
    Ok((plus_dm, minus_dm))
}

/// Sum of the first `n` values, added left to right onto an initial zero.
pub open spec fn spec_sum_prefix(data: Seq<u64>, n: int) -> u64
    decreases n,
{
    if n <= 0 {
        ZERO_BITS
    } else {
        add_bits(spec_sum_prefix(data, n - 1), data[n - 1])
    }
}

/// Arithmetic mean of the first `p` values: their sum divided by `p`.
pub open spec fn spec_mean_prefix(data: Seq<u64>, p: int) -> u64 {
    div_bits(spec_sum_prefix(data, p), spec_f64_of_u64(p as u64))
}

/// Wilder recursive smoothing: zero below the seed position, the mean of the
/// first `p` values at position `p - 1`, then each value moves from the
/// prior one by a `p`-th of the distance to the new raw value.
pub open spec fn spec_wilder_at(data: Seq<u64>, p: int, i: int) -> u64
    decreases i,
{
    if p < 1 {
        ZERO_BITS
    } else if i < p - 1 {
        ZERO_BITS
    } else if i == p - 1 {
        spec_mean_prefix(data, p)
    } else {
        let prev = spec_wilder_at(data, p, i - 1);
        add_bits(prev, div_bits(sub_bits(data[i], prev), spec_f64_of_u64(p as u64)))
    }
}

/// The exponential-smoothing multiplier `2 / (p + 1)`.
pub open spec fn spec_ema_multiplier(p: int) -> u64 {
    div_bits(spec_f64_of_u64(2), add_bits(spec_f64_of_u64(p as u64), spec_f64_of_u64(1)))
}

/// One exponential-smoothing step from `prev`:
/// `(data[i] - prev) * multiplier + prev`.
pub open spec fn spec_ema_step(data: Seq<u64>, p: int, prev: u64, i: int) -> u64 {
    add_bits(mul_bits(sub_bits(data[i], prev), spec_ema_multiplier(p)), prev)
}

/// Exponential moving average with a zero-filled warm-up prefix: the mean of
/// the first `p` values seeds position `p - 1`.
pub open spec fn spec_ema_zero_at(data: Seq<u64>, p: int, i: int) -> u64
    decreases i,
{
    if p < 1 {
        ZERO_BITS
    } else if i < p - 1 {
        ZERO_BITS
    } else if i == p - 1 {
        spec_mean_prefix(data, p)
    } else {
        spec_ema_step(data, p, spec_ema_zero_at(data, p, i - 1), i)
    }
}

/// Exponential moving average with a NaN-filled warm-up prefix.
pub open spec fn spec_ema_nan_at(data: Seq<u64>, p: int, i: int) -> u64
    decreases i,
{
    if p < 1 {
        NAN_BITS
    } else if i < p - 1 {
        NAN_BITS
    } else if i == p - 1 {
        spec_mean_prefix(data, p)
    } else {
        spec_ema_step(data, p, spec_ema_nan_at(data, p, i - 1), i)
    }
}

/// Money-flow volume at one bar:
/// `((close - low) - (high - close)) / (high - low) * volume`.
pub open spec fn spec_mfv_at(h: Seq<u64>, l: Seq<u64>, c: Seq<u64>, v: Seq<u64>, i: int) -> u64 {
    mul_bits(
        div_bits(sub_bits(sub_bits(c[i], l[i]), sub_bits(h[i], c[i])), sub_bits(h[i], l[i])),
        v[i],
    )
}

/// Accumulation/distribution line: the running total of money-flow volume,
/// carrying the prior total forward unchanged over a bar whose range is
/// zero (the division-by-zero guard).
pub open spec fn spec_adl_at(h: Seq<u64>, l: Seq<u64>, c: Seq<u64>, v: Seq<u64>, i: int) -> u64
    decreases i,
{
    let prior = if i <= 0 {
        ZERO_BITS
    } else {
        spec_adl_at(h, l, c, v, i - 1)
    };
    if spec_eq(sub_bits(h[i], l[i]), ZERO_BITS) {
        prior
    } else {
        add_bits(prior, spec_mfv_at(h, l, c, v, i))
    }
}

pub fn wilder_smoothing(data: &Vec<u64>, period: usize) -> (r: Result<Vec<u64>, IndicatorError>)
    requires
        period >= 1,
    ensures
        match r {
            Result::Ok(out) => {
                &&& data@.len() >= period
                &&& out@.len() == data@.len()
                &&& forall|i: int|
                    0 <= i < data@.len() ==> out@[i] == spec_wilder_at(data@, period as int, i)
            },
            Result::Err(e) => {
                &&& data@.len() < period
                &&& err_view(e) == SpecError::Input(
                    "Data length must be at least equal to the period for smoothing"@,
                )
            },
        },
{
    let length: usize = data.len();
    if length < period {
        return Err(
            IndicatorError::InvalidInput(
                String::from_str("Data length must be at least equal to the period for smoothing"),
            ),
        );
    }
    let pbits: u64 = f64_of_u64(period as u64);
    let mut smoothed: Vec<u64> = Vec::new();
    let mut i: usize = 0;
    while i < period - 1
        invariant
            period >= 1,
            i <= period - 1,
            smoothed@.len() == i,
            forall|j: int| 0 <= j < i ==> smoothed@[j] == ZERO_BITS,
        decreases period - 1 - i,
    {
        smoothed.push(ZERO_BITS);
        i = i + 1;
    }
    let mut sum: u64 = ZERO_BITS;
    let mut k: usize = 0;
    while k < period
        invariant
            k <= period,
            period <= data@.len(),
            sum == spec_sum_prefix(data@, k as int),
        decreases period - k,
    {
        sum = num::add(sum, data[k]);
        k = k + 1;
    }
    smoothed.push(num::div(sum, pbits));
    assert(forall|j: int|
        0 <= j < period ==> smoothed@[j] == spec_wilder_at(data@, period as int, j));
    let mut i2: usize = period;
    while i2 < length
        invariant
            period >= 1,
            period <= i2 <= length,
            length == data@.len(),
            pbits == spec_f64_of_u64(period as u64),
            smoothed@.len() == i2,
            forall|j: int| 0 <= j < i2 ==> smoothed@[j] == spec_wilder_at(data@, period as int, j),
        decreases length - i2,
    {
        let prev: u64 = smoothed[i2 - 1];
        smoothed.push(num::add(prev, num::div(num::sub(data[i2], prev), pbits)));
        i2 = i2 + 1;
    }
    Ok(smoothed)
}

pub fn calculate_ema(data: &Vec<u64>, period: usize) -> (r: Result<Vec<u64>, IndicatorError>)
    ensures
        match r {
            Result::Ok(out) => {
                &&& 1 <= period <= data@.len()
                &&& out@.len() == data@.len()
                &&& forall|i: int|
                    0 <= i < data@.len() ==> out@[i] == spec_ema_zero_at(data@, period as int, i)
            },
            Result::Err(e) => {
                &&& (period == 0 || period > data@.len())
                &&& err_view(e) == SpecError::Params("Invalid period for EMA calculation"@)
            },
        },
{
    let length: usize = data.len();
    if period == 0 || period > length {
        return Err(
            IndicatorError::InvalidParameters(
                String::from_str("Invalid period for EMA calculation"),
            ),
        );
    }
    let mut ema: Vec<u64> = Vec::new();
    let mut i: usize = 0;
    while i < period - 1
        invariant
            period >= 1,
            i <= period - 1,
            ema@.len() == i,
            forall|j: int| 0 <= j < i ==> ema@[j] == ZERO_BITS,
        decreases period - 1 - i,
    {
        ema.push(ZERO_BITS);
        i = i + 1;
    }
    let mut sum: u64 = ZERO_BITS;
    let mut k: usize = 0;
    while k < period
        invariant
            k <= period,
            period <= data@.len(),
            sum == spec_sum_prefix(data@, k as int),
        decreases period - k,
    {
        sum = num::add(sum, data[k]);
        k = k + 1;
    }
    let pbits: u64 = f64_of_u64(period as u64);
    ema.push(num::div(sum, pbits));
    assert(forall|j: int| 0 <= j < period ==> ema@[j] == spec_ema_zero_at(data@, period as int, j));
    let alpha: u64 = num::div(f64_of_u64(2), num::add(pbits, f64_of_u64(1)));
    assert(alpha == spec_ema_multiplier(period as int));
    let mut i2: usize = period;
    while i2 < length
        invariant
            period >= 1,
            period <= i2 <= length,
            length == data@.len(),
            alpha == spec_ema_multiplier(period as int),
            ema@.len() == i2,
            forall|j: int| 0 <= j < i2 ==> ema@[j] == spec_ema_zero_at(data@, period as int, j),
        decreases length - i2,
    {
        let prev: u64 = ema[i2 - 1];
        ema.push(num::add(num::mul(num::sub(data[i2], prev), alpha), prev));
        i2 = i2 + 1;
    }
    Ok(ema)
}

/// Exponential moving average with a NaN warm-up prefix; callers guarantee a
/// workable period, as the validation run before any indicator body does.
pub fn exponential_moving_average(data: &Vec<u64>, period: usize) -> (out: Vec<u64>)
    requires
        1 <= period <= data@.len(),
    ensures
        out@.len() == data@.len(),
        forall|i: int| 0 <= i < data@.len() ==> out@[i] == spec_ema_nan_at(data@, period as int, i),
{
    let length: usize = data.len();
    let mut ema: Vec<u64> = Vec::new();
    let mut i: usize = 0;
    while i < period - 1
        invariant
            period >= 1,
            i <= period - 1,
            ema@.len() == i,
            forall|j: int| 0 <= j < i ==> ema@[j] == NAN_BITS,
        decreases period - 1 - i,
    {
        ema.push(NAN_BITS);
        i = i + 1;
    }
    let mut sum: u64 = ZERO_BITS;
    let mut k: usize = 0;
    while k < period
        invariant
            k <= period,
            period <= data@.len(),
            sum == spec_sum_prefix(data@, k as int),
        decreases period - k,
    {
        sum = num::add(sum, data[k]);
        k = k + 1;
    }
    let pbits: u64 = f64_of_u64(period as u64);
    ema.push(num::div(sum, pbits));
    assert(forall|j: int| 0 <= j < period ==> ema@[j] == spec_ema_nan_at(data@, period as int, j));
    let alpha: u64 = num::div(f64_of_u64(2), num::add(pbits, f64_of_u64(1)));
    assert(alpha == spec_ema_multiplier(period as int));
    let mut i2: usize = period;
    while i2 < length
        invariant
            period >= 1,
            period <= i2 <= length,
            length == data@.len(),
            alpha == spec_ema_multiplier(period as int),
            ema@.len() == i2,
            forall|j: int| 0 <= j < i2 ==> ema@[j] == spec_ema_nan_at(data@, period as int, j),
        decreases length - i2,
    {
        let prev: u64 = ema[i2 - 1];
        ema.push(num::add(num::mul(num::sub(data[i2], prev), alpha), prev));
        i2 = i2 + 1;
    }
    ema
}

pub fn calculate_adl(high: &Vec<u64>, low: &Vec<u64>, close: &Vec<u64>, volume: &Vec<u64>) -> (r:
    Result<Vec<u64>, IndicatorError>)
    requires
        high@.len() == low@.len(),
        high@.len() == close@.len(),
        high@.len() == volume@.len(),
    ensures
        r is Ok,
        r->Ok_0@.len() == high@.len(),
        forall|i: int|
            0 <= i < high@.len() ==> r->Ok_0@[i] == spec_adl_at(high@, low@, close@, volume@, i),
{
    let length: usize = high.len();
    let mut adl: Vec<u64> = Vec::new();
    let mut acc: u64 = ZERO_BITS;
    let mut i: usize = 0;
    while i < length
        invariant
            i <= length,
            length == high@.len(),
            length == low@.len(),
            length == close@.len(),
            length == volume@.len(),
            adl@.len() == i,
            forall|j: int|
                0 <= j < i ==> adl@[j] == spec_adl_at(high@, low@, close@, volume@, j),
            i > 0 ==> acc == spec_adl_at(high@, low@, close@, volume@, i - 1),
            i == 0 ==> acc == ZERO_BITS,
        decreases length - i,
    {
        let range: u64 = num::sub(high[i], low[i]);
        if eq_value(range, ZERO_BITS) {
            adl.push(acc);
        } else {
            let numerator: u64 = num::sub(num::sub(close[i], low[i]), num::sub(high[i], close[i]));
            let mfv: u64 = num::mul(num::div(numerator, range), volume[i]);
            acc = num::add(acc, mfv);
            adl.push(acc);
        }
        i = i + 1;
    }
    Ok(adl)
}

pub fn cumulative_sum(input: &Vec<u64>) -> (r: Vec<u64>)
    ensures
        r@.len() == input@.len(),
        forall|i: int| 0 <= i < input@.len() ==> r@[i] == spec_cumsum_at(input@, i),
{
    let mut cumsum: Vec<u64> = Vec::new();
    let mut sum: u64 = ZERO_BITS;
    let mut i: usize = 0;
    while i < input.len()
        invariant
            i <= input@.len(),
            cumsum@.len() == i,
            forall|j: int| 0 <= j < i ==> cumsum@[j] == spec_cumsum_at(input@, j),
            i > 0 ==> sum == spec_cumsum_at(input@, i - 1),
            i == 0 ==> sum == ZERO_BITS,
        decreases input@.len() - i,
    {
        sum = num::add(sum, input[i]);
        cumsum.push(sum);
        i = i + 1;
    }
    cumsum
}

} // verus!
