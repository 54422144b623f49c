//! Bit-level view of IEEE 754 double-precision values.
//!
//! A value is its raw 64-bit pattern: one sign bit, eleven exponent bits and
//! fifty-two fraction bits. Classification and ordering are pure functions of
//! the pattern, so they are defined and verified here outright; only rounding
//! arithmetic needs outside help.

use vstd::prelude::*;

verus! {

pub const SIGN_MASK: u64 = 0x8000_0000_0000_0000;
pub const ABS_MASK: u64 = 0x7FFF_FFFF_FFFF_FFFF;
pub const EXP_MASK: u64 = 0x7FF0_0000_0000_0000;
pub const FRAC_MASK: u64 = 0x000F_FFFF_FFFF_FFFF;

/// The quiet-NaN pattern used for "not yet computable" output positions
/// (the same pattern std's NAN constant for doubles carries).
pub const NAN_BITS: u64 = 0x7FF8_0000_0000_0000;

/// Positive zero.
pub const ZERO_BITS: u64 = 0;

/// The pattern with the sign bit cleared: the magnitude.
pub open spec fn spec_abs_bits(a: u64) -> u64 {
    a & ABS_MASK
}

/// NaN: exponent bits all set and fraction nonzero, i.e. magnitude above
/// the infinity pattern.
pub open spec fn spec_is_nan(a: u64) -> bool {
    (a & ABS_MASK) > EXP_MASK
}

/// NaN or an infinity: exponent bits all set.
pub open spec fn spec_is_non_finite(a: u64) -> bool {
    (a & ABS_MASK) >= EXP_MASK
}

/// Positive or negative zero.
pub open spec fn spec_is_zero(a: u64) -> bool {
    a & ABS_MASK == 0
}

pub open spec fn spec_sign(a: u64) -> bool {
    a & SIGN_MASK != 0
}

/// IEEE 754 `<` on two patterns: false when either is NaN, the two zeros are
/// equal, otherwise sign-magnitude order.
pub open spec fn spec_lt(a: u64, b: u64) -> bool {
    if spec_is_nan(a) || spec_is_nan(b) {
        false
    } else if spec_is_zero(a) && spec_is_zero(b) {
        false
    } else if spec_sign(a) != spec_sign(b) {
        spec_sign(a)
    } else if !spec_sign(a) {
        spec_abs_bits(a) < spec_abs_bits(b)
    } else {
        spec_abs_bits(a) > spec_abs_bits(b)
    }
}

pub open spec fn spec_gt(a: u64, b: u64) -> bool {
    spec_lt(b, a)
}

/// IEEE 754 `==` on two patterns: false when either is NaN, the two zeros are
/// equal, otherwise the patterns must coincide.
pub open spec fn spec_eq(a: u64, b: u64) -> bool {
    if spec_is_nan(a) || spec_is_nan(b) {
        false
    } else {
        a == b || (spec_is_zero(a) && spec_is_zero(b))
    }
}

/// The larger of two patterns, NaN ignored in favour of the other operand;
/// ties (equal values, in particular the two zeros) keep the left operand.
pub open spec fn spec_max(a: u64, b: u64) -> u64 {
    if spec_is_nan(a) {
        b
    } else if spec_is_nan(b) {
        a
    } else if spec_lt(a, b) {
        b
    } else {
        a
    }
}

pub fn abs_bits(a: u64) -> (r: u64)
    ensures
        r == spec_abs_bits(a),
{
    a & ABS_MASK
}

pub fn is_nan(a: u64) -> (r: bool)
    ensures
        r == spec_is_nan(a),
{
    (a & ABS_MASK) > EXP_MASK
}

pub fn is_non_finite(a: u64) -> (r: bool)
    ensures
        r == spec_is_non_finite(a),
{
    (a & ABS_MASK) >= EXP_MASK
}

pub fn is_zero(a: u64) -> (r: bool)
    ensures
        r == spec_is_zero(a),
{
    a & ABS_MASK == 0
}

pub fn lt(a: u64, b: u64) -> (r: bool)
    ensures
        r == spec_lt(a, b),
{
    if is_nan(a) || is_nan(b) {
        false
    } else if is_zero(a) && is_zero(b) {
        false
    } else {
        let sa: bool = a & SIGN_MASK != 0;
        let sb: bool = b & SIGN_MASK != 0;
        if sa != sb {
            sa
        } else if !sa {
            (a & ABS_MASK) < (b & ABS_MASK)
        } else {
            (a & ABS_MASK) > (b & ABS_MASK)
        }
    }
}

pub fn gt(a: u64, b: u64) -> (r: bool)
    ensures
        r == spec_gt(a, b),
{
    lt(b, a)
}

pub fn eq_value(a: u64, b: u64) -> (r: bool)
    ensures
        r == spec_eq(a, b),
{
    if is_nan(a) || is_nan(b) {
        false
    } else {
        a == b || (is_zero(a) && is_zero(b))
    }
}

pub fn max_value(a: u64, b: u64) -> (r: u64)
    ensures
        r == spec_max(a, b),
{
    if is_nan(a) {
        b
    } else if is_nan(b) {
        a
    } else if lt(a, b) {
        b
    } else {
        a
    }
}

/// Index of the highest set bit; 0 for inputs 0 and 1.
pub open spec fn spec_msb(n: nat) -> nat
    decreases n,
{
    if n < 2 {
        0
    } else {
        1 + spec_msb(n / 2)
    }
}

fn msb_index(n: u64) -> (k: u64)
    ensures
        k == spec_msb(n as nat),
        k <= 63,
    decreases n,
{
    if n < 2 {
        0
    } else {
        let rest: u64 = msb_index(n / 2);
        assert(rest <= 62) by {
            assert(spec_msb((n / 2) as nat) <= 62) by {
                lemma_msb_small((n / 2) as nat);
            }
        }
        1 + rest
    }
}

proof fn lemma_msb_small(n: nat)
    requires
        n < 0x8000_0000_0000_0000,
    ensures
        spec_msb(n) <= 62,
{
    assert(pow2_spec(63) == 0x8000_0000_0000_0000) by {
        reveal_with_fuel(pow2_spec, 64);
    }
    lemma_msb_below(n, 63);
}

proof fn lemma_msb_below(n: nat, b: nat)
    requires
        b >= 1,
        n < pow2_spec(b),
    ensures
        spec_msb(n) <= b - 1,
    decreases n,
{
    if n >= 2 {
        assert(pow2_spec(b) == 2 * pow2_spec((b - 1) as nat));
        lemma_msb_below(n / 2, (b - 1) as nat);
    }
}

pub open spec fn pow2_spec(k: nat) -> nat
    decreases k,
{
    if k == 0 {
        1
    } else {
        2 * pow2_spec((k - 1) as nat)
    }
}

/// The double-precision encoding of an unsigned 64-bit integer, rounded to
/// nearest with ties to even: the written-out form of what a widening
/// integer-to-double cast produces.
pub open spec fn spec_f64_of_u64(n: u64) -> u64 {
    if n == 0 {
        0u64
    } else {
        let k = spec_msb(n as nat) as u64;
        if k <= 52 {
            (((1023 + k) as u64) << 52u64) | ((n << ((52 - k) as u64)) & FRAC_MASK)
        } else {
            let shift = (k - 52) as u64;
            let q = n >> shift;
            let r = n & (((1u64 << shift) - 1) as u64);
            let half = 1u64 << ((shift - 1) as u64);
            let round_up = r > half || (r == half && q & 1 == 1);
            let q2 = if round_up {
                (q + 1) as u64
            } else {
                q
            };
            if q2 == 1u64 << 53u64 {
                (((1024 + k) as u64) << 52u64)
            } else {
                (((1023 + k) as u64) << 52u64) | (q2 & FRAC_MASK)
            }
        }
    }
}

pub fn f64_of_u64(n: u64) -> (bits: u64)
    ensures
        bits == spec_f64_of_u64(n),
{
    if n == 0 {
        0u64
    } else {
        let k: u64 = msb_index(n);
        if k <= 52 {
            ((1023 + k) << 52u64) | ((n << (52 - k)) & FRAC_MASK)
        } else {
            let shift: u64 = k - 52;
            let q: u64 = n >> shift;
            assert(1u64 << shift >= 1) by (bit_vector)
                requires
                    1 <= shift < 64,
            ;
            let r: u64 = n & ((1u64 << shift) - 1);
            let half: u64 = 1u64 << (shift - 1);
            let round_up: bool = r > half || (r == half && q & 1 == 1);
            assert(q < 0xFFFF_FFFF_FFFF_FFFF) by (bit_vector)
                requires
                    1 <= shift < 64,
                    q == n >> shift,
            ;
            let q2: u64 = if round_up {
                q + 1
            } else {
                q
            };
            if q2 == 1u64 << 53u64 {
                (1024 + k) << 52u64
            } else {
                ((1023 + k) << 52u64) | (q2 & FRAC_MASK)
            }
        }
    }
}

/// The encoding of a signed integer: the magnitude's encoding with the sign
/// bit set for negative inputs (the magnitude of the smallest value still
/// fits unsigned).
pub open spec fn spec_f64_of_i64(n: i64) -> u64 {
    if n >= 0 {
        spec_f64_of_u64(n as u64)
    } else {
        spec_f64_of_u64((-(n as int)) as u64) | SIGN_MASK
    }
}

pub fn f64_of_i64(n: i64) -> (bits: u64)
    ensures
        bits == spec_f64_of_i64(n),
{
    if n >= 0 {
        f64_of_u64(n as u64)
    } else if n == i64::MIN {
        f64_of_u64(0x8000_0000_0000_0000u64) | SIGN_MASK
    } else {
        f64_of_u64((-n) as u64) | SIGN_MASK
    }
}

/// The NaN pattern is indeed a NaN, and zero is not.
pub proof fn lemma_nan_pattern()
    ensures
        spec_is_nan(NAN_BITS),
        !spec_is_nan(ZERO_BITS),
        spec_is_zero(ZERO_BITS),
{
    assert((NAN_BITS & ABS_MASK) > EXP_MASK) by (bit_vector);
    assert((ZERO_BITS & ABS_MASK) == 0) by (bit_vector);
    assert(EXP_MASK > 0) by (bit_vector);
}

} // verus!
