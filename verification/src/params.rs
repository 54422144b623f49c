//! The loosely-typed parameter value handed to `calculate`: string keys
//! mapped to numeric values, as a decoded structured value would carry them.

use vstd::prelude::*;
use vstd::string::StringExecFns;
use crate::strutil::str_eq;

verus! {

/// One parameter value: an integer, a non-integer number carried as its
/// double bit pattern, or a value of some other, non-numeric shape.
#[derive(Clone, Copy, Debug, PartialEq, Eq, Structural)]
pub enum ParamValue {
    Int(i64),
    Num(u64),
    Other,
}

/// The integer reading of a value: integers read as themselves, everything
/// else does not read as an integer.
pub open spec fn spec_as_i64(v: ParamValue) -> Option<i64> {
    match v {
        ParamValue::Int(i) => Option::Some(i),
        _ => Option::None,
    }
}

/// The mapping the entry list denotes: entries apply front to back, a later
/// entry overriding an earlier one of the same name.
pub open spec fn spec_params_map(entries: Seq<(String, ParamValue)>) -> Map<Seq<char>, ParamValue>
    decreases entries.len(),
{
    if entries.len() == 0 {
        Map::empty()
    } else {
        spec_params_map(entries.drop_last()).insert(entries.last().0@, entries.last().1)
    }
}

/// The value a mapping holds under a name, if any.
pub open spec fn spec_map_get(pm: Map<Seq<char>, ParamValue>, name: Seq<char>) -> Option<
    ParamValue,
> {
    if pm.dom().contains(name) {
        Option::Some(pm[name])
    } else {
        Option::None
    }
}

/// A structured parameter set.
pub struct Params {
    entries: Vec<(String, ParamValue)>,
}

impl Params {
    /// The mapping this parameter set denotes.
    pub closed spec fn view(&self) -> Map<Seq<char>, ParamValue> {
        spec_params_map(self.entries@)
    }

    pub fn empty() -> (r: Params)
        ensures
            r@ == Map::<Seq<char>, ParamValue>::empty(),
    {
        Params { entries: Vec::new() }
    }

    /// Binds `name` to `value`, overriding any earlier binding.
    pub fn set(&mut self, name: &str, value: ParamValue)
        ensures
            final(self)@ == old(self)@.insert(name@, value),
    {
        let owned: String = String::from_str(name);
        self.entries.push((owned, value));
        proof {
            assert(self.entries@.drop_last() =~= old(self).entries@);
        }
    }

    /// The value bound to `name`, if any.
    pub fn get(&self, name: &str) -> (r: Option<ParamValue>)
        ensures
            r == spec_map_get(self@, name@),
    {
        let n: usize = self.entries.len();
        let mut found: Option<ParamValue> = None;
        let mut i: usize = 0;
        proof {
            assert(self.entries@.take(0) =~= Seq::<(String, ParamValue)>::empty());
        }
        while i < n
            invariant
                i <= n,
                n == self.entries.len(),
                found == spec_map_get(spec_params_map(self.entries@.take(i as int)), name@),
            decreases n - i,
        {
            proof {
                assert(self.entries@.take(i as int + 1).drop_last() =~= self.entries@.take(
                    i as int,
                ));
                assert(self.entries@.take(i as int + 1).last() == self.entries@[i as int]);
            }
            if str_eq(self.entries[i].0.as_str(), name) {
                found = Some(self.entries[i].1);
            }
            i = i + 1;
        }
        proof {
            assert(self.entries@.take(n as int) =~= self.entries@);
        }
        found
    }

    /// The integer bound to `name`: present and of integer shape.
    pub fn get_i64(&self, name: &str) -> (r: Option<i64>)
        ensures
            r == match spec_map_get(self@, name@) {
                Option::Some(v) => spec_as_i64(v),
                Option::None => Option::None::<i64>,
            },
    {
        match self.get(name) {
            Some(ParamValue::Int(i)) => Some(i),
            _ => None,
        }
    }
}

/// The parameter value an unsigned integer presents for rule checking: its
/// signed reading where it fits, otherwise a value of non-integer shape.
pub open spec fn spec_usize_value(n: usize) -> ParamValue {
    if n <= i64::MAX {
        ParamValue::Int(n as i64)
    } else {
        ParamValue::Other
    }
}

pub fn usize_value(n: usize) -> (r: ParamValue)
    ensures
        r == spec_usize_value(n),
{
    if (n as u64) <= (i64::MAX as u64) {
        ParamValue::Int(n as i64)
    } else {
        ParamValue::Other
    }
}

/// Decode diagnostic for a field that must carry an unsigned integer.
pub open spec fn msg_bad_unsigned(name: Seq<char>) -> Seq<char> {
    "Parameter '"@ + name + "' does not decode as an unsigned integer"@
}

/// Decode diagnostic for a field that must carry a number.
pub open spec fn msg_bad_number(name: Seq<char>) -> Seq<char> {
    "Parameter '"@ + name + "' does not decode as a number"@
}

/// Decoding of one unsigned-integer schema field: an absent key takes the
/// declared default, an integer in range is taken as is, anything else fails
/// atomically with a diagnostic.
pub open spec fn spec_decode_usize(
    pm: Map<Seq<char>, ParamValue>,
    name: Seq<char>,
    default: usize,
) -> Result<usize, Seq<char>> {
    match spec_map_get(pm, name) {
        Option::None => Result::Ok(default),
        Option::Some(v) => match v {
            ParamValue::Int(i) => if 0 <= i <= usize::MAX {
                Result::Ok(i as usize)
            } else {
                Result::Err(msg_bad_unsigned(name))
            },
            _ => Result::Err(msg_bad_unsigned(name)),
        },
    }
}

/// Decoding of one double schema field: an absent key takes the declared
/// default, an integer is widened, a number is taken as is, anything else
/// fails atomically with a diagnostic.
pub open spec fn spec_decode_f64_bits(
    pm: Map<Seq<char>, ParamValue>,
    name: Seq<char>,
    default_bits: u64,
) -> Result<u64, Seq<char>> {
    match spec_map_get(pm, name) {
        Option::None => Result::Ok(default_bits),
        Option::Some(v) => match v {
            ParamValue::Int(i) => Result::Ok(crate::ieee::spec_f64_of_i64(i)),
            ParamValue::Num(b) => Result::Ok(b),
            _ => Result::Err(msg_bad_number(name)),
        },
    }
}

pub fn decode_usize(params: &Params, name: &str, default: usize) -> (r: Result<usize, String>)
    ensures
        match r {
            Result::Ok(v) => spec_decode_usize(params@, name@, default) == Result::<
                usize,
                Seq<char>,
            >::Ok(v),
            Result::Err(m) => spec_decode_usize(params@, name@, default) == Result::<
                usize,
                Seq<char>,
            >::Err(m@),
        },
{
    match params.get(name) {
        None => Ok(default),
        Some(ParamValue::Int(i)) => {
            if i >= 0 && (i as u64) <= (usize::MAX as u64) {
                Ok(i as usize)
            } else {
                Err(
                    String::from_str("Parameter '").concat(name).concat(
                        "' does not decode as an unsigned integer",
                    ),
                )
            }
        },
        Some(_) => Err(
            String::from_str("Parameter '").concat(name).concat(
                "' does not decode as an unsigned integer",
            ),
        ),
    }
}

pub fn decode_f64_bits(params: &Params, name: &str, default_bits: u64) -> (r: Result<u64, String>)
    ensures
        match r {
            Result::Ok(v) => spec_decode_f64_bits(params@, name@, default_bits) == Result::<
                u64,
                Seq<char>,
            >::Ok(v),
            Result::Err(m) => spec_decode_f64_bits(params@, name@, default_bits) == Result::<
                u64,
                Seq<char>,
            >::Err(m@),
        },
{
    match params.get(name) {
        None => Ok(default_bits),
        Some(ParamValue::Int(i)) => Ok(crate::ieee::f64_of_i64(i)),
        Some(ParamValue::Num(b)) => Ok(b),
        Some(ParamValue::Other) => Err(
            String::from_str("Parameter '").concat(name).concat("' does not decode as a number"),
        ),
    }
}

} // verus!
