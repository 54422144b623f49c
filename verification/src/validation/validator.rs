//! The validation layer gating every `calculate` call.
//!
//! Two sub-checks always run in this order: the candle contract (required
//! fields present, then one common length), and the ordered parameter rules.
//! The first failing check is the one reported; message texts are part of
//! the observable contract and are pinned literally.

use vstd::prelude::*;
use vstd::string::StringExecFns;
use crate::models::data::{spec_bar_field_name, spec_field, BarField, InputData};
use crate::models::indicator::{err_view, IndicatorError, SpecError};
use crate::params::{spec_as_i64, spec_map_get, Params, ParamValue};
use crate::strutil::{dec_str, i64_to_string, int_str, u64_to_string};

verus! {

/// One declarative parameter rule: the rule kind plus the parameter and
/// field names it closes over, interpreted by one generic evaluator.
pub enum ParamRule {
    /// The key must exist in the parameter set.
    Required(&'static str),
    /// The value must read as an integer strictly above zero.
    PositiveInteger(&'static str),
    /// The left value must be strictly below the right one.
    CorrectPeriod { left: &'static str, right: &'static str },
    /// The value must be strictly below a fixed bound.
    LessThanData { param: &'static str, data_len: i64 },
    /// The value must not exceed the length of the named candle field.
    WithinDataLength { param: &'static str, field: BarField },
}

pub open spec fn msg_missing_field(f: BarField) -> Seq<char> {
    "Field '"@ + spec_bar_field_name(f) + "' is required but missing."@
}

pub open spec fn msg_empty_input() -> Seq<char> {
    "Empty input."@
}

pub open spec fn msg_unequal_lengths() -> Seq<char> {
    "Input data series of the bars must have the same length."@
}

pub open spec fn msg_param_missing(p: Seq<char>) -> Seq<char> {
    "Parameter '"@ + p + "' does not exist"@
}

pub open spec fn msg_positive_integer(p: Seq<char>) -> Seq<char> {
    "Parameter '"@ + p + "' must be a positive integer"@
}

pub open spec fn msg_period_order(l: Seq<char>, r: Seq<char>) -> Seq<char> {
    "Parameter '"@ + l + "' must be less than '"@ + r + "'"@
}

pub open spec fn msg_less_than_bound(p: Seq<char>, n: int) -> Seq<char> {
    "Parameter '"@ + p + "' must be less than "@ + int_str(n) + "."@
}

pub open spec fn msg_not_a_number(p: Seq<char>) -> Seq<char> {
    "Parameter '"@ + p + "' must be a number."@
}

pub open spec fn msg_wrong_length(p: Seq<char>, v: int, bound: nat) -> Seq<char> {
    "Wrong parameter length. '"@ + p + "' > data length. ("@ + int_str(v) + " > "@ + dec_str(
        bound,
    ) + ")"@
}

/// First required field with no series, front to back.
pub open spec fn spec_first_missing(fields: Seq<BarField>, d: InputData) -> Option<BarField>
    decreases fields.len(),
{
    if fields.len() == 0 {
        Option::None
    } else if spec_field(d, fields[0]) is None {
        Option::Some(fields[0])
    } else {
        spec_first_missing(fields.skip(1), d)
    }
}

/// Some required field has a series.
pub open spec fn spec_any_present(fields: Seq<BarField>, d: InputData) -> bool {
    exists|i: int| 0 <= i < fields.len() && spec_field(d, fields[i]) is Some
}

/// Every two required fields with a series agree on its length.
pub open spec fn spec_all_same_length(fields: Seq<BarField>, d: InputData) -> bool {
    forall|i: int, j: int|
        0 <= i < fields.len() && 0 <= j < fields.len() && spec_field(d, fields[i]) is Some
            && spec_field(d, fields[j]) is Some ==> spec_field(d, fields[i])->Some_0.len()
            == spec_field(d, fields[j])->Some_0.len()
}

/// Outcome of the common-length check alone.
pub open spec fn spec_length_error(fields: Seq<BarField>, d: InputData) -> Option<SpecError> {
    if !spec_any_present(fields, d) {
        Option::Some(SpecError::Input(msg_empty_input()))
    } else if !spec_all_same_length(fields, d) {
        Option::Some(SpecError::Input(msg_unequal_lengths()))
    } else {
        Option::None
    }
}

/// Outcome of the candle contract: presence first, then one common length.
pub open spec fn spec_candle_error(fields: Seq<BarField>, d: InputData) -> Option<SpecError> {
    match spec_first_missing(fields, d) {
        Option::Some(f) => Option::Some(SpecError::Input(msg_missing_field(f))),
        Option::None => spec_length_error(fields, d),
    }
}

/// Outcome of one parameter rule against the parameter mapping and the candle.
pub open spec fn spec_rule_error(
    rule: ParamRule,
    pm: Map<Seq<char>, ParamValue>,
    d: InputData,
) -> Option<SpecError> {
    match rule {
        ParamRule::Required(p) => if spec_map_get(pm, p@) is None {
            Option::Some(SpecError::Params(msg_param_missing(p@)))
        } else {
            Option::None
        },
        ParamRule::PositiveInteger(p) => match spec_get_i64(pm, p@) {
            Option::Some(v) => if v > 0 {
                Option::None
            } else {
                Option::Some(SpecError::Params(msg_positive_integer(p@)))
            },
            Option::None => Option::Some(SpecError::Params(msg_positive_integer(p@))),
        },
        ParamRule::CorrectPeriod { left, right } => match spec_get_i64(pm, left@) {
            Option::Some(lv) => match spec_get_i64(pm, right@) {
                Option::Some(rv) => if lv < rv {
                    Option::None
                } else {
                    Option::Some(SpecError::Params(msg_period_order(left@, right@)))
                },
                Option::None => Option::Some(SpecError::Params(msg_positive_integer(right@))),
            },
            Option::None => Option::Some(SpecError::Params(msg_positive_integer(left@))),
        },
        ParamRule::LessThanData { param, data_len } => match spec_get_i64(pm, param@) {
            Option::Some(v) => if v < data_len {
                Option::None
            } else {
                Option::Some(SpecError::Params(msg_less_than_bound(param@, data_len as int)))
            },
            Option::None => Option::Some(SpecError::Params(msg_not_a_number(param@))),
        },
        ParamRule::WithinDataLength { param, field } => match spec_field(d, field) {
            Option::Some(s) => match spec_get_i64(pm, param@) {
                Option::Some(v) => if v > s.len() {
                    Option::Some(SpecError::Params(msg_wrong_length(param@, v as int, s.len())))
                } else {
                    Option::None
                },
                Option::None => Option::Some(SpecError::Params(msg_positive_integer(param@))),
            },
            Option::None => Option::None,
        },
    }
}

pub open spec fn spec_get_i64(pm: Map<Seq<char>, ParamValue>, name: Seq<char>) -> Option<i64> {
    match spec_map_get(pm, name) {
        Option::Some(v) => spec_as_i64(v),
        Option::None => Option::None,
    }
}

/// Outcome of the ordered rule list: the first violated rule is reported.
pub open spec fn spec_rules_error(
    rules: Seq<ParamRule>,
    pm: Map<Seq<char>, ParamValue>,
    d: InputData,
) -> Option<SpecError>
    decreases rules.len(),
{
    if rules.len() == 0 {
        Option::None
    } else {
        match spec_rule_error(rules[0], pm, d) {
            Option::Some(e) => Option::Some(e),
            Option::None => spec_rules_error(rules.skip(1), pm, d),
        }
    }
}

/// Outcome of the whole validation run: a candle-contract violation is reported even
/// when parameters are also invalid.
pub open spec fn spec_validate(
    fields: Seq<BarField>,
    rules: Seq<ParamRule>,
    pm: Map<Seq<char>, ParamValue>,
    d: InputData,
) -> Option<SpecError> {
    match spec_candle_error(fields, d) {
        Option::Some(e) => Option::Some(e),
        Option::None => spec_rules_error(rules, pm, d),
    }
}

/// A passed presence check means every required field has a series.
pub proof fn lemma_all_present(fields: Seq<BarField>, d: InputData)
    requires
        spec_first_missing(fields, d) is None,
    ensures
        forall|i: int| 0 <= i < fields.len() ==> spec_field(d, fields[i]) is Some,
    decreases fields.len(),
{
    if fields.len() > 0 {
        lemma_all_present(fields.skip(1), d);
        assert forall|i: int| 0 <= i < fields.len() implies spec_field(d, fields[i]) is Some by {
            if i > 0 {
                assert(fields.skip(1)[i - 1] == fields[i]);
            }
        }
    }
}

/// View of a unit result as the optional error it carries.
pub open spec fn unit_err(r: Result<(), IndicatorError>) -> Option<SpecError> {
    match r {
        Result::Ok(u) => Option::None,
        Result::Err(e) => Option::Some(err_view(e)),
    }
}

pub struct CandleValidator {
    pub required_fields: Vec<BarField>,
}

pub struct ParameterValidator {
    pub param_rules: Vec<ParamRule>,
}

pub struct Validator {
    candle_validator: CandleValidator,
    parameter_validator: ParameterValidator,
}

fn build_missing_field_message(field: &BarField) -> (s: String)
    ensures
        s@ == msg_missing_field(*field),
{
    String::from_str("Field '").concat(field.to_str()).concat("' is required but missing.")
}

impl CandleValidator {
    fn is_field_missing(data: &InputData, field: &BarField) -> (r: bool)
        ensures
            r == (spec_field(*data, *field) is None),
    {
        data.get_by_bar_field(field).is_none()
    }

    fn validate_required_fields_presence(&self, data: &InputData) -> (r: Result<
        (),
        IndicatorError,
    >)
        ensures
            unit_err(r) == match spec_first_missing(self.required_fields@, *data) {
                Option::Some(f) => Option::Some(SpecError::Input(msg_missing_field(f))),
                Option::None => Option::None::<SpecError>,
            },
    {
        let n: usize = self.required_fields.len();
        let mut i: usize = 0;
        proof {
            assert(self.required_fields@.skip(0) =~= self.required_fields@);
        }
        while i < n
            invariant
                i <= n,
                n == self.required_fields.len(),
                spec_first_missing(self.required_fields@.skip(i as int), *data)
                    == spec_first_missing(self.required_fields@, *data),
            decreases n - i,
        {
            proof {
                assert(self.required_fields@.skip(i as int)[0] == self.required_fields@[i as int]);
                assert(self.required_fields@.skip(i as int).skip(1) =~= self.required_fields@.skip(
                    i as int + 1,
                ));
            }
            let field = &self.required_fields[i];
            if CandleValidator::is_field_missing(data, field) {
                let field_missing_error = build_missing_field_message(field);
                return Err(IndicatorError::InvalidInput(field_missing_error));
            }
            i = i + 1;
        }
        proof {
            assert(self.required_fields@.skip(n as int).len() == 0);
        }
        Ok(())
    }

    fn validate_same_length(&self, data: &InputData) -> (r: Result<(), IndicatorError>)
        ensures
            unit_err(r) == spec_length_error(self.required_fields@, *data),
    {
        let n: usize = self.required_fields.len();
        let mut i: usize = 0;
        let mut first_len: Option<usize> = None;
        while i < n
            invariant
                i <= n,
                n == self.required_fields.len(),
                match first_len {
                    Option::Some(l0) => {
                        &&& exists|k: int|
                            0 <= k < i && spec_field(*data, self.required_fields@[k]) is Some
                        &&& forall|k: int|
                            0 <= k < i && spec_field(*data, self.required_fields@[k]) is Some
                                ==> spec_field(*data, self.required_fields@[k])->Some_0.len()
                                == l0 as nat
                    },
                    Option::None => forall|k: int|
                        0 <= k < i ==> spec_field(*data, self.required_fields@[k]) is None,
                },
            decreases n - i,
        {
            let field = &self.required_fields[i];
            match data.get_by_bar_field(field) {
                Some(series) => {
                    let len: usize = series.len();
                    match first_len {
                        Some(l0) => {
                            if len != l0 {
                                return Err(
                                    IndicatorError::InvalidInput(
                                        String::from_str(
                                            "Input data series of the bars must have the same length.",
                                        ),
                                    ),
                                );
                            }
                        },
                        None => {
                            first_len = Some(len);
                        },
                    }
                },
                None => {},
            }
            i = i + 1;
        }
        match first_len {
            Some(l0) => Ok(()),
            None => Err(IndicatorError::InvalidInput(String::from_str("Empty input."))),
        }
    }

    /// The candle contract: every required field present, then all required
    /// fields sharing one common length, the first violation reported.
    pub fn validate_candle(&self, data: &InputData) -> (r: Result<(), IndicatorError>)
        ensures
            unit_err(r) == spec_candle_error(self.required_fields@, *data),
    {
        self.validate_required_fields_presence(data)?;
        self.validate_same_length(data)?;
        Ok(())
    }
}

fn build_param_missing_message(param_name: &str) -> (s: String)
    ensures
        s@ == msg_param_missing(param_name@),
{
    String::from_str("Parameter '").concat(param_name).concat("' does not exist")
}

fn build_positive_integer_message(param_name: &str) -> (s: String)
    ensures
        s@ == msg_positive_integer(param_name@),
{
    String::from_str("Parameter '").concat(param_name).concat("' must be a positive integer")
}

fn build_period_order_message(left: &str, right: &str) -> (s: String)
    ensures
        s@ == msg_period_order(left@, right@),
{
    String::from_str("Parameter '").concat(left).concat("' must be less than '").concat(
        right,
    ).concat("'")
}

fn build_less_than_bound_message(param_name: &str, bound: i64) -> (s: String)
    ensures
        s@ == msg_less_than_bound(param_name@, bound as int),
{
    let rendered = i64_to_string(bound);
    String::from_str("Parameter '").concat(param_name).concat("' must be less than ").concat(
        rendered.as_str(),
    ).concat(".")
}

fn build_not_a_number_message(param_name: &str) -> (s: String)
    ensures
        s@ == msg_not_a_number(param_name@),
{
    String::from_str("Parameter '").concat(param_name).concat("' must be a number.")
}

fn build_wrong_length_message(param_name: &str, value: i64, bound: usize) -> (s: String)
    ensures
        s@ == msg_wrong_length(param_name@, value as int, bound as nat),
{
    let value_rendered = i64_to_string(value);
    let bound_rendered = u64_to_string(bound as u64);
    String::from_str("Wrong parameter length. '").concat(param_name).concat(
        "' > data length. (",
    ).concat(value_rendered.as_str()).concat(" > ").concat(bound_rendered.as_str()).concat(")")
}

impl ParameterValidator {
    fn validate_required_param(&self, params: &Params, param_name: &str) -> (r: Result<
        (),
        IndicatorError,
    >)
        ensures
            unit_err(r) == if spec_map_get(params@, param_name@) is None {
                Option::Some(SpecError::Params(msg_param_missing(param_name@)))
            } else {
                Option::None::<SpecError>
            },
    {
        if params.get(param_name).is_none() {
            Err(IndicatorError::InvalidParameters(build_param_missing_message(param_name)))
        } else {
            Ok(())
        }
    }

    fn validate_positive_integer_param(&self, params: &Params, param_name: &str) -> (r: Result<
        (),
        IndicatorError,
    >)
        ensures
            unit_err(r) == match spec_get_i64(params@, param_name@) {
                Option::Some(v) => if v > 0 {
                    Option::None::<SpecError>
                } else {
                    Option::Some(SpecError::Params(msg_positive_integer(param_name@)))
                },
                Option::None => Option::Some(SpecError::Params(msg_positive_integer(param_name@))),
            },
    {
        if let Some(value) = params.get_i64(param_name) {
            if value > 0 {
                Ok(())
            } else {
                Err(IndicatorError::InvalidParameters(build_positive_integer_message(param_name)))
            }
        } else {
            Err(IndicatorError::InvalidParameters(build_positive_integer_message(param_name)))
        }
    }

    fn validate_correct_period(&self, params: &Params, left: &str, right: &str) -> (r: Result<
        (),
        IndicatorError,
    >)
        ensures
            unit_err(r) == match spec_get_i64(params@, left@) {
                Option::Some(lv) => match spec_get_i64(params@, right@) {
                    Option::Some(rv) => if lv < rv {
                        Option::None::<SpecError>
                    } else {
                        Option::Some(SpecError::Params(msg_period_order(left@, right@)))
                    },
                    Option::None => Option::Some(
                        SpecError::Params(msg_positive_integer(right@)),
                    ),
                },
                Option::None => Option::Some(SpecError::Params(msg_positive_integer(left@))),
            },
    {
        if let Some(left_number) = params.get_i64(left) {
            if let Some(right_number) = params.get_i64(right) {
                if left_number < right_number {
                    Ok(())
                } else {
                    Err(IndicatorError::InvalidParameters(build_period_order_message(left, right)))
                }
            } else {
                Err(IndicatorError::InvalidParameters(build_positive_integer_message(right)))
            }
        } else {
            Err(IndicatorError::InvalidParameters(build_positive_integer_message(left)))
        }
    }

    fn validate_less_than_data(&self, params: &Params, param_name: &str, data_len: i64) -> (r:
        Result<(), IndicatorError>)
        ensures
            unit_err(r) == match spec_get_i64(params@, param_name@) {
                Option::Some(v) => if v < data_len {
                    Option::None::<SpecError>
                } else {
                    Option::Some(
                        SpecError::Params(msg_less_than_bound(param_name@, data_len as int)),
                    )
                },
                Option::None => Option::Some(SpecError::Params(msg_not_a_number(param_name@))),
            },
    {
        if let Some(value) = params.get_i64(param_name) {
            if value < data_len {
                Ok(())
            } else {
                Err(
                    IndicatorError::InvalidParameters(
                        build_less_than_bound_message(param_name, data_len),
                    ),
                )
            }
        } else {
            Err(IndicatorError::InvalidParameters(build_not_a_number_message(param_name)))
        }
    }

    fn validate_within_data_length(
        &self,
        params: &Params,
        data: &InputData,
        param_name: &str,
        field: &BarField,
    ) -> (r: Result<(), IndicatorError>)
        ensures
            unit_err(r) == spec_rule_error(
                ParamRule::WithinDataLength { param: param_name, field: *field },
                params@,
                *data,
            ),
    {
        match data.get_by_bar_field(field) {
            Some(series) => {
                let len: usize = series.len();
                match params.get_i64(param_name) {
                    Some(value) => {
                        if value > 0 && (value as u64) > (len as u64) {
                            Err(
                                IndicatorError::InvalidParameters(
                                    build_wrong_length_message(param_name, value, len),
                                ),
                            )
                        } else {
                            Ok(())
                        }
                    },
                    None => Err(
                        IndicatorError::InvalidParameters(
                            build_positive_integer_message(param_name),
                        ),
                    ),
                }
            },
            None => Ok(()),
        }
    }

    fn validate_params(&self, params: &Params, data: &InputData) -> (r: Result<
        (),
        IndicatorError,
    >)
        ensures
            unit_err(r) == spec_rules_error(self.param_rules@, params@, *data),
    {
        let n: usize = self.param_rules.len();
        let mut i: usize = 0;
        proof {
            assert(self.param_rules@.skip(0) =~= self.param_rules@);
        }
        while i < n
            invariant
                i <= n,
                n == self.param_rules.len(),
                spec_rules_error(self.param_rules@.skip(i as int), params@, *data)
                    == spec_rules_error(self.param_rules@, params@, *data),
            decreases n - i,
        {
            proof {
                assert(self.param_rules@.skip(i as int)[0] == self.param_rules@[i as int]);
                assert(self.param_rules@.skip(i as int).skip(1) =~= self.param_rules@.skip(
                    i as int + 1,
                ));
            }
            let step: Result<(), IndicatorError> = match &self.param_rules[i] {
                ParamRule::Required(param_name) => self.validate_required_param(
                    params,
                    param_name,
                ),
                ParamRule::PositiveInteger(param_name) => self.validate_positive_integer_param(
                    params,
                    param_name,
                ),
                ParamRule::CorrectPeriod { left, right } => self.validate_correct_period(
                    params,
                    left,
                    right,
                ),
                ParamRule::LessThanData { param, data_len } => self.validate_less_than_data(
                    params,
                    param,
                    *data_len,
                ),
                ParamRule::WithinDataLength { param, field } => self.validate_within_data_length(
                    params,
                    data,
                    param,
                    field,
                ),
            };
            match step {
                Ok(u) => {},
                Err(e) => {
                    return Err(e);
                },
            }
            i = i + 1;
        }
        proof {
            assert(self.param_rules@.skip(n as int).len() == 0);
        }
        Ok(())
    }
}

impl Validator {
    pub closed spec fn spec_fields(&self) -> Seq<BarField> {
        self.candle_validator.required_fields@
    }

    pub closed spec fn spec_rules(&self) -> Seq<ParamRule> {
        self.parameter_validator.param_rules@
    }

    pub fn new(required_fields: Vec<BarField>, param_rules: Vec<ParamRule>) -> (v: Validator)
        ensures
            v.spec_fields() == required_fields@,
            v.spec_rules() == param_rules@,
    {
        Validator {
            candle_validator: CandleValidator { required_fields },
            parameter_validator: ParameterValidator { param_rules },
        }
    }

    /// The candle contract alone.
    pub fn validate_data(&self, data: &InputData) -> (r: Result<(), IndicatorError>)
        ensures
            unit_err(r) == spec_candle_error(self.spec_fields(), *data),
    {
        self.candle_validator.validate_candle(data)?;
        Ok(())
    }

    /// The parameter rules alone.
    pub fn validate_params(&self, data: &InputData, params: &Params) -> (r: Result<
        (),
        IndicatorError,
    >)
        ensures
            unit_err(r) == spec_rules_error(self.spec_rules(), params@, *data),
    {
        self.parameter_validator.validate_params(params, data)?;
        Ok(())
    }

    /// The whole validation run: candle contract first, then the ordered rules.
    pub fn validate(&self, data: &InputData, params: &Params) -> (r: Result<(), IndicatorError>)
        ensures
            unit_err(r) == spec_validate(self.spec_fields(), self.spec_rules(), params@, *data),
    {
        self.candle_validator.validate_candle(data)?;
        self.parameter_validator.validate_params(params, data)?;
        Ok(())
    }
}

} // verus!
