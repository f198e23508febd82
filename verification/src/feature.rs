//! The field-extraction and type-coercion pipeline: the three-way field
//! outcome, the typed conversions over it, the declared-fields contract a
//! target type supplies, and the single-record and whole-layer decoders.

use vstd::prelude::*;
use vstd::string::StringExecFns;

use crate::value::{spec_tag_name, tag_name, Date, DateTime, FieldValue, FieldValueModel, Geometry};
use crate::{GdalTraitError, GdalTraitErrorModel};

verus! {

/// The retrieval result of one named field from one record.
///
/// `Value(...)` - success, with the field's raw value.
/// `Null`      - success, though the field is a NULL value.
/// `Error(e)`  - failure, with the responsible error.
///
/// Null is a first-class outcome: it is never conflated with an absent
/// field (an `Error` at resolution time) nor with an empty value.
#[derive(Debug, PartialEq)]
pub enum FieldResult {
    Value(FieldValue),
    Null,
    Error(GdalTraitError),
}

/// The specification-level picture of a [`FieldResult`].
pub enum FieldResultModel {
    Value(FieldValueModel),
    Null,
    Error(GdalTraitErrorModel),
}

impl DeepView for FieldResult {
    type V = FieldResultModel;

    open spec fn deep_view(&self) -> FieldResultModel {
        match self {
            FieldResult::Value(v) => FieldResultModel::Value(v.deep_view()),
            FieldResult::Null => FieldResultModel::Null,
            FieldResult::Error(e) => FieldResultModel::Error(e.deep_view()),
        }
    }
}

impl View for FieldResult {
    type V = FieldResultModel;

    open spec fn view(&self) -> FieldResultModel {
        self.deep_view()
    }
}

impl Clone for FieldResult {
    /// A clone carries the same abstract outcome.
    fn clone(&self) -> (r: Self)
        ensures
            r.deep_view() == self.deep_view(),
    {
        match self {
            FieldResult::Value(v) => FieldResult::Value(v.clone()),
            FieldResult::Null => FieldResult::Null,
            FieldResult::Error(e) => FieldResult::Error(e.clone()),
        }
    }
}

impl FieldResult {
    /// Convert the `FieldResult` into a `Result<FieldValue, GdalTraitError>`
    /// for convenient error handling.
    ///
    /// `FieldResult::Null` is treated as `GdalTraitError::NullField`: this is
    /// the required interpretation of a field.  The call fails with
    /// `NullField` exactly on `Null`, fails with the wrapped error exactly on
    /// `Error`, and returns the value exactly on `Value`.
    pub fn into_res(self) -> (r: Result<FieldValue, GdalTraitError>)
        ensures
            self matches FieldResult::Value(v) ==> r == Result::<FieldValue, GdalTraitError>::Ok(v),
            self is Null ==> r == Result::<FieldValue, GdalTraitError>::Err(GdalTraitError::NullField),
            self matches FieldResult::Error(e) ==> r == Result::<FieldValue, GdalTraitError>::Err(e),
            res_models(r, spec_into_res(self.deep_view())),
    {
        match self {
            FieldResult::Value(field) => Ok(field),
            FieldResult::Null => Err(GdalTraitError::NullField),
            FieldResult::Error(e) => Err(e),
        }
    }

    /// Convert the `FieldResult` into a nested `Result<Option<FieldValue>,
    /// GdalTraitError>` for convenient error/null handling.
    ///
    /// `FieldResult::Null` becomes `Ok(None)`: this is the optional
    /// interpretation of a field.  Only `Error` fails.
    pub fn into_opt_res(self) -> (r: Result<Option<FieldValue>, GdalTraitError>)
        ensures
            self matches FieldResult::Value(v) ==> r == Result::<Option<FieldValue>, GdalTraitError>::Ok(Some(v)),
            self is Null ==> r == Result::<Option<FieldValue>, GdalTraitError>::Ok(Option::<FieldValue>::None),
            self matches FieldResult::Error(e) ==> r == Result::<Option<FieldValue>, GdalTraitError>::Err(e),
    {
        match self {
            FieldResult::Value(field) => Ok(Some(field)),
            FieldResult::Null => Ok(None),
            FieldResult::Error(e) => Err(e),
        }
    }
}

/// What `into_res` yields, at the specification level.
pub open spec fn spec_into_res(m: FieldResultModel) -> Result<FieldValueModel, GdalTraitErrorModel> {
    match m {
        FieldResultModel::Value(v) => Ok(v),
        FieldResultModel::Null => Err(GdalTraitErrorModel::NullField),
        FieldResultModel::Error(e) => Err(e),
    }
}

/// Law: the required interpretation of an outcome fails with `NullField`
/// exactly when the outcome is Null, fails with the wrapped error on an
/// Error outcome, and returns the value exactly on a Value outcome.  The
/// first point asks that the wrapped error of an Error outcome is not
/// itself `NullField`; the decoders in this crate only ever wrap
/// source-level errors, for which that holds.
pub proof fn lemma_into_required_cases(m: FieldResultModel)
    requires
        !(m matches FieldResultModel::Error(GdalTraitErrorModel::NullField)),
    ensures
        spec_into_res(m) == Result::<FieldValueModel, GdalTraitErrorModel>::Err(
            GdalTraitErrorModel::NullField,
        ) <==> m is Null,
        m matches FieldResultModel::Error(e) ==> spec_into_res(m) == Result::<
            FieldValueModel,
            GdalTraitErrorModel,
        >::Err(e),
        spec_into_res(m) is Ok <==> m is Value,
        m matches FieldResultModel::Value(v) ==> spec_into_res(m) == Result::<
            FieldValueModel,
            GdalTraitErrorModel,
        >::Ok(v),
{
}

/// How a `Result` produced by the crate is pictured at the specification
/// level: success and failure abstract to the deep views of their payloads.
pub open spec fn res_models<T: DeepView, E: DeepView>(r: Result<T, E>, m: Result<T::V, E::V>) -> bool {
    match r {
        Ok(v) => m == Result::<T::V, E::V>::Ok(v.deep_view()),
        Err(e) => m == Result::<T::V, E::V>::Err(e.deep_view()),
    }
}

/// The description of a kind mismatch: what was asked for and what was found.
pub open spec fn spec_invalid(expected: Seq<char>, found: FieldValueModel) -> GdalTraitErrorModel {
    GdalTraitErrorModel::InvalidFieldValue(
        "expected "@ + expected + ", found "@ + spec_tag_name(found),
    )
}

/// The required interpretation of an outcome for one target kind: Null is
/// fatal (`NullField`), a retrieval error propagates, a value of the wrong
/// kind is fatal (`InvalidFieldValue`), and a value of the right kind is
/// returned.
pub open spec fn spec_required<T>(
    m: FieldResultModel,
    extract: spec_fn(FieldValueModel) -> Option<T>,
    expected: Seq<char>,
) -> Result<T, GdalTraitErrorModel> {
    match m {
        FieldResultModel::Value(v) => match extract(v) {
            Some(t) => Ok(t),
            None => Err(spec_invalid(expected, v)),
        },
        FieldResultModel::Null => Err(GdalTraitErrorModel::NullField),
        FieldResultModel::Error(e) => Err(e),
    }
}

/// The optional interpretation of an outcome for one target kind: Null
/// resolves to `None`; everything else is as in the required interpretation,
/// with a value of the right kind wrapped in `Some`.
pub open spec fn spec_optional<T>(
    m: FieldResultModel,
    extract: spec_fn(FieldValueModel) -> Option<T>,
    expected: Seq<char>,
) -> Result<Option<T>, GdalTraitErrorModel> {
    match m {
        FieldResultModel::Value(v) => match extract(v) {
            Some(t) => Ok(Some(t)),
            None => Err(spec_invalid(expected, v)),
        },
        FieldResultModel::Null => Ok(None),
        FieldResultModel::Error(e) => Err(e),
    }
}

/// Law: the required interpretation fails with `NullField` exactly when the
/// outcome is Null, propagates a wrapped error as it stands, and succeeds
/// exactly on a value.  The first point asks that the wrapped error of an
/// `Error` outcome is not itself `NullField`; the decoders in this crate
/// only ever wrap source-level errors, for which that holds.
pub proof fn lemma_required_null_iff<T>(
    m: FieldResultModel,
    extract: spec_fn(FieldValueModel) -> Option<T>,
    expected: Seq<char>,
)
    requires
        !(m matches FieldResultModel::Error(GdalTraitErrorModel::NullField)),
    ensures
        spec_required(m, extract, expected) == Result::<T, GdalTraitErrorModel>::Err(
            GdalTraitErrorModel::NullField,
        ) <==> m is Null,
        m matches FieldResultModel::Error(e) ==> spec_required(m, extract, expected)
            == Result::<T, GdalTraitErrorModel>::Err(e),
        spec_required(m, extract, expected) is Ok <==> (m is Value && extract(m->Value_0)
            is Some),
{
}

/// Law: the optional interpretation yields `None` exactly on Null, and never
/// fails merely because the field was null.
pub proof fn lemma_optional_none_iff_null<T>(
    m: FieldResultModel,
    extract: spec_fn(FieldValueModel) -> Option<T>,
    expected: Seq<char>,
)
    ensures
        spec_optional(m, extract, expected) == Result::<Option<T>, GdalTraitErrorModel>::Ok(
            Option::<T>::None,
        ) <==> m is Null,
        m is Null ==> spec_optional(m, extract, expected) is Ok,
{
}

/// Law: a present value of the wrong kind fails the required and the
/// optional interpretation alike, with the same `InvalidFieldValue`
/// description: a schema contract violation is never recovered from.
pub proof fn lemma_mismatch_always_fatal<T>(
    m: FieldResultModel,
    extract: spec_fn(FieldValueModel) -> Option<T>,
    expected: Seq<char>,
)
    requires
        m matches FieldResultModel::Value(v) && extract(v) is None,
    ensures
        spec_required(m, extract, expected) == Result::<T, GdalTraitErrorModel>::Err(
            spec_invalid(expected, m->Value_0),
        ),
        spec_optional(m, extract, expected) == Result::<Option<T>, GdalTraitErrorModel>::Err(
            spec_invalid(expected, m->Value_0),
        ),
{
}

/// Build the error for a value of the wrong kind.
fn invalid_value_error(expected: &str, found: &FieldValue) -> (r: GdalTraitError)
    ensures
        r.deep_view() == spec_invalid(expected@, found.deep_view()),
{
    let mut m = String::from_str("expected ");
    m.append(expected);
    m.append(", found ");
    m.append(tag_name(found));
    proof {
        assert(m@ =~= "expected "@ + expected@ + ", found "@ + spec_tag_name(found.deep_view()));
    }
    GdalTraitError::InvalidFieldValue(m)
}

impl FieldResult {
    /// Wrap a raw fetch result: a value, an explicit null, or the failure
    /// responsible for it.
    pub fn from(value: Result<Option<FieldValue>, GdalTraitError>) -> (r: Self)
        ensures
            value matches Ok(Some(f)) ==> r == FieldResult::Value(f),
            value == Result::<Option<FieldValue>, GdalTraitError>::Ok(None) ==> r == FieldResult::Null,
            value matches Err(e) ==> r == FieldResult::Error(e),
    {
        match value {
            Ok(Some(f)) => FieldResult::Value(f),
            Ok(None) => FieldResult::Null,
            Err(e) => FieldResult::Error(e),
        }
    }
}

/// What `try_into_int` yields, at the specification level.
pub open spec fn spec_try_into_int(m: FieldResultModel) -> Result<i32, GdalTraitErrorModel> {
    spec_required(
        m,
        |v: FieldValueModel| match v {
            FieldValueModel::IntegerValue(t) => Some(t),
            _ => None,
        },
        "IntegerValue"@,
    )
}

/// What `try_into_int_opt` yields, at the specification level.
pub open spec fn spec_try_into_int_opt(m: FieldResultModel) -> Result<Option<i32>, GdalTraitErrorModel> {
    spec_optional(
        m,
        |v: FieldValueModel| match v {
            FieldValueModel::IntegerValue(t) => Some(t),
            _ => None,
        },
        "IntegerValue"@,
    )
}

/// What `try_into_int_list` yields, at the specification level.
pub open spec fn spec_try_into_int_list(m: FieldResultModel) -> Result<Seq<i32>, GdalTraitErrorModel> {
    spec_required(
        m,
        |v: FieldValueModel| match v {
            FieldValueModel::IntegerListValue(t) => Some(t),
            _ => None,
        },
        "IntegerListValue"@,
    )
}

/// What `try_into_int_list_opt` yields, at the specification level.
pub open spec fn spec_try_into_int_list_opt(m: FieldResultModel) -> Result<Option<Seq<i32>>, GdalTraitErrorModel> {
    spec_optional(
        m,
        |v: FieldValueModel| match v {
            FieldValueModel::IntegerListValue(t) => Some(t),
            _ => None,
        },
        "IntegerListValue"@,
    )
}

/// What `try_into_int64` yields, at the specification level.
pub open spec fn spec_try_into_int64(m: FieldResultModel) -> Result<i64, GdalTraitErrorModel> {
    spec_required(
        m,
        |v: FieldValueModel| match v {
            FieldValueModel::Integer64Value(t) => Some(t),
            _ => None,
        },
        "Integer64Value"@,
    )
}

/// What `try_into_int64_opt` yields, at the specification level.
pub open spec fn spec_try_into_int64_opt(m: FieldResultModel) -> Result<Option<i64>, GdalTraitErrorModel> {
    spec_optional(
        m,
        |v: FieldValueModel| match v {
            FieldValueModel::Integer64Value(t) => Some(t),
            _ => None,
        },
        "Integer64Value"@,
    )
}

/// What `try_into_int64_list` yields, at the specification level.
pub open spec fn spec_try_into_int64_list(m: FieldResultModel) -> Result<Seq<i64>, GdalTraitErrorModel> {
    spec_required(
        m,
        |v: FieldValueModel| match v {
            FieldValueModel::Integer64ListValue(t) => Some(t),
            _ => None,
        },
        "Integer64ListValue"@,
    )
}

/// What `try_into_int64_list_opt` yields, at the specification level.
pub open spec fn spec_try_into_int64_list_opt(m: FieldResultModel) -> Result<Option<Seq<i64>>, GdalTraitErrorModel> {
    spec_optional(
        m,
        |v: FieldValueModel| match v {
            FieldValueModel::Integer64ListValue(t) => Some(t),
            _ => None,
        },
        "Integer64ListValue"@,
    )
}

/// What `try_into_string` yields, at the specification level.
pub open spec fn spec_try_into_string(m: FieldResultModel) -> Result<Seq<char>, GdalTraitErrorModel> {
    spec_required(
        m,
        |v: FieldValueModel| match v {
            FieldValueModel::StringValue(t) => Some(t),
            _ => None,
        },
        "StringValue"@,
    )
}

/// What `try_into_string_opt` yields, at the specification level.
pub open spec fn spec_try_into_string_opt(m: FieldResultModel) -> Result<Option<Seq<char>>, GdalTraitErrorModel> {
    spec_optional(
        m,
        |v: FieldValueModel| match v {
            FieldValueModel::StringValue(t) => Some(t),
            _ => None,
        },
        "StringValue"@,
    )
}

/// What `try_into_string_list` yields, at the specification level.
pub open spec fn spec_try_into_string_list(m: FieldResultModel) -> Result<Seq<Seq<char>>, GdalTraitErrorModel> {
    spec_required(
        m,
        |v: FieldValueModel| match v {
            FieldValueModel::StringListValue(t) => Some(t),
            _ => None,
        },
        "StringListValue"@,
    )
}

/// What `try_into_string_list_opt` yields, at the specification level.
pub open spec fn spec_try_into_string_list_opt(m: FieldResultModel) -> Result<Option<Seq<Seq<char>>>, GdalTraitErrorModel> {
    spec_optional(
        m,
        |v: FieldValueModel| match v {
            FieldValueModel::StringListValue(t) => Some(t),
            _ => None,
        },
        "StringListValue"@,
    )
}

/// What `try_into_real` yields, at the specification level.
pub open spec fn spec_try_into_real(m: FieldResultModel) -> Result<u64, GdalTraitErrorModel> {
    spec_required(
        m,
        |v: FieldValueModel| match v {
            FieldValueModel::RealValue(t) => Some(t),
            _ => None,
        },
        "RealValue"@,
    )
}

/// What `try_into_real_opt` yields, at the specification level.
pub open spec fn spec_try_into_real_opt(m: FieldResultModel) -> Result<Option<u64>, GdalTraitErrorModel> {
    spec_optional(
        m,
        |v: FieldValueModel| match v {
            FieldValueModel::RealValue(t) => Some(t),
            _ => None,
        },
        "RealValue"@,
    )
}

/// What `try_into_real_list` yields, at the specification level.
pub open spec fn spec_try_into_real_list(m: FieldResultModel) -> Result<Seq<u64>, GdalTraitErrorModel> {
    spec_required(
        m,
        |v: FieldValueModel| match v {
            FieldValueModel::RealListValue(t) => Some(t),
            _ => None,
        },
        "RealListValue"@,
    )
}

/// What `try_into_real_list_opt` yields, at the specification level.
pub open spec fn spec_try_into_real_list_opt(m: FieldResultModel) -> Result<Option<Seq<u64>>, GdalTraitErrorModel> {
    spec_optional(
        m,
        |v: FieldValueModel| match v {
            FieldValueModel::RealListValue(t) => Some(t),
            _ => None,
        },
        "RealListValue"@,
    )
}

/// What `try_into_date` yields, at the specification level.
pub open spec fn spec_try_into_date(m: FieldResultModel) -> Result<Date, GdalTraitErrorModel> {
    spec_required(
        m,
        |v: FieldValueModel| match v {
            FieldValueModel::DateValue(t) => Some(t),
            _ => None,
        },
        "DateValue"@,
    )
}

/// What `try_into_date_opt` yields, at the specification level.
pub open spec fn spec_try_into_date_opt(m: FieldResultModel) -> Result<Option<Date>, GdalTraitErrorModel> {
    spec_optional(
        m,
        |v: FieldValueModel| match v {
            FieldValueModel::DateValue(t) => Some(t),
            _ => None,
        },
        "DateValue"@,
    )
}

/// What `try_into_date_time` yields, at the specification level.
pub open spec fn spec_try_into_date_time(m: FieldResultModel) -> Result<DateTime, GdalTraitErrorModel> {
    spec_required(
        m,
        |v: FieldValueModel| match v {
            FieldValueModel::DateTimeValue(t) => Some(t),
            _ => None,
        },
        "DateTimeValue"@,
    )
}

/// What `try_into_date_time_opt` yields, at the specification level.
pub open spec fn spec_try_into_date_time_opt(m: FieldResultModel) -> Result<Option<DateTime>, GdalTraitErrorModel> {
    spec_optional(
        m,
        |v: FieldValueModel| match v {
            FieldValueModel::DateTimeValue(t) => Some(t),
            _ => None,
        },
        "DateTimeValue"@,
    )
}

impl FieldResult {
    /// Attempt to convert a `FieldResult` into a 32-bit integer: the field is
    /// required, so Null is an error, and so is a value of any other kind.
    pub fn try_into_int(self) -> (r: Result<i32, GdalTraitError>)
        ensures
            res_models(r, spec_try_into_int(self.deep_view())),
    {
        match self {
            FieldResult::Value(FieldValue::IntegerValue(v)) => Ok(v),
            FieldResult::Value(v) => Err(invalid_value_error("IntegerValue", &v)),
            FieldResult::Null => Err(GdalTraitError::NullField),
            FieldResult::Error(e) => Err(e),
        }
    }

    /// Attempt to convert a `FieldResult` into an `Option` of a 32-bit integer:
    /// the field is optional, so Null becomes `None`, while a value of any
    /// other kind is still an error.
    pub fn try_into_int_opt(self) -> (r: Result<Option<i32>, GdalTraitError>)
        ensures
            res_models(r, spec_try_into_int_opt(self.deep_view())),
    {
        match self {
            FieldResult::Value(FieldValue::IntegerValue(v)) => Ok(Some(v)),
            FieldResult::Value(v) => Err(invalid_value_error("IntegerValue", &v)),
            FieldResult::Null => Ok(None),
            FieldResult::Error(e) => Err(e),
        }
    }

    /// Attempt to convert a `FieldResult` into a list of 32-bit integers: the field is
    /// required, so Null is an error, and so is a value of any other kind.
    pub fn try_into_int_list(self) -> (r: Result<Vec<i32>, GdalTraitError>)
        ensures
            res_models(r, spec_try_into_int_list(self.deep_view())),
    {
        match self {
            FieldResult::Value(FieldValue::IntegerListValue(v)) => {
            proof {
                assert(v.deep_view() =~= v@);
            }
                Ok(v)
            },
            FieldResult::Value(v) => Err(invalid_value_error("IntegerListValue", &v)),
            FieldResult::Null => Err(GdalTraitError::NullField),
            FieldResult::Error(e) => Err(e),
        }
    }

    /// Attempt to convert a `FieldResult` into an `Option` of a list of 32-bit integers:
    /// the field is optional, so Null becomes `None`, while a value of any
    /// other kind is still an error.
    pub fn try_into_int_list_opt(self) -> (r: Result<Option<Vec<i32>>, GdalTraitError>)
        ensures
            res_models(r, spec_try_into_int_list_opt(self.deep_view())),
    {
        match self {
            FieldResult::Value(FieldValue::IntegerListValue(v)) => {
            proof {
                assert(v.deep_view() =~= v@);
            }
                Ok(Some(v))
            },
            FieldResult::Value(v) => Err(invalid_value_error("IntegerListValue", &v)),
            FieldResult::Null => Ok(None),
            FieldResult::Error(e) => Err(e),
        }
    }

    /// Attempt to convert a `FieldResult` into a 64-bit integer: the field is
    /// required, so Null is an error, and so is a value of any other kind.
    pub fn try_into_int64(self) -> (r: Result<i64, GdalTraitError>)
        ensures
            res_models(r, spec_try_into_int64(self.deep_view())),
    {
        match self {
            FieldResult::Value(FieldValue::Integer64Value(v)) => Ok(v),
            FieldResult::Value(v) => Err(invalid_value_error("Integer64Value", &v)),
            FieldResult::Null => Err(GdalTraitError::NullField),
            FieldResult::Error(e) => Err(e),
        }
    }

    /// Attempt to convert a `FieldResult` into an `Option` of a 64-bit integer:
    /// the field is optional, so Null becomes `None`, while a value of any
    /// other kind is still an error.
    pub fn try_into_int64_opt(self) -> (r: Result<Option<i64>, GdalTraitError>)
        ensures
            res_models(r, spec_try_into_int64_opt(self.deep_view())),
    {
        match self {
            FieldResult::Value(FieldValue::Integer64Value(v)) => Ok(Some(v)),
            FieldResult::Value(v) => Err(invalid_value_error("Integer64Value", &v)),
            FieldResult::Null => Ok(None),
            FieldResult::Error(e) => Err(e),
        }
    }

    /// Attempt to convert a `FieldResult` into a list of 64-bit integers: the field is
    /// required, so Null is an error, and so is a value of any other kind.
    pub fn try_into_int64_list(self) -> (r: Result<Vec<i64>, GdalTraitError>)
        ensures
            res_models(r, spec_try_into_int64_list(self.deep_view())),
    {
        match self {
            FieldResult::Value(FieldValue::Integer64ListValue(v)) => {
            proof {
                assert(v.deep_view() =~= v@);
            }
                Ok(v)
            },
            FieldResult::Value(v) => Err(invalid_value_error("Integer64ListValue", &v)),
            FieldResult::Null => Err(GdalTraitError::NullField),
            FieldResult::Error(e) => Err(e),
        }
    }

    /// Attempt to convert a `FieldResult` into an `Option` of a list of 64-bit integers:
    /// the field is optional, so Null becomes `None`, while a value of any
    /// other kind is still an error.
    pub fn try_into_int64_list_opt(self) -> (r: Result<Option<Vec<i64>>, GdalTraitError>)
        ensures
            res_models(r, spec_try_into_int64_list_opt(self.deep_view())),
    {
        match self {
            FieldResult::Value(FieldValue::Integer64ListValue(v)) => {
            proof {
                assert(v.deep_view() =~= v@);
            }
                Ok(Some(v))
            },
            FieldResult::Value(v) => Err(invalid_value_error("Integer64ListValue", &v)),
            FieldResult::Null => Ok(None),
            FieldResult::Error(e) => Err(e),
        }
    }

    /// Attempt to convert a `FieldResult` into a string: the field is
    /// required, so Null is an error, and so is a value of any other kind.
    pub fn try_into_string(self) -> (r: Result<String, GdalTraitError>)
        ensures
            res_models(r, spec_try_into_string(self.deep_view())),
    {
        match self {
            FieldResult::Value(FieldValue::StringValue(v)) => Ok(v),
            FieldResult::Value(v) => Err(invalid_value_error("StringValue", &v)),
            FieldResult::Null => Err(GdalTraitError::NullField),
            FieldResult::Error(e) => Err(e),
        }
    }

    /// Attempt to convert a `FieldResult` into an `Option` of a string:
    /// the field is optional, so Null becomes `None`, while a value of any
    /// other kind is still an error.
    pub fn try_into_string_opt(self) -> (r: Result<Option<String>, GdalTraitError>)
        ensures
            res_models(r, spec_try_into_string_opt(self.deep_view())),
    {
        match self {
            FieldResult::Value(FieldValue::StringValue(v)) => Ok(Some(v)),
            FieldResult::Value(v) => Err(invalid_value_error("StringValue", &v)),
            FieldResult::Null => Ok(None),
            FieldResult::Error(e) => Err(e),
        }
    }

    /// Attempt to convert a `FieldResult` into a list of strings: the field is
    /// required, so Null is an error, and so is a value of any other kind.
    pub fn try_into_string_list(self) -> (r: Result<Vec<String>, GdalTraitError>)
        ensures
            res_models(r, spec_try_into_string_list(self.deep_view())),
    {
        match self {
            FieldResult::Value(FieldValue::StringListValue(v)) => Ok(v),
            FieldResult::Value(v) => Err(invalid_value_error("StringListValue", &v)),
            FieldResult::Null => Err(GdalTraitError::NullField),
            FieldResult::Error(e) => Err(e),
        }
    }

    /// Attempt to convert a `FieldResult` into an `Option` of a list of strings:
    /// the field is optional, so Null becomes `None`, while a value of any
    /// other kind is still an error.
    pub fn try_into_string_list_opt(self) -> (r: Result<Option<Vec<String>>, GdalTraitError>)
        ensures
            res_models(r, spec_try_into_string_list_opt(self.deep_view())),
    {
        match self {
            FieldResult::Value(FieldValue::StringListValue(v)) => Ok(Some(v)),
            FieldResult::Value(v) => Err(invalid_value_error("StringListValue", &v)),
            FieldResult::Null => Ok(None),
            FieldResult::Error(e) => Err(e),
        }
    }

    /// Attempt to convert a `FieldResult` into a real value's bit pattern: the field is
    /// required, so Null is an error, and so is a value of any other kind.
    pub fn try_into_real(self) -> (r: Result<u64, GdalTraitError>)
        ensures
            res_models(r, spec_try_into_real(self.deep_view())),
    {
        match self {
            FieldResult::Value(FieldValue::RealValue(v)) => Ok(v),
            FieldResult::Value(v) => Err(invalid_value_error("RealValue", &v)),
            FieldResult::Null => Err(GdalTraitError::NullField),
            FieldResult::Error(e) => Err(e),
        }
    }

    /// Attempt to convert a `FieldResult` into an `Option` of a real value's bit pattern:
    /// the field is optional, so Null becomes `None`, while a value of any
    /// other kind is still an error.
    pub fn try_into_real_opt(self) -> (r: Result<Option<u64>, GdalTraitError>)
        ensures
            res_models(r, spec_try_into_real_opt(self.deep_view())),
    {
        match self {
            FieldResult::Value(FieldValue::RealValue(v)) => Ok(Some(v)),
            FieldResult::Value(v) => Err(invalid_value_error("RealValue", &v)),
            FieldResult::Null => Ok(None),
            FieldResult::Error(e) => Err(e),
        }
    }

    /// Attempt to convert a `FieldResult` into a list of real values' bit patterns: the field is
    /// required, so Null is an error, and so is a value of any other kind.
    pub fn try_into_real_list(self) -> (r: Result<Vec<u64>, GdalTraitError>)
        ensures
            res_models(r, spec_try_into_real_list(self.deep_view())),
    {
        match self {
            FieldResult::Value(FieldValue::RealListValue(v)) => {
            proof {
                assert(v.deep_view() =~= v@);
            }
                Ok(v)
            },
            FieldResult::Value(v) => Err(invalid_value_error("RealListValue", &v)),
            FieldResult::Null => Err(GdalTraitError::NullField),
            FieldResult::Error(e) => Err(e),
        }
    }

    /// Attempt to convert a `FieldResult` into an `Option` of a list of real values' bit patterns:
    /// the field is optional, so Null becomes `None`, while a value of any
    /// other kind is still an error.
    pub fn try_into_real_list_opt(self) -> (r: Result<Option<Vec<u64>>, GdalTraitError>)
        ensures
            res_models(r, spec_try_into_real_list_opt(self.deep_view())),
    {
        match self {
            FieldResult::Value(FieldValue::RealListValue(v)) => {
            proof {
                assert(v.deep_view() =~= v@);
            }
                Ok(Some(v))
            },
            FieldResult::Value(v) => Err(invalid_value_error("RealListValue", &v)),
            FieldResult::Null => Ok(None),
            FieldResult::Error(e) => Err(e),
        }
    }

    /// Attempt to convert a `FieldResult` into a calendar date: the field is
    /// required, so Null is an error, and so is a value of any other kind.
    pub fn try_into_date(self) -> (r: Result<Date, GdalTraitError>)
        ensures
            res_models(r, spec_try_into_date(self.deep_view())),
    {
        match self {
            FieldResult::Value(FieldValue::DateValue(v)) => Ok(v),
            FieldResult::Value(v) => Err(invalid_value_error("DateValue", &v)),
            FieldResult::Null => Err(GdalTraitError::NullField),
            FieldResult::Error(e) => Err(e),
        }
    }

    /// Attempt to convert a `FieldResult` into an `Option` of a calendar date:
    /// the field is optional, so Null becomes `None`, while a value of any
    /// other kind is still an error.
    pub fn try_into_date_opt(self) -> (r: Result<Option<Date>, GdalTraitError>)
        ensures
            res_models(r, spec_try_into_date_opt(self.deep_view())),
    {
        match self {
            FieldResult::Value(FieldValue::DateValue(v)) => Ok(Some(v)),
            FieldResult::Value(v) => Err(invalid_value_error("DateValue", &v)),
            FieldResult::Null => Ok(None),
            FieldResult::Error(e) => Err(e),
        }
    }

    /// Attempt to convert a `FieldResult` into a timestamp: the field is
    /// required, so Null is an error, and so is a value of any other kind.
    pub fn try_into_date_time(self) -> (r: Result<DateTime, GdalTraitError>)
        ensures
            res_models(r, spec_try_into_date_time(self.deep_view())),
    {
        match self {
            FieldResult::Value(FieldValue::DateTimeValue(v)) => Ok(v),
            FieldResult::Value(v) => Err(invalid_value_error("DateTimeValue", &v)),
            FieldResult::Null => Err(GdalTraitError::NullField),
            FieldResult::Error(e) => Err(e),
        }
    }

    /// Attempt to convert a `FieldResult` into an `Option` of a timestamp:
    /// the field is optional, so Null becomes `None`, while a value of any
    /// other kind is still an error.
    pub fn try_into_date_time_opt(self) -> (r: Result<Option<DateTime>, GdalTraitError>)
        ensures
            res_models(r, spec_try_into_date_time_opt(self.deep_view())),
    {
        match self {
            FieldResult::Value(FieldValue::DateTimeValue(v)) => Ok(Some(v)),
            FieldResult::Value(v) => Err(invalid_value_error("DateTimeValue", &v)),
            FieldResult::Null => Ok(None),
            FieldResult::Error(e) => Err(e),
        }
    }
}

/// One raw record as handed over by the data source: an optional numeric
/// identifier, an optional geometry, the record's schema (its field names in
/// column order), and one raw value per column, `None` where the field is
/// null.
///
/// A record may expose fewer values than names; fetching past the end of the
/// values is a source-level error, as with any storage fault.
#[derive(Debug, Clone, PartialEq)]
pub struct Feature {
    pub fid: Option<u64>,
    pub geometry: Option<Geometry>,
    pub field_names: Vec<String>,
    pub field_values: Vec<Option<FieldValue>>,
}

/// The specification-level picture of a [`Feature`].
pub struct FeatureModel {
    pub fid: Option<u64>,
    pub geometry: Option<Seq<u8>>,
    pub field_names: Seq<Seq<char>>,
    pub field_values: Seq<Option<FieldValueModel>>,
}

impl View for Feature {
    type V = FeatureModel;

    open spec fn view(&self) -> FeatureModel {
        FeatureModel {
            fid: self.fid,
            geometry: match self.geometry {
                Some(g) => Some(g@),
                None => None,
            },
            field_names: self.field_names.deep_view(),
            field_values: self.field_values.deep_view(),
        }
    }
}

impl DeepView for Feature {
    type V = FeatureModel;

    open spec fn deep_view(&self) -> FeatureModel {
        self.view()
    }
}

/// A homogeneous, ordered collection of records sharing one schema, as
/// handed over by the data source.
#[derive(Debug, Clone, PartialEq)]
pub struct Layer {
    pub field_names: Vec<String>,
    pub features: Vec<Feature>,
}

/// The specification-level picture of a [`Layer`].
pub struct LayerModel {
    pub field_names: Seq<Seq<char>>,
    pub features: Seq<FeatureModel>,
}

impl View for Layer {
    type V = LayerModel;

    open spec fn view(&self) -> LayerModel {
        LayerModel { field_names: self.field_names.deep_view(), features: self.features.deep_view() }
    }
}

/// The column index of the first field bearing `name`, searching the schema
/// from position `i` on.
pub open spec fn spec_field_index_from(names: Seq<Seq<char>>, name: Seq<char>, i: int) -> Option<int>
    decreases names.len() - i,
{
    if i < 0 || i >= names.len() {
        None
    } else if names[i] == name {
        Some(i)
    } else {
        spec_field_index_from(names, name, i + 1)
    }
}

/// The column index of the first field bearing `name`, if any.
pub open spec fn spec_field_index(names: Seq<Seq<char>>, name: Seq<char>) -> Option<int> {
    spec_field_index_from(names, name, 0)
}

/// The error for a declared name that no column of the schema bears.
pub open spec fn missing_field_model(name: Seq<char>) -> GdalTraitErrorModel {
    GdalTraitErrorModel::GdalError("no field named "@ + name)
}

/// The error for a column index past the end of a record's values.
pub open spec fn out_of_range_model() -> GdalTraitErrorModel {
    GdalTraitErrorModel::GdalError("field index out of range"@)
}

/// Name resolution, at the specification level.
pub open spec fn spec_resolve(schema: Seq<Seq<char>>, name: Seq<char>) -> Result<int, GdalTraitErrorModel> {
    match spec_field_index(schema, name) {
        Some(i) => Ok(i),
        None => Err(missing_field_model(name)),
    }
}

/// Fetching one column's raw value from one record, at the specification
/// level.
pub open spec fn spec_fetch(f: FeatureModel, i: int) -> Result<Option<FieldValueModel>, GdalTraitErrorModel> {
    if 0 <= i < f.field_values.len() {
        Ok(f.field_values[i])
    } else {
        Err(out_of_range_model())
    }
}

/// Wrapping a raw fetch result into a field outcome, at the specification
/// level.
pub open spec fn spec_wrap(r: Result<Option<FieldValueModel>, GdalTraitErrorModel>) -> FieldResultModel {
    match r {
        Ok(Some(v)) => FieldResultModel::Value(v),
        Ok(None) => FieldResultModel::Null,
        Err(e) => FieldResultModel::Error(e),
    }
}

/// The outcome for one record and one already-resolved index: a failed
/// resolution becomes the error outcome at that position.
pub open spec fn spec_outcome_at(f: FeatureModel, idx: Result<int, GdalTraitErrorModel>) -> FieldResultModel {
    match idx {
        Ok(i) => spec_wrap(spec_fetch(f, i)),
        Err(e) => FieldResultModel::Error(e),
    }
}

/// The outcome for one record and one declared name, resolved against
/// `schema`.
pub open spec fn spec_outcome(schema: Seq<Seq<char>>, f: FeatureModel, name: Seq<char>) -> FieldResultModel {
    spec_outcome_at(f, spec_resolve(schema, name))
}

/// The outcome array for one record: one outcome per declared name, in
/// declared order.
pub open spec fn spec_outcomes(schema: Seq<Seq<char>>, f: FeatureModel, names: Seq<Seq<char>>) -> Seq<FieldResultModel> {
    Seq::new(names.len(), |j: int| spec_outcome(schema, f, names[j]))
}

/// How a resolved index is pictured at the specification level.
pub open spec fn idx_model(r: Result<usize, GdalTraitError>) -> Result<int, GdalTraitErrorModel> {
    match r {
        Ok(i) => Ok(i as int),
        Err(e) => Err(e.deep_view()),
    }
}

/// Resolve a declared field name to its column index: the first column
/// bearing the name wins; a name that no column bears is a source-level
/// error.
pub fn resolve_index(names: &Vec<String>, name: &String) -> (r: Result<usize, GdalTraitError>)
    ensures
        idx_model(r) == spec_resolve(names.deep_view(), name@),
{
    let ghost schema = names.deep_view();
    let mut i: usize = 0;
    while i < names.len()
        invariant
            0 <= i <= names@.len(),
            schema == names.deep_view(),
            spec_field_index(schema, name@) == spec_field_index_from(schema, name@, i as int),
        decreases names@.len() - i,
    {
        proof {
            assert(schema[i as int] == names@[i as int]@);
        }
        if names[i].eq(name) {
            return Ok(i);
        }
        i = i + 1;
    }
    let mut m = String::from_str("no field named ");
    m.append(name.as_str());
    proof {
        assert(m@ =~= "no field named "@ + name@);
    }
    Err(GdalTraitError::GdalError(m))
}

impl Feature {
    /// Look up the column index of a named field in this record's schema.
    pub fn field_index(&self, name: &String) -> (r: Result<usize, GdalTraitError>)
        ensures
            idx_model(r) == spec_resolve(self@.field_names, name@),
    {
        resolve_index(&self.field_names, name)
    }

    /// Fetch the raw value of a field by column index: `Ok(None)` where the
    /// field is null, an error where the index is out of range.
    pub fn field(&self, index: usize) -> (r: Result<Option<FieldValue>, GdalTraitError>)
        ensures
            res_models(r, spec_fetch(self@, index as int)),
    {
        if index < self.field_values.len() {
            match &self.field_values[index] {
                Some(v) => Ok(Some(v.clone())),
                None => Ok(None),
            }
        } else {
            Err(GdalTraitError::GdalError(String::from_str("field index out of range")))
        }
    }
}

/// Build the outcome array for one record, resolving each declared name
/// against the record's own schema.  This is the single-record path:
/// resolution is repeated on every call, never cached.
pub fn feature_outcomes(feature: &Feature, names: &Vec<String>) -> (r: Vec<FieldResult>)
    ensures
        r@.len() == names@.len(),
        forall|j: int| 0 <= j < names@.len() ==> r.deep_view()[j] == spec_outcome(
            feature@.field_names,
            feature@,
            names.deep_view()[j],
        ),
{
    let mut outs: Vec<FieldResult> = Vec::new();
    let mut j: usize = 0;
    while j < names.len()
        invariant
            0 <= j <= names@.len(),
            outs@.len() == j,
            forall|t: int| 0 <= t < j ==> (#[trigger] outs@[t]).deep_view() == spec_outcome(
                feature@.field_names,
                feature@,
                names.deep_view()[t],
            ),
        decreases names@.len() - j,
    {
        let idx = feature.field_index(&names[j]);
        let outcome = match idx {
            Ok(i) => FieldResult::from(feature.field(i)),
            Err(e) => FieldResult::Error(e),
        };
        proof {
            assert(names.deep_view()[j as int] == names@[j as int]@);
            assert(outcome.deep_view() == spec_outcome(
                feature@.field_names,
                feature@,
                names.deep_view()[j as int],
            ));
        }
        outs.push(outcome);
        j = j + 1;
    }
    proof {
        assert forall|t: int| 0 <= t < names@.len() implies outs.deep_view()[t] == spec_outcome(
            feature@.field_names,
            feature@,
            names.deep_view()[t],
        ) by {
            assert(outs.deep_view()[t] == outs@[t].deep_view());
        }
    }
    outs
}

/// Build the outcome array for one record from indices resolved once for a
/// whole batch: a resolution failure is reused, cloned, as the error outcome
/// at its position, without asking the source again.
pub fn outcomes_from_indices(feature: &Feature, indices: &Vec<Result<usize, GdalTraitError>>) -> (r: Vec<FieldResult>)
    ensures
        r@.len() == indices@.len(),
        forall|j: int| 0 <= j < indices@.len() ==> r.deep_view()[j] == spec_outcome_at(
            feature@,
            idx_model(indices@[j]),
        ),
{
    let mut outs: Vec<FieldResult> = Vec::new();
    let mut j: usize = 0;
    while j < indices.len()
        invariant
            0 <= j <= indices@.len(),
            outs@.len() == j,
            forall|t: int| 0 <= t < j ==> (#[trigger] outs@[t]).deep_view() == spec_outcome_at(
                feature@,
                idx_model(indices@[t]),
            ),
        decreases indices@.len() - j,
    {
        let outcome = match &indices[j] {
            Ok(i) => FieldResult::from(feature.field(*i)),
            Err(e) => FieldResult::Error(e.clone()),
        };
        proof {
            assert(outcome.deep_view() == spec_outcome_at(feature@, idx_model(indices@[j as int])));
        }
        outs.push(outcome);
        j = j + 1;
    }
    proof {
        assert forall|t: int| 0 <= t < indices@.len() implies outs.deep_view()[t] == spec_outcome_at(
            feature@,
            idx_model(indices@[t]),
        ) by {
            assert(outs.deep_view()[t] == outs@[t].deep_view());
        }
    }
    outs
}

/// The geometry argument handed to a constructor, at the specification
/// level.
pub open spec fn geom_model(g: Option<&Geometry>) -> Option<Seq<u8>> {
    match g {
        Some(x) => Some(x@),
        None => None,
    }
}

/// The contract a target type supplies to be decoded from raw records: an
/// ordered list of declared field names, and a constructor from identifier,
/// outcome array and geometry.
///
/// The constructor owns all interpretation policy: which nulls are
/// acceptable, which fields are optional, how absent geometry is handled.
/// Its behaviour is pinned by `read_model`, so the two derived entry points
/// `from_feature` and `from_layer` carry exact contracts and are not
/// reimplemented per target type.
pub trait FeatureTrait<E: DeepView + From<GdalTraitError>>: Sized + DeepView {
    /// The declared field names, in the order their outcomes occupy in the
    /// outcome array, at the specification level.
    spec fn spec_fields() -> Seq<Seq<char>>;

    /// What `read` yields, at the specification level.
    spec fn read_model(
        fid: Option<u64>,
        fields: Seq<FieldResultModel>,
        geometry: Option<Seq<u8>>,
    ) -> Result<Self::V, E::V>;

    /// The declared field names: the single source of truth both for what
    /// to fetch and for each field's position in the outcome array.
    fn fields() -> (r: Vec<String>)
        ensures
            r.deep_view() == Self::spec_fields(),
    ;

    /// Read fields, geometry, etc. from the parts of one source record.
    ///
    /// Called by `from_feature` and `from_layer`, which hand it one outcome
    /// per declared field, in declared order.
    fn read(fid: Option<u64>, fields: Vec<FieldResult>, geometry: Option<&Geometry>) -> (r: Result<Self, E>)
        ensures
            res_models(r, Self::read_model(fid, fields.deep_view(), geom_model(geometry))),
    ;

    /// Decode one record: resolve each declared name against the record's
    /// own schema, fetch and wrap each field, and hand the outcome array to
    /// `read`.  A failed resolution yields an error outcome at its position,
    /// not a hard stop.
    fn from_feature(feature: &Feature) -> (r: Result<Self, E>)
        ensures
            res_models(
                r,
                Self::read_model(
                    feature@.fid,
                    spec_outcomes(feature@.field_names, feature@, Self::spec_fields()),
                    feature@.geometry,
                ),
            ),
    {
        let names = Self::fields();
        let outs = feature_outcomes(feature, &names);
        proof {
            assert(outs.deep_view() =~= spec_outcomes(
                feature@.field_names,
                feature@,
                Self::spec_fields(),
            ));
        }
        let g = feature.geometry.as_ref();
        proof {
            assert(geom_model(g) == feature@.geometry);
        }
        Self::read(feature.fid, outs, g)
    }

    /// Decode every record of a layer, in the source's iteration order.
    ///
    /// Declared names are resolved against the layer's schema exactly once,
    /// and a failed resolution is reused as the error outcome at its
    /// position in every record.  The batch fails fast: the first record
    /// whose constructor errs aborts the whole batch with that error, and
    /// no partial collection is returned.  On success the collection holds
    /// one decoded value per record, in the source's order.
    fn from_layer(layer: &Layer) -> (r: Result<Vec<Self>, E>)
        ensures
            (match r {
                Ok(vs) => {
                    &&& vs.deep_view().len() == layer@.features.len()
                    &&& forall|k: int|
                        0 <= k < layer@.features.len() ==> Self::read_model(
                            layer@.features[k].fid,
                            spec_outcomes(layer@.field_names, layer@.features[k], Self::spec_fields()),
                            layer@.features[k].geometry,
                        ) == Result::<Self::V, E::V>::Ok(#[trigger] vs.deep_view()[k])
                },
                Err(e) => exists|k: int|
                    {
                        &&& 0 <= k < layer@.features.len()
                        &&& (#[trigger] Self::read_model(layer@.features[k].fid, spec_outcomes(layer@.field_names, layer@.features[k], Self::spec_fields()), layer@.features[k].geometry)) == Result::<Self::V, E::V>::Err(e.deep_view())
                        &&& forall|j: int|
                            0 <= j < k ==> (Self::read_model(layer@.features[j].fid, spec_outcomes(layer@.field_names, layer@.features[j], Self::spec_fields()), layer@.features[j].geometry)) is Ok
                    },
            }),
    {
        let names = Self::fields();
        let mut indices: Vec<Result<usize, GdalTraitError>> = Vec::new();
        let mut j: usize = 0;
        while j < names.len()
            invariant
                0 <= j <= names@.len(),
                indices@.len() == j,
                names.deep_view() == Self::spec_fields(),
                forall|t: int| 0 <= t < j ==> idx_model(#[trigger] indices@[t]) == spec_resolve(
                    layer@.field_names,
                    Self::spec_fields()[t],
                ),
            decreases names@.len() - j,
        {
            let idx = resolve_index(&layer.field_names, &names[j]);
            proof {
                assert(names.deep_view()[j as int] == names@[j as int]@);
            }
            indices.push(idx);
            j = j + 1;
        }
        let mut out: Vec<Self> = Vec::new();
        let mut k: usize = 0;
        while k < layer.features.len()
            invariant
                0 <= k <= layer@.features.len(),
                layer@.features.len() == layer.features@.len(),
                out@.len() == k,
                out.deep_view().len() == k,
                indices@.len() == Self::spec_fields().len(),
                forall|t: int| 0 <= t < indices@.len() ==> idx_model(#[trigger] indices@[t])
                    == spec_resolve(layer@.field_names, Self::spec_fields()[t]),
                forall|t: int| 0 <= t < k ==> (#[trigger] Self::read_model(layer@.features[t].fid, spec_outcomes(layer@.field_names, layer@.features[t], Self::spec_fields()), layer@.features[t].geometry)) == Result::<Self::V, E::V>::Ok(out.deep_view()[t]),
            decreases layer@.features.len() - k,
        {
            let feature = &layer.features[k];
            proof {
                assert(feature.deep_view() == layer@.features[k as int]);
            }
            let outs = outcomes_from_indices(feature, &indices);
            proof {
                assert(outs.deep_view() =~= spec_outcomes(
                    layer@.field_names,
                    feature@,
                    Self::spec_fields(),
                ));
            }
            let g = feature.geometry.as_ref();
            proof {
                assert(geom_model(g) == feature@.geometry);
            }
            match Self::read(feature.fid, outs, g) {
                Ok(v) => {
                    out.push(v);
                    proof {
                        assert((Self::read_model(layer@.features[k as int].fid, spec_outcomes(layer@.field_names, layer@.features[k as int], Self::spec_fields()), layer@.features[k as int].geometry)) == Result::<Self::V, E::V>::Ok(out.deep_view()[k as int]));
                    }
                },
                Err(e) => {
                    proof {
                        assert((Self::read_model(layer@.features[k as int].fid, spec_outcomes(layer@.field_names, layer@.features[k as int], Self::spec_fields()), layer@.features[k as int].geometry)) == Result::<Self::V, E::V>::Err(e.deep_view()));
                    }
                    return Err(e);
                },
            }
            k = k + 1;
        }
        Ok(out)
    }
}

/// Law: a declared name that the layer's schema does not bear fails to
/// resolve for every record of the batch alike: each record's outcome array
/// carries the very same source-level error at that position.
pub proof fn lemma_resolution_failure_stable(l: LayerModel, name: Seq<char>, k1: int, k2: int)
    requires
        spec_field_index(l.field_names, name) is None,
        0 <= k1 < l.features.len(),
        0 <= k2 < l.features.len(),
    ensures
        spec_outcome(l.field_names, l.features[k1], name) == FieldResultModel::Error(
            missing_field_model(name),
        ),
        spec_outcome(l.field_names, l.features[k1], name) == spec_outcome(
            l.field_names,
            l.features[k2],
            name,
        ),
{
}

} // verus!
