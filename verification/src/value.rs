//! The raw values a record source can hand out for one field, held as plain
//! data: primitive payloads and lists of them, a calendar date, a timestamp,
//! and an opaque geometry payload.

use vstd::prelude::*;

verus! {

/// A calendar date as plain year, month and day numbers.
#[derive(Debug, Clone, Copy, PartialEq, Eq, Structural)]
pub struct Date {
    pub year: i32,
    pub month: u8,
    pub day: u8,
}

/// A timestamp: a calendar date, a time of day, and a fixed offset from UTC
/// in seconds.
#[derive(Debug, Clone, Copy, PartialEq, Eq, Structural)]
pub struct DateTime {
    pub date: Date,
    pub hour: u8,
    pub minute: u8,
    pub second: u8,
    pub offset_seconds: i32,
}

impl DeepView for Date {
    type V = Date;

    open spec fn deep_view(&self) -> Date {
        *self
    }
}

impl DeepView for DateTime {
    type V = DateTime;

    open spec fn deep_view(&self) -> DateTime {
        *self
    }
}

/// A record's spatial geometry, carried as an opaque byte payload.  This
/// crate never looks inside it; it only hands it through to the consumer.
#[derive(Debug, PartialEq)]
pub struct Geometry {
    pub data: Vec<u8>,
}

impl Clone for Geometry {
    /// A clone carries the same payload.
    fn clone(&self) -> (r: Self)
        ensures
            r@ == self@,
    {
        Geometry { data: clone_plain_vec(&self.data) }
    }
}

impl View for Geometry {
    type V = Seq<u8>;

    open spec fn view(&self) -> Seq<u8> {
        self.data@
    }
}

impl DeepView for Geometry {
    type V = Seq<u8>;

    open spec fn deep_view(&self) -> Seq<u8> {
        self.data@
    }
}

/// The closed set of raw payloads a field can carry.  A real (double
/// precision) value is held as its raw bit pattern, never interpreted here:
/// the consumer decides what to make of it.
#[derive(Debug, PartialEq)]
pub enum FieldValue {
    IntegerValue(i32),
    IntegerListValue(Vec<i32>),
    Integer64Value(i64),
    Integer64ListValue(Vec<i64>),
    StringValue(String),
    StringListValue(Vec<String>),
    RealValue(u64),
    RealListValue(Vec<u64>),
    DateValue(Date),
    DateTimeValue(DateTime),
}

/// The specification-level picture of a [`FieldValue`]: the same ten kinds,
/// with every list and string abstracted to its sequence.
pub enum FieldValueModel {
    IntegerValue(i32),
    IntegerListValue(Seq<i32>),
    Integer64Value(i64),
    Integer64ListValue(Seq<i64>),
    StringValue(Seq<char>),
    StringListValue(Seq<Seq<char>>),
    RealValue(u64),
    RealListValue(Seq<u64>),
    DateValue(Date),
    DateTimeValue(DateTime),
}

impl DeepView for FieldValue {
    type V = FieldValueModel;

    open spec fn deep_view(&self) -> FieldValueModel {
        match self {
            FieldValue::IntegerValue(v) => FieldValueModel::IntegerValue(*v),
            FieldValue::IntegerListValue(v) => FieldValueModel::IntegerListValue(v@),
            FieldValue::Integer64Value(v) => FieldValueModel::Integer64Value(*v),
            FieldValue::Integer64ListValue(v) => FieldValueModel::Integer64ListValue(v@),
            FieldValue::StringValue(v) => FieldValueModel::StringValue(v@),
            FieldValue::StringListValue(v) => FieldValueModel::StringListValue(v.deep_view()),
            FieldValue::RealValue(v) => FieldValueModel::RealValue(*v),
            FieldValue::RealListValue(v) => FieldValueModel::RealListValue(v@),
            FieldValue::DateValue(v) => FieldValueModel::DateValue(*v),
            FieldValue::DateTimeValue(v) => FieldValueModel::DateTimeValue(*v),
        }
    }
}

impl View for FieldValue {
    type V = FieldValueModel;

    open spec fn view(&self) -> FieldValueModel {
        self.deep_view()
    }
}

/// The name of a raw value's kind, used in mismatch descriptions.
pub open spec fn spec_tag_name(v: FieldValueModel) -> Seq<char> {
    match v {
        FieldValueModel::IntegerValue(_) => "IntegerValue"@,
        FieldValueModel::IntegerListValue(_) => "IntegerListValue"@,
        FieldValueModel::Integer64Value(_) => "Integer64Value"@,
        FieldValueModel::Integer64ListValue(_) => "Integer64ListValue"@,
        FieldValueModel::StringValue(_) => "StringValue"@,
        FieldValueModel::StringListValue(_) => "StringListValue"@,
        FieldValueModel::RealValue(_) => "RealValue"@,
        FieldValueModel::RealListValue(_) => "RealListValue"@,
        FieldValueModel::DateValue(_) => "DateValue"@,
        FieldValueModel::DateTimeValue(_) => "DateTimeValue"@,
    }
}

/// The name of this raw value's kind.
pub fn tag_name(v: &FieldValue) -> (r: &'static str)
    ensures
        r@ == spec_tag_name(v.deep_view()),
{
    match v {
        FieldValue::IntegerValue(_) => "IntegerValue",
        FieldValue::IntegerListValue(_) => "IntegerListValue",
        FieldValue::Integer64Value(_) => "Integer64Value",
        FieldValue::Integer64ListValue(_) => "Integer64ListValue",
        FieldValue::StringValue(_) => "StringValue",
        FieldValue::StringListValue(_) => "StringListValue",
        FieldValue::RealValue(_) => "RealValue",
        FieldValue::RealListValue(_) => "RealListValue",
        FieldValue::DateValue(_) => "DateValue",
        FieldValue::DateTimeValue(_) => "DateTimeValue",
    }
}

impl Clone for FieldValue {
    /// A clone carries the same abstract value.
    fn clone(&self) -> (r: Self)
        ensures
            r.deep_view() == self.deep_view(),
    {
        match self {
            FieldValue::IntegerValue(v) => FieldValue::IntegerValue(*v),
            FieldValue::IntegerListValue(v) => FieldValue::IntegerListValue(clone_plain_vec(v)),
            FieldValue::Integer64Value(v) => FieldValue::Integer64Value(*v),
            FieldValue::Integer64ListValue(v) => FieldValue::Integer64ListValue(clone_plain_vec(v)),
            FieldValue::StringValue(v) => FieldValue::StringValue(v.clone()),
            FieldValue::StringListValue(v) => FieldValue::StringListValue(clone_string_vec(v)),
            FieldValue::RealValue(v) => FieldValue::RealValue(*v),
            FieldValue::RealListValue(v) => FieldValue::RealListValue(clone_plain_vec(v)),
            FieldValue::DateValue(v) => FieldValue::DateValue(*v),
            FieldValue::DateTimeValue(v) => FieldValue::DateTimeValue(*v),
        }
    }
}

/// Clone a vector of copyable elements, keeping its contents.
fn clone_plain_vec<T: Copy>(v: &Vec<T>) -> (r: Vec<T>)
    ensures
        r@ == v@,
{
    let mut r: Vec<T> = Vec::new();
    let mut i: usize = 0;
    while i < v.len()
        invariant
            0 <= i <= v.len(),
            r@ == v@.subrange(0, i as int),
        decreases v.len() - i,
    {
        r.push(v[i]);
        proof {
            assert(r@ =~= v@.subrange(0, i + 1));
        }
        i = i + 1;
    }
    proof {
        assert(r@ =~= v@);
    }
    r
}

/// Clone a vector of strings, keeping its contents.
fn clone_string_vec(v: &Vec<String>) -> (r: Vec<String>)
    ensures
        r.deep_view() == v.deep_view(),
        r@.len() == v@.len(),
{
    let mut r: Vec<String> = Vec::new();
    let mut i: usize = 0;
    while i < v.len()
        invariant
            0 <= i <= v.len(),
            r@.len() == i,
            forall|j: int| 0 <= j < i ==> r@[j] == v@[j],
        decreases v.len() - i,
    {
        r.push(v[i].clone());
        i = i + 1;
    }
    proof {
        assert(r@ =~= v@);
        assert(r.deep_view() =~= v.deep_view());
    }
    r
}

} // verus!
