//! Field values and the type codes that select them.

use vstd::prelude::*;

verus! {

/// The native type code of a field of whole numbers.
pub const OFT_INTEGER: u32 = 0;

/// The native type code of a field of real numbers.
pub const OFT_REAL: u32 = 2;

/// The native type code of a field of text.
pub const OFT_STRING: u32 = 4;

/// The value of one attribute field of a feature.
///
/// A real number is held as the 64 bits of its IEEE 754 encoding, which is
/// what crosses the native boundary unchanged in both directions.
#[derive(PartialEq, Eq, Debug)]
pub enum FieldValue {
    IntegerValue(i32),
    StringValue(String),
    RealValue(u64),
}

/// The mathematical value of a [`FieldValue`].
pub ghost enum FieldValueView {
    IntegerValue(i32),
    StringValue(Seq<char>),
    RealValue(u64),
}

impl FieldValueView {
    /// The native type code of the fields that hold such a value.
    pub open spec fn field_type(self) -> u32 {
        match self {
            FieldValueView::IntegerValue(_) => OFT_INTEGER,
            FieldValueView::StringValue(_) => OFT_STRING,
            FieldValueView::RealValue(_) => OFT_REAL,
        }
    }
}

impl View for FieldValue {
    type V = FieldValueView;

    open spec fn view(&self) -> FieldValueView {
        match *self {
            FieldValue::IntegerValue(v) => FieldValueView::IntegerValue(v),
            FieldValue::StringValue(s) => FieldValueView::StringValue(s@),
            FieldValue::RealValue(bits) => FieldValueView::RealValue(bits),
        }
    }
}

impl FieldValue {
    /// The text, where this is a text value; nothing otherwise.
    pub fn to_string(self) -> (r: Option<String>)
        ensures
            match self {
                FieldValue::StringValue(s) => r == Some(s),
                _ => r is None,
            },
    {
        match self {
            FieldValue::StringValue(rv) => Some(rv),
            _ => None,
        }
    }

    /// The bits of the real number, where this is a real value; nothing otherwise.
    pub fn to_real(self) -> (r: Option<u64>)
        ensures
            match self {
                FieldValue::RealValue(bits) => r == Some(bits),
                _ => r is None,
            },
    {
        match self {
            FieldValue::RealValue(rv) => Some(rv),
            _ => None,
        }
    }

    /// The whole number, where this is an integer value; nothing otherwise.
    pub fn to_int(self) -> (r: Option<i32>)
        ensures
            match self {
                FieldValue::IntegerValue(v) => r == Some(v),
                _ => r is None,
            },
    {
        match self {
            FieldValue::IntegerValue(rv) => Some(rv),
            _ => None,
        }
    }

    /// The native type code of the fields that hold such a value.
    pub fn field_type(&self) -> (code: u32)
        ensures
            code == self@.field_type(),
    {
        match self {
            FieldValue::IntegerValue(_) => OFT_INTEGER,
            FieldValue::StringValue(_) => OFT_STRING,
            FieldValue::RealValue(_) => OFT_REAL,
        }
    }
}

} // verus!
