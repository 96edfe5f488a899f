//! Writing one field of a feature.
//!
//! The name, and a text value, are checked first; then the field is found by
//! its name; only then is the value stored. A name that the schema does not
//! have ends the writing before anything is stored.

use crate::error::{Error, ErrorView};
use crate::field::{FieldValue, FieldValueView};
use crate::handle::Handle;
use crate::native::{Request, RequestView, Response, ResponseView};
use crate::step::{Step, StepView};
use crate::text::{check_text, is_native_text, nul_error};
use vstd::prelude::*;

verus! {

/// The writing of a field, while it waits for an answer.
#[derive(PartialEq, Eq, Debug)]
pub enum FieldWrite {
    /// Waits for the index of the field called `name`.
    Lookup { feature: Handle, name: String, value: FieldValue },
    /// Waits for the native library to have stored `value` in field `index`.
    Store { feature: Handle, index: i32, value: FieldValue },
}

/// The mathematical value of a [`FieldWrite`].
pub ghost enum FieldWriteView {
    Lookup { feature: Handle, name: Seq<char>, value: FieldValueView },
    Store { feature: Handle, index: i32, value: FieldValueView },
}

impl View for FieldWrite {
    type V = FieldWriteView;

    open spec fn view(&self) -> FieldWriteView {
        match *self {
            FieldWrite::Lookup { feature, name, value } => FieldWriteView::Lookup {
                feature,
                name: name@,
                value: value@,
            },
            FieldWrite::Store { feature, index, value } => FieldWriteView::Store {
                feature,
                index,
                value: value@,
            },
        }
    }
}

/// The call that stores `value` in field `index` of `feature`.
pub open spec fn store_request(feature: Handle, index: i32, value: FieldValueView) -> RequestView {
    match value {
        FieldValueView::StringValue(value) => RequestView::SetFieldString { feature, index, value },
        FieldValueView::RealValue(value) => RequestView::SetFieldDouble { feature, index, value },
        FieldValueView::IntegerValue(value) => RequestView::SetFieldInteger {
            feature,
            index,
            value,
        },
    }
}

impl FieldWriteView {
    /// Writing `value` to the field `name` of `feature`, from the start. The
    /// name is checked first, then a text value; either ends the writing
    /// before anything is asked.
    pub open spec fn start(feature: Handle, name: Seq<char>, value: FieldValueView) -> StepView<
        FieldWriteView,
        (),
    > {
        if !is_native_text(name) {
            StepView::Done(Err(nul_error(name)))
        } else {
            match value {
                FieldValueView::StringValue(text) if !is_native_text(text) => StepView::Done(
                    Err(nul_error(text)),
                ),
                _ => StepView::Ask(FieldWriteView::Lookup { feature, name, value }),
            }
        }
    }

    /// The call that the writing waits for.
    pub open spec fn request(self) -> RequestView {
        match self {
            FieldWriteView::Lookup { feature, name, .. } => RequestView::FieldIndex {
                feature,
                name,
            },
            FieldWriteView::Store { feature, index, value } => store_request(feature, index, value),
        }
    }

    /// Whether `response` answers the request that the writing waits for.
    pub open spec fn accepts(self, response: ResponseView) -> bool {
        response.kind() == self.request().answer()
    }

    /// The writing after the answer `response` to its request.
    pub open spec fn resume(self, response: ResponseView) -> StepView<FieldWriteView, ()> {
        match self {
            FieldWriteView::Lookup { feature, name, value } => {
                let index = response->Integer_0;
                if index == -1 {
                    StepView::Done(
                        Err(
                            ErrorView::InvalidFieldName {
                                field_name: name,
                                method_name: "set_field_string"@,
                            },
                        ),
                    )
                } else {
                    StepView::Ask(FieldWriteView::Store { feature, index, value })
                }
            },
            FieldWriteView::Store { .. } => StepView::Done(Ok(())),
        }
    }
}

impl FieldWrite {
    /// Starts writing the text `value` to the field `name`.
    pub fn start_string(feature: Handle, name: &str, value: &str) -> (step: Step<FieldWrite, ()>)
        ensures
            step@ == FieldWriteView::start(feature, name@, FieldValueView::StringValue(value@)),
    {
        match check_text(name) {
            Err(e) => Step::Done(Err(e)),
            Ok(()) => match check_text(value) {
                Err(e) => Step::Done(Err(e)),
                Ok(()) => Step::Ask(
                    FieldWrite::Lookup {
                        feature,
                        name: name.to_owned(),
                        value: FieldValue::StringValue(value.to_owned()),
                    },
                ),
            },
        }
    }

    /// Starts writing the real number with the bits `value` to the field `name`.
    pub fn start_double(feature: Handle, name: &str, value: u64) -> (step: Step<FieldWrite, ()>)
        ensures
            step@ == FieldWriteView::start(feature, name@, FieldValueView::RealValue(value)),
    {
        match check_text(name) {
            Err(e) => Step::Done(Err(e)),
            Ok(()) => Step::Ask(
                FieldWrite::Lookup {
                    feature,
                    name: name.to_owned(),
                    value: FieldValue::RealValue(value),
                },
            ),
        }
    }

    /// Starts writing the whole number `value` to the field `name`.
    pub fn start_integer(feature: Handle, name: &str, value: i32) -> (step: Step<FieldWrite, ()>)
        ensures
            step@ == FieldWriteView::start(feature, name@, FieldValueView::IntegerValue(value)),
    {
        match check_text(name) {
            Err(e) => Step::Done(Err(e)),
            Ok(()) => Step::Ask(
                FieldWrite::Lookup {
                    feature,
                    name: name.to_owned(),
                    value: FieldValue::IntegerValue(value),
                },
            ),
        }
    }

    /// Starts writing `value` to the field `name`, by the setter of its kind.
    pub fn start(feature: Handle, name: &str, value: &FieldValue) -> (step: Step<FieldWrite, ()>)
        ensures
            step@ == FieldWriteView::start(feature, name@, value@),
    {
        match value {
            FieldValue::RealValue(value) => FieldWrite::start_double(feature, name, *value),
            FieldValue::StringValue(value) => FieldWrite::start_string(
                feature,
                name,
                value.as_str(),
            ),
            FieldValue::IntegerValue(value) => FieldWrite::start_integer(feature, name, *value),
        }
    }

    /// The call that the writing waits for.
    pub fn request(&self) -> (request: Request)
        ensures
            request@ == self@.request(),
    {
        match self {
            FieldWrite::Lookup { feature, name, .. } => Request::FieldIndex {
                feature: *feature,
                name: name.clone(),
            },
            FieldWrite::Store { feature, index, value } => match value {
                FieldValue::StringValue(value) => Request::SetFieldString {
                    feature: *feature,
                    index: *index,
                    value: value.clone(),
                },
                FieldValue::RealValue(value) => Request::SetFieldDouble {
                    feature: *feature,
                    index: *index,
                    value: *value,
                },
                FieldValue::IntegerValue(value) => Request::SetFieldInteger {
                    feature: *feature,
                    index: *index,
                    value: *value,
                },
            },
        }
    }

    /// Whether `response` answers the request that the writing waits for.
    pub fn accepts(&self, response: &Response) -> (b: bool)
        ensures
            b == self@.accepts(response@),
    {
        response.kind() == self.request().answer()
    }

    /// Hands the writing the answer to its request.
    pub fn resume(self, response: Response) -> (step: Step<FieldWrite, ()>)
        requires
            self@.accepts(response@),
        ensures
            step@ == self@.resume(response@),
    {
        match self {
            FieldWrite::Lookup { feature, name, value } => match response {
                Response::Integer(index) => {
                    if index == -1 {
                        Step::Done(
                            Err(
                                Error::InvalidFieldName {
                                    field_name: name,
                                    method_name: "set_field_string",
                                },
                            ),
                        )
                    } else {
                        Step::Ask(FieldWrite::Store { feature, index, value })
                    }
                },
                _ => vstd::pervasive::unreached(),
            },
            FieldWrite::Store { .. } => Step::Done(Ok(())),
        }
    }
}

} // verus!
