//! Reading one field of a feature.
//!
//! The field is found by its name, its declared type is looked up, and the
//! getter of that type is called: text for a text field, a real number for a
//! real field, a whole number for an integer field. A field of any other type
//! is not read.

use crate::error::{Error, ErrorView};
use crate::field::{FieldValue, FieldValueView, OFT_INTEGER, OFT_REAL, OFT_STRING};
use crate::handle::Handle;
use crate::native::{Request, RequestView, Response, ResponseView};
use crate::step::{Step, StepView};
use crate::text::{check_text, is_native_text, nul_error};
use vstd::prelude::*;

verus! {

/// The reading of a field, while it waits for an answer.
#[derive(PartialEq, Eq, Debug)]
pub enum FieldRead {
    /// Waits for the index of the field called `name`.
    Lookup { feature: Handle, name: String },
    /// Waits for the definition of field `index`.
    Describe { feature: Handle, index: i32 },
    /// Waits for the type that `field_defn` declares.
    Classify { feature: Handle, index: i32, field_defn: Handle },
    /// Waits for the text in field `index`.
    AsString { feature: Handle, index: i32 },
    /// Waits for the real number in field `index`.
    AsDouble { feature: Handle, index: i32 },
    /// Waits for the whole number in field `index`.
    AsInteger { feature: Handle, index: i32 },
}

/// The mathematical value of a [`FieldRead`].
pub ghost enum FieldReadView {
    Lookup { feature: Handle, name: Seq<char> },
    Describe { feature: Handle, index: i32 },
    Classify { feature: Handle, index: i32, field_defn: Handle },
    AsString { feature: Handle, index: i32 },
    AsDouble { feature: Handle, index: i32 },
    AsInteger { feature: Handle, index: i32 },
}

impl View for FieldRead {
    type V = FieldReadView;

    open spec fn view(&self) -> FieldReadView {
        match *self {
            FieldRead::Lookup { feature, name } => FieldReadView::Lookup { feature, name: name@ },
            FieldRead::Describe { feature, index } => FieldReadView::Describe { feature, index },
            FieldRead::Classify { feature, index, field_defn } => FieldReadView::Classify {
                feature,
                index,
                field_defn,
            },
            FieldRead::AsString { feature, index } => FieldReadView::AsString { feature, index },
            FieldRead::AsDouble { feature, index } => FieldReadView::AsDouble { feature, index },
            FieldRead::AsInteger { feature, index } => FieldReadView::AsInteger { feature, index },
        }
    }
}

impl FieldReadView {
    /// Reading the field `name` of `feature`, from the start: a name that
    /// cannot cross the boundary ends it before anything is asked.
    pub open spec fn start(feature: Handle, name: Seq<char>) -> StepView<
        FieldReadView,
        FieldValueView,
    > {
        if is_native_text(name) {
            StepView::Ask(FieldReadView::Lookup { feature, name })
        } else {
            StepView::Done(Err(nul_error(name)))
        }
    }

    /// The call that the reading waits for.
    pub open spec fn request(self) -> RequestView {
        match self {
            FieldReadView::Lookup { feature, name } => RequestView::FieldIndex { feature, name },
            FieldReadView::Describe { feature, index } => RequestView::FieldDefnRef {
                feature,
                index,
            },
            FieldReadView::Classify { field_defn, .. } => RequestView::FieldType { field_defn },
            FieldReadView::AsString { feature, index } => RequestView::FieldAsString {
                feature,
                index,
            },
            FieldReadView::AsDouble { feature, index } => RequestView::FieldAsDouble {
                feature,
                index,
            },
            FieldReadView::AsInteger { feature, index } => RequestView::FieldAsInteger {
                feature,
                index,
            },
        }
    }

    /// Whether `response` answers the request that the reading waits for.
    pub open spec fn accepts(self, response: ResponseView) -> bool {
        response.kind() == self.request().answer()
    }

    /// The reading after the answer `response` to its request.
    pub open spec fn resume(self, response: ResponseView) -> StepView<
        FieldReadView,
        FieldValueView,
    > {
        match self {
            FieldReadView::Lookup { feature, name } => {
                let index = response->Integer_0;
                if index == -1 {
                    StepView::Done(
                        Err(ErrorView::InvalidFieldName { field_name: name, method_name: "field"@ }),
                    )
                } else {
                    StepView::Ask(FieldReadView::Describe { feature, index })
                }
            },
            FieldReadView::Describe { feature, index } => StepView::Ask(
                FieldReadView::Classify { feature, index, field_defn: response->Handle_0 },
            ),
            FieldReadView::Classify { feature, index, .. } => {
                let field_type = response->Code_0;
                if field_type == OFT_STRING {
                    StepView::Ask(FieldReadView::AsString { feature, index })
                } else if field_type == OFT_REAL {
                    StepView::Ask(FieldReadView::AsDouble { feature, index })
                } else if field_type == OFT_INTEGER {
                    StepView::Ask(FieldReadView::AsInteger { feature, index })
                } else {
                    StepView::Done(
                        Err(
                            ErrorView::UnhandledFieldType {
                                field_type,
                                method_name: "OGR_Fld_GetType"@,
                            },
                        ),
                    )
                }
            },
            FieldReadView::AsString { .. } => StepView::Done(
                Ok(FieldValueView::StringValue(response->Text_0)),
            ),
            FieldReadView::AsDouble { .. } => StepView::Done(
                Ok(FieldValueView::RealValue(response->Real_0)),
            ),
            FieldReadView::AsInteger { .. } => StepView::Done(
                Ok(FieldValueView::IntegerValue(response->Integer_0)),
            ),
        }
    }
}

impl FieldRead {
    /// Starts reading the field `name` of the feature behind `feature`.
    pub fn start(feature: Handle, name: &str) -> (step: Step<FieldRead, FieldValue>)
        ensures
            step@ == FieldReadView::start(feature, name@),
    {
        match check_text(name) {
            Err(e) => Step::Done(Err(e)),
            Ok(()) => Step::Ask(FieldRead::Lookup { feature, name: name.to_owned() }),
        }
    }

    /// The call that the reading waits for.
    pub fn request(&self) -> (request: Request)
        ensures
            request@ == self@.request(),
    {
        match self {
            FieldRead::Lookup { feature, name } => Request::FieldIndex {
                feature: *feature,
                name: name.clone(),
            },
            FieldRead::Describe { feature, index } => Request::FieldDefnRef {
                feature: *feature,
                index: *index,
            },
            FieldRead::Classify { field_defn, .. } => Request::FieldType { field_defn: *field_defn },
            FieldRead::AsString { feature, index } => Request::FieldAsString {
                feature: *feature,
                index: *index,
            },
            FieldRead::AsDouble { feature, index } => Request::FieldAsDouble {
                feature: *feature,
                index: *index,
            },
            FieldRead::AsInteger { feature, index } => Request::FieldAsInteger {
                feature: *feature,
                index: *index,
            },
        }
    }

    /// Whether `response` answers the request that the reading waits for.
    pub fn accepts(&self, response: &Response) -> (b: bool)
        ensures
            b == self@.accepts(response@),
    {
        response.kind() == self.request().answer()
    }

    /// Hands the reading the answer to its request.
    pub fn resume(self, response: Response) -> (step: Step<FieldRead, FieldValue>)
        requires
            self@.accepts(response@),
        ensures
            step@ == self@.resume(response@),
    {
        match self {
            FieldRead::Lookup { feature, name } => match response {
                Response::Integer(index) => {
                    if index == -1 {
                        Step::Done(
                            Err(Error::InvalidFieldName { field_name: name, method_name: "field" }),
                        )
                    } else {
                        Step::Ask(FieldRead::Describe { feature, index })
                    }
                },
                _ => vstd::pervasive::unreached(),
            },
            FieldRead::Describe { feature, index } => match response {
                Response::Handle(field_defn) => Step::Ask(
                    FieldRead::Classify { feature, index, field_defn },
                ),
                _ => vstd::pervasive::unreached(),
            },
            FieldRead::Classify { feature, index, .. } => match response {
                Response::Code(field_type) => {
                    if field_type == OFT_STRING {
                        Step::Ask(FieldRead::AsString { feature, index })
                    } else if field_type == OFT_REAL {
                        Step::Ask(FieldRead::AsDouble { feature, index })
                    } else if field_type == OFT_INTEGER {
                        Step::Ask(FieldRead::AsInteger { feature, index })
                    } else {
                        Step::Done(
                            Err(
                                Error::UnhandledFieldType {
                                    field_type,
                                    method_name: "OGR_Fld_GetType",
                                },
                            ),
                        )
                    }
                },
                _ => vstd::pervasive::unreached(),
            },
            FieldRead::AsString { .. } => match response {
                Response::Text(rv) => Step::Done(Ok(FieldValue::StringValue(rv))),
                _ => vstd::pervasive::unreached(),
            },
            FieldRead::AsDouble { .. } => match response {
                Response::Real(rv) => Step::Done(Ok(FieldValue::RealValue(rv))),
                _ => vstd::pervasive::unreached(),
            },
            FieldRead::AsInteger { .. } => match response {
                Response::Integer(rv) => Step::Done(Ok(FieldValue::IntegerValue(rv))),
                _ => vstd::pervasive::unreached(),
            },
        }
    }
}

} // verus!
