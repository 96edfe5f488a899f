//! What can go wrong at the native boundary.

use vstd::prelude::*;

verus! {

/// A failure of one operation. Every variant is recoverable: the feature that
/// the operation ran on stays usable, and must still be destroyed.
#[derive(PartialEq, Eq, Debug)]
pub enum Error {
    /// A name or a value holds a zero byte, at `position` of its encoding, and
    /// so cannot be handed to the native library. No native call was made.
    FfiNulError { position: usize },
    /// The native function `method_name` returned no object. `msg` is the
    /// native library's last error message.
    NullPointer { method_name: &'static str, msg: String },
    /// The native function `method_name` returned the status `err`, which is
    /// not the status of success.
    OgrError { err: u32, method_name: &'static str },
    /// The schema reports the type code `field_type` for a field, and no
    /// field value stands for that type.
    UnhandledFieldType { field_type: u32, method_name: &'static str },
    /// The schema has no field called `field_name`.
    InvalidFieldName { field_name: String, method_name: &'static str },
    /// The feature has no geometry slot `index`.
    InvalidFieldIndex { index: usize, method_name: &'static str },
}

/// The mathematical value of an [`Error`]: texts are sequences of characters.
pub ghost enum ErrorView {
    FfiNulError { position: usize },
    NullPointer { method_name: Seq<char>, msg: Seq<char> },
    OgrError { err: u32, method_name: Seq<char> },
    UnhandledFieldType { field_type: u32, method_name: Seq<char> },
    InvalidFieldName { field_name: Seq<char>, method_name: Seq<char> },
    InvalidFieldIndex { index: usize, method_name: Seq<char> },
}

impl View for Error {
    type V = ErrorView;

    open spec fn view(&self) -> ErrorView {
        match *self {
            Error::FfiNulError { position } => ErrorView::FfiNulError { position },
            Error::NullPointer { method_name, msg } => ErrorView::NullPointer {
                method_name: method_name@,
                msg: msg@,
            },
            Error::OgrError { err, method_name } => ErrorView::OgrError {
                err,
                method_name: method_name@,
            },
            Error::UnhandledFieldType { field_type, method_name } => ErrorView::UnhandledFieldType {
                field_type,
                method_name: method_name@,
            },
            Error::InvalidFieldName { field_name, method_name } => ErrorView::InvalidFieldName {
                field_name: field_name@,
                method_name: method_name@,
            },
            Error::InvalidFieldIndex { index, method_name } => ErrorView::InvalidFieldIndex {
                index,
                method_name: method_name@,
            },
        }
    }
}

/// The mathematical value of a result that carries nothing but a possible error.
pub open spec fn outcome_view(result: Result<(), Error>) -> Result<(), ErrorView> {
    match result {
        Ok(_) => Ok(()),
        Err(error) => Err(error@),
    }
}

} // verus!
