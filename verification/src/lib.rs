//! The decision core of a binding to the OGR vector-data library.
//!
//! Nothing in this crate calls the native library. Every operation on a
//! feature is a small state machine: it names the native call it needs as a
//! [`Request`], is handed the library's answer as a [`Response`], and either
//! asks again or finishes with a typed result. The caller performs the calls.
//! What is decided here, and proved, is which calls are made, in which order,
//! with which arguments, and how each answer is read: null handles, status
//! codes, field-type codes, missing names, and the release of every handle
//! that the binding owns.

pub mod handle;
pub mod text;
pub mod error;
pub mod field;
pub mod geometry;
pub mod wkt;
pub mod native;
pub mod step;
pub mod report;
pub mod layer;
pub mod feature;
pub mod read;
pub mod write;
pub mod insert;
pub mod append;
pub mod laws;

pub use crate::append::Append;
pub use crate::error::Error;
pub use crate::feature::{Creation, Feature, GeometryAccess, GeometryUpdate};
pub use crate::field::{FieldValue, OFT_INTEGER, OFT_REAL, OFT_STRING};
pub use crate::geometry::Geometry;
pub use crate::handle::Handle;
pub use crate::insert::Insert;
pub use crate::layer::{Defn, Layer};
pub use crate::native::{Kind, Request, Response, OGRERR_NONE};
pub use crate::read::FieldRead;
pub use crate::report::NullReport;
pub use crate::step::Step;
pub use crate::wkt::FromWkt;
pub use crate::write::FieldWrite;
