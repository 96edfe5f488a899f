//! Making a geometry from its well-known text.
//!
//! The text is parsed by the native library, not here: the binding checks
//! that the text can cross, asks for the geometry, and reads the status.

use crate::error::{Error, ErrorView};
use crate::geometry::Geometry;
use crate::native::{Request, RequestView, Response, ResponseView, OGRERR_NONE};
use crate::step::{Step, StepView};
use crate::text::{check_text, is_native_text, nul_error};
use vstd::prelude::*;

verus! {

/// The making of a geometry from text, while it waits for the answer.
#[derive(PartialEq, Eq, Debug)]
pub struct FromWkt {
    pub wkt: String,
}

/// The mathematical value of a [`FromWkt`].
pub ghost struct FromWktView {
    pub wkt: Seq<char>,
}

impl View for FromWkt {
    type V = FromWktView;

    open spec fn view(&self) -> FromWktView {
        FromWktView { wkt: self.wkt@ }
    }
}

impl FromWktView {
    /// Making a geometry from `wkt`, from the start: a text that cannot
    /// cross the boundary ends it before anything is asked.
    pub open spec fn start(wkt: Seq<char>) -> StepView<FromWktView, Geometry> {
        if is_native_text(wkt) {
            StepView::Ask(FromWktView { wkt })
        } else {
            StepView::Done(Err(nul_error(wkt)))
        }
    }

    /// The call that the making waits for.
    pub open spec fn request(self) -> RequestView {
        RequestView::GeometryFromWkt { wkt: self.wkt }
    }

    /// Whether `response` answers the request that the making waits for.
    pub open spec fn accepts(self, response: ResponseView) -> bool {
        response.kind() == self.request().answer()
    }

    /// The making after the answer `response`: on the status of success the
    /// geometry that was made, freestanding; on any other status the error
    /// that keeps the status.
    pub open spec fn resume(self, response: ResponseView) -> StepView<FromWktView, Geometry> {
        let status = response->Made_status;
        if status == OGRERR_NONE {
            StepView::Done(Ok(Geometry::Owned(response->Made_object)))
        } else {
            StepView::Done(
                Err(ErrorView::OgrError { err: status, method_name: "OGR_G_CreateFromWkt"@ }),
            )
        }
    }
}

impl FromWkt {
    /// The call that the making waits for.
    pub fn request(&self) -> (request: Request)
        ensures
            request@ == self@.request(),
    {
        Request::GeometryFromWkt { wkt: self.wkt.clone() }
    }

    /// Whether `response` answers the request that the making waits for.
    pub fn accepts(&self, response: &Response) -> (b: bool)
        ensures
            b == self@.accepts(response@),
    {
        response.kind() == self.request().answer()
    }

    /// Hands the making the answer to its request.
    pub fn resume(self, response: Response) -> (step: Step<FromWkt, Geometry>)
        requires
            self@.accepts(response@),
        ensures
            step@ == self@.resume(response@),
    {
        match response {
            Response::Made { status, object } => {
                if status != OGRERR_NONE {
                    Step::Done(
                        Err(Error::OgrError { err: status, method_name: "OGR_G_CreateFromWkt" }),
                    )
                } else {
                    Step::Done(Ok(Geometry::with_c_geometry(object, true)))
                }
            },
            _ => vstd::pervasive::unreached(),
        }
    }
}

impl Geometry {
    /// Starts making a freestanding geometry from the well-known text `wkt`.
    pub fn from_wkt(wkt: &str) -> (step: Step<FromWkt, Geometry>)
        ensures
            step@ == FromWktView::start(wkt@),
    {
        match check_text(wkt) {
            Err(e) => Step::Done(Err(e)),
            Ok(()) => Step::Ask(FromWkt { wkt: wkt.to_owned() }),
        }
    }
}

} // verus!
