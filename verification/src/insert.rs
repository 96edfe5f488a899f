//! Writing a feature into a layer.

use crate::error::{Error, ErrorView};
use crate::handle::Handle;
use crate::native::{Request, RequestView, Response, ResponseView, OGRERR_NONE};
use crate::step::{Step, StepView};
use vstd::prelude::*;

verus! {

/// The writing of a feature into a layer, while it waits for the status.
#[derive(PartialEq, Eq, Debug)]
pub struct Insert {
    pub layer: Handle,
    pub feature: Handle,
}

/// The mathematical value of an [`Insert`].
pub ghost struct InsertView {
    pub layer: Handle,
    pub feature: Handle,
}

impl View for Insert {
    type V = InsertView;

    open spec fn view(&self) -> InsertView {
        InsertView { layer: self.layer, feature: self.feature }
    }
}

/// What a native status means for the function `method_name` that returned
/// it: success, or the error that keeps the status and the function's name.
pub open spec fn status_result(status: u32, method_name: Seq<char>) -> Result<(), ErrorView> {
    if status == OGRERR_NONE {
        Ok(())
    } else {
        Err(ErrorView::OgrError { err: status, method_name })
    }
}

impl InsertView {
    /// The call that the writing waits for.
    pub open spec fn request(self) -> RequestView {
        RequestView::LayerCreateFeature { layer: self.layer, feature: self.feature }
    }

    /// Whether `response` answers the request that the writing waits for.
    pub open spec fn accepts(self, response: ResponseView) -> bool {
        response.kind() == self.request().answer()
    }

    /// The writing after the answer `response`: it has ended, in what the status means.
    pub open spec fn resume(self, response: ResponseView) -> StepView<InsertView, ()> {
        StepView::Done(status_result(response->Code_0, "OGR_L_CreateFeature"@))
    }
}

impl Insert {
    /// Starts writing the feature behind `feature` into the layer behind `layer`.
    pub fn start(layer: Handle, feature: Handle) -> (step: Step<Insert, ()>)
        ensures
            step@ == StepView::<InsertView, ()>::Ask(InsertView { layer, feature }),
    {
        Step::Ask(Insert { layer, feature })
    }

    /// The call that the writing waits for.
    pub fn request(&self) -> (request: Request)
        ensures
            request@ == self@.request(),
    {
        Request::LayerCreateFeature { layer: self.layer, feature: self.feature }
    }

    /// Whether `response` answers the request that the writing waits for.
    pub fn accepts(&self, response: &Response) -> (b: bool)
        ensures
            b == self@.accepts(response@),
    {
        response.kind() == self.request().answer()
    }

    /// Hands the writing the status that the native library returned.
    pub fn resume(self, response: Response) -> (step: Step<Insert, ()>)
        requires
            self@.accepts(response@),
        ensures
            step@ == self@.resume(response@),
    {
        match response {
            Response::Code(rv) => {
                if rv != OGRERR_NONE {
                    Step::Done(Err(Error::OgrError { err: rv, method_name: "OGR_L_CreateFeature" }))
                } else {
                    Step::Done(Ok(()))
                }
            },
            _ => vstd::pervasive::unreached(),
        }
    }
}

} // verus!
