//! How an operation proceeds: it asks, or it is done.

use crate::error::{Error, ErrorView};
use vstd::prelude::*;

verus! {

/// Where an operation stands after it was started or resumed.
///
/// `P` is the operation while it waits for an answer; `T` is what it yields.
#[derive(PartialEq, Eq, Debug)]
pub enum Step<P, T> {
    /// The operation needs the answer to `P`'s request before it can go on.
    Ask(P),
    /// The operation has ended, with its result.
    Done(Result<T, Error>),
}

/// The mathematical value of a [`Step`].
pub ghost enum StepView<P, T> {
    Ask(P),
    Done(Result<T, ErrorView>),
}

impl<P: View, T: View> View for Step<P, T> {
    type V = StepView<P::V, T::V>;

    open spec fn view(&self) -> StepView<P::V, T::V> {
        match *self {
            Step::Ask(p) => StepView::Ask(p@),
            Step::Done(Ok(t)) => StepView::Done(Ok(t@)),
            Step::Done(Err(e)) => StepView::Done(Err(e@)),
        }
    }
}

impl<P, T> Step<P, T> {
    /// Whether the operation has ended.
    pub fn is_done(&self) -> (b: bool)
        ensures
            b == (*self is Done),
    {
        match self {
            Step::Ask(_) => false,
            Step::Done(_) => true,
        }
    }
}

} // verus!
