//! Reporting that the native library returned no object.
//!
//! When a native function that should return an object returns null, the
//! reason is in the native library's last error message. The report fetches
//! that message, resets the native error state, and ends in the error that
//! names the function and carries the message.

use crate::error::{Error, ErrorView};
use crate::native::{Request, RequestView, Response, ResponseView};
use vstd::prelude::*;

verus! {

/// The report of a null handle, while it waits for an answer.
#[derive(PartialEq, Eq, Debug)]
pub struct NullReport {
    /// The native function that returned null.
    pub method_name: &'static str,
    /// The last error message, once it was fetched.
    pub msg: Option<String>,
}

/// The mathematical value of a [`NullReport`].
pub ghost struct NullReportView {
    pub method_name: Seq<char>,
    pub msg: Option<Seq<char>>,
}

impl View for NullReport {
    type V = NullReportView;

    open spec fn view(&self) -> NullReportView {
        NullReportView {
            method_name: self.method_name@,
            msg: match self.msg {
                Some(m) => Some(m@),
                None => None,
            },
        }
    }
}

impl NullReportView {
    /// The report of a null handle from `method_name`, at its start.
    pub open spec fn start(method_name: Seq<char>) -> NullReportView {
        NullReportView { method_name, msg: None }
    }

    /// The call that the report waits for: the message first, then the reset.
    pub open spec fn request(self) -> RequestView {
        match self.msg {
            None => RequestView::LastErrorMsg,
            Some(_) => RequestView::ErrorReset,
        }
    }

    /// Whether `response` answers the request that the report waits for.
    pub open spec fn accepts(self, response: ResponseView) -> bool {
        response.kind() == self.request().answer()
    }

    /// The report after the answer `response`: it keeps the message and goes
    /// on to the reset, or, after the reset, ends in the error.
    pub open spec fn resume(self, response: ResponseView) -> Result<NullReportView, ErrorView> {
        match self.msg {
            None => Ok(
                NullReportView {
                    method_name: self.method_name,
                    msg: Some(response->Text_0),
                },
            ),
            Some(msg) => Err(self.error(msg)),
        }
    }

    /// The error that the report ends in when the message fetched is `msg`:
    /// it names the native function that returned null.
    pub open spec fn error(self, msg: Seq<char>) -> ErrorView {
        ErrorView::NullPointer { method_name: self.method_name, msg }
    }
}

impl NullReport {
    /// Starts the report of a null handle from the native function `method_name`.
    pub fn start(method_name: &'static str) -> (report: NullReport)
        ensures
            report@ == NullReportView::start(method_name@),
    {
        NullReport { method_name, msg: None }
    }

    /// The call that the report waits for.
    pub fn request(&self) -> (request: Request)
        ensures
            request@ == self@.request(),
    {
        match &self.msg {
            None => Request::LastErrorMsg,
            Some(_) => Request::ErrorReset,
        }
    }

    /// Whether `response` answers the request that the report waits for.
    pub fn accepts(&self, response: &Response) -> (b: bool)
        ensures
            b == self@.accepts(response@),
    {
        response.kind() == self.request().answer()
    }

    /// Hands the report the answer to its request.
    ///
    /// `Ok` is the report to go on with; `Err` is the error it ends in.
    pub fn resume(self, response: Response) -> (next: Result<NullReport, Error>)
        requires
            self@.accepts(response@),
        ensures
            match next {
                Ok(report) => self@.resume(response@) == Ok::<NullReportView, ErrorView>(report@),
                Err(error) => self@.resume(response@) == Err::<NullReportView, ErrorView>(error@),
            },
    {
        match self.msg {
            None => match response {
                Response::Text(msg) => Ok(NullReport { method_name: self.method_name, msg: Some(msg) }),
                _ => vstd::pervasive::unreached(),
            },
            Some(msg) => Err(Error::NullPointer { method_name: self.method_name, msg }),
        }
    }
}

} // verus!
