//! The runtime failure wrapper: a handler can early-return an ad-hoc failure
//! carrying a message and a status code, override the status afterwards, and
//! convert the failure into the same `(status, { error: <text> })` response
//! shape the generated implementations produce.

use vstd::prelude::*;
use vstd::string::StringExecFns;

use crate::response::ErrorResponseBody;

verus! {

/// A handler failure: the underlying error's text plus a status code.
pub struct Failure {
    pub message: String,
    pub status: u16,
}

pub struct FailureView {
    pub message: Seq<char>,
    pub status: u16,
}

impl View for Failure {
    type V = FailureView;

    open spec fn view(&self) -> FailureView {
        FailureView { message: self.message@, status: self.status }
    }
}

impl Failure {
    /// Wraps an error's text, defaulting the status to 500.
    pub fn new(message: String) -> (f: Failure)
        ensures
            f@.message == message@,
            f@.status == 500u16,
    {
        Failure { message, status: 500 }
    }

    /// The failure converted to response parts, agreeing with the generated
    /// implementations on the body shape.
    pub fn into_response_parts(self) -> (r: (u16, ErrorResponseBody))
        ensures
            r.0 == self@.status,
            r.1.error@ == "Something went wrong: "@ + self@.message,
    {
        let mut m = String::from_str("Something went wrong: ");
        m.append(self.message.as_str());
        (self.status, ErrorResponseBody::new(m))
    }
}

impl From<String> for Failure {
    /// An error's text converts to a failure with the default status.
    fn from(message: String) -> (f: Failure) {
        Failure { message, status: 500 }
    }
}

impl vstd::std_specs::convert::FromSpecImpl<String> for Failure {
    open spec fn obeys_from_spec() -> bool {
        true
    }

    open spec fn from_spec(message: String) -> Failure {
        Failure { message, status: 500 }
    }
}

/// What a handler returns: its value, or a failure.
pub type HandlerResult<T> = Result<T, Failure>;

/// Overriding the status of a failure that is already wrapped in a result.
pub trait LazyChangeStatus<T>: Sized {
    /// Whether the value holds a failure whose status may be overridden.
    spec fn failure_present(&self) -> bool;

    /// The text of the failure held.
    spec fn failure_message(&self) -> Seq<char>;

    /// Replaces the status of the held failure, keeping its message.
    fn status(self, status: u16) -> (r: HandlerResult<T>)
        requires
            self.failure_present(),
        ensures
            r matches Err(f) && f@.status == status && f@.message == self.failure_message(),
    ;
}

impl<T> LazyChangeStatus<T> for HandlerResult<T> {
    open spec fn failure_present(&self) -> bool {
        (*self) is Err
    }

    open spec fn failure_message(&self) -> Seq<char> {
        match *self {
            Err(f) => f@.message,
            Ok(_) => Seq::empty(),
        }
    }

    fn status(self, status: u16) -> (r: HandlerResult<T>) {
        match self {
            Err(failure) => Err(Failure { message: failure.message, status }),
            Ok(v) => {
                proof {
                    assert(false);
                }
                Ok(v)
            },
        }
    }
}

/// Looks the current user up; the lookup always succeeds here.
pub fn get_user() -> (r: Result<(), ()>)
    ensures
        r is Ok,
{
    Ok(())
}

/// A handler that early-returns an unauthorized failure when no user is
/// present, and succeeds otherwise.
pub fn handler() -> (r: HandlerResult<()>)
    ensures
        r is Ok,
{
    let user = get_user();
    if user.is_err() {
        let f: HandlerResult<()> = Err(Failure::new(String::from_str("User not authenticated")));
        return f.status(401);
    }
    Ok(())
}

} // verus!
