//! The error-checking adapter: translates the foreign library's
//! status-code convention into typed results. A negative status means
//! failure; the diagnostic subsystem is consulted to build the error value
//! at that moment, while the serializer's lock is still held, because the
//! diagnostic stack it reads is process-global state of the library.

use crate::herr_t;
use vstd::prelude::*;

verus! {

/// A failure of this layer. Values are plain data: cloneable and
/// structurally comparable, so propagation never needs runtime polymorphism.
#[derive(Debug)]
pub enum Error {
    /// A foreign call returned a sentinel (negative) status; `detail` holds
    /// the diagnostic text captured at the moment of failure.
    StatusFailure { status: herr_t, detail: String },
    /// A locally checked precondition failed; carries the formatted message.
    AssertionFailure { message: String },
}

impl Error {
    /// The human-readable text this error carries.
    pub open spec fn spec_description(self) -> Seq<char> {
        match self {
            Error::StatusFailure { detail, .. } => detail@,
            Error::AssertionFailure { message } => message@,
        }
    }

    /// The human-readable text this error carries: the captured diagnostic
    /// detail for a status failure, the formatted message for an assertion
    /// failure.
    pub fn description(&self) -> (r: &str)
        ensures
            r@ == self.spec_description(),
    {
        match self {
            Error::StatusFailure { detail, .. } => detail.as_str(),
            Error::AssertionFailure { message } => message.as_str(),
        }
    }
}

impl Clone for Error {
    /// A clone is equal to the original, so an error propagated out of a
    /// borrowed result is exactly the error that was stored there.
    fn clone(&self) -> (r: Self)
        ensures
            r == *self,
    {
        match self {
            Error::StatusFailure { status, detail } => (Error::StatusFailure {
                status: *status,
                detail: detail.clone(),
            }),
            Error::AssertionFailure { message } => (Error::AssertionFailure {
                message: message.clone(),
            }),
        }
    }
}

impl PartialEq for Error {
    /// Structural equality: same variant, same status, same text.
    fn eq(&self, other: &Error) -> (r: bool)
    {
        match (self, other) {
            (
                Error::StatusFailure { status: s1, detail: d1 },
                Error::StatusFailure { status: s2, detail: d2 },
            ) => *s1 == *s2 && *d1 == *d2,
            (
                Error::AssertionFailure { message: m1 },
                Error::AssertionFailure { message: m2 },
            ) => *m1 == *m2,
            _ => false,
        }
    }
}

impl vstd::std_specs::cmp::PartialEqSpecImpl for Error {
    open spec fn obeys_eq_spec() -> bool {
        true
    }

    open spec fn eq_spec(&self, other: &Error) -> bool {
        match (self, other) {
            (
                Error::StatusFailure { status: s1, detail: d1 },
                Error::StatusFailure { status: s2, detail: d2 },
            ) => s1 == s2 && d1@ == d2@,
            (
                Error::AssertionFailure { message: m1 },
                Error::AssertionFailure { message: m2 },
            ) => m1@ == m2@,
            _ => false,
        }
    }
}

impl From<String> for Error {
    /// A bare message converts into an assertion failure carrying it.
    fn from(message: String) -> (r: Error) {
        Error::AssertionFailure { message }
    }
}

impl vstd::std_specs::convert::FromSpecImpl<String> for Error {
    open spec fn obeys_from_spec() -> bool {
        true
    }

    open spec fn from_spec(message: String) -> Error {
        Error::AssertionFailure { message }
    }
}

/// Whether `e` is the error that `h5check` builds for sentinel status `s`
/// when the diagnostic subsystem `diag` produced the detail text.
pub open spec fn is_status_failure<D: FnOnce() -> String>(e: Error, s: herr_t, diag: D) -> bool {
    &&& e matches Error::StatusFailure { status, detail }
    &&& status == s
    &&& call_ensures(diag, (), detail)
}

/// Converts a raw status to a typed result. A non-negative status comes
/// back unchanged as success — many foreign functions overload the return
/// value as both status and payload — and a negative status consults the
/// diagnostic subsystem `diag` and fails with the detail it produced. The
/// caller must still hold the serializer's lock, so the diagnostics read
/// here are those of this thread's failing call.
pub fn h5check<D: Fn() -> String>(status: herr_t, diag: &D) -> (r: Result<herr_t, Error>)
    requires
        status < 0 ==> call_requires(*diag, ()),
    ensures
        status >= 0 ==> r == Ok::<herr_t, Error>(status),
        status < 0 ==> (r matches Err(e) && is_status_failure(e, status, *diag)),
{
    if status < 0 {
        let detail = (*diag)();
        Err(Error::StatusFailure { status, detail })
    } else {
        Ok(status)
    }
}

} // verus!
