//! The foreign library binding as this layer sees it: the serializer that
//! guards every entry, and the diagnostic subsystem consulted on failure.
//! The composed checked call runs the foreign call and checks its status
//! inside the locked region, never after it.

use crate::error::{h5check, is_status_failure, Error};
use crate::sync::Serializer;
use crate::herr_t;
use vstd::prelude::*;

verus! {

/// How a checked call's typed result `r` reflects the raw status `s` the
/// foreign call returned: a non-negative status comes back unchanged as
/// success, a negative one becomes a status failure whose detail text the
/// diagnostic subsystem `diag` produced.
pub open spec fn checked<D: FnOnce() -> String>(
    s: herr_t,
    r: Result<herr_t, Error>,
    diag: D,
) -> bool {
    if s >= 0 {
        r == Ok::<herr_t, Error>(s)
    } else {
        r matches Err(e) && is_status_failure(e, s, diag)
    }
}

/// One foreign library binding: the serializer every call must pass
/// through, and the diagnostic subsystem that builds the error text for
/// the most recent failure. Diagnostics are read only while the lock is
/// held, so they belong to this thread's failing call.
pub struct H5Context<D> {
    pub serializer: Serializer,
    pub diag: D,
}

impl<D: Fn() -> String> H5Context<D> {
    /// A binding with a fresh serializer around the diagnostic source.
    pub fn new(diag: D) -> (r: H5Context<D>)
        ensures
            r.diag == diag,
    {
        H5Context { serializer: Serializer::new(), diag }
    }

    /// The locked-call primitive: runs `f` while holding the serializer's
    /// lock and hands its result back. Nested locked calls on the same
    /// thread do not deadlock.
    pub fn sync<T, F: FnOnce() -> T>(&self, f: F) -> (r: T)
        requires
            call_requires(f, ()),
        ensures
            call_ensures(f, (), r),
    {
        self.serializer.sync(f)
    }

    /// The checked-call primitive: runs the foreign call `f` under the
    /// lock, and checks the raw status it returned — still inside the
    /// locked region, so a failure captures this call's diagnostics.
    pub fn call<F: FnOnce() -> herr_t>(&self, f: F) -> (r: Result<herr_t, Error>)
        requires
            call_requires(f, ()),
            call_requires(self.diag, ()),
        ensures
            exists|s: herr_t| #[trigger] call_ensures(f, (), s) && checked(s, r, self.diag),
    {
        let diag = &self.diag;
        let g = move || -> (res: Result<herr_t, Error>)
            ensures
                exists|s: herr_t| #[trigger] call_ensures(f, (), s) && checked(s, res, *diag),
            {
                let status = f();
                h5check(status, diag)
            };
        self.serializer.sync(g)
    }
}

} // verus!
