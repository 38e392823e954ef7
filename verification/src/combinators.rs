//! Propagation combinators: terse control-flow helpers over results,
//! introducing no new state. The first failure anywhere in a call chain is
//! the one that surfaces, with its text intact.
//!
//! try-unwrap-or-return is the `?` operator applied to a checked call: on
//! success it yields the raw status to the surrounding expression, on
//! failure it returns from the enclosing operation at once, skipping
//! everything after it.

use crate::error::Error;
use vstd::prelude::*;

verus! {

/// fail-with: the enclosing operation ends at once with `err`; a call site
/// writes `return fail(err)`.
pub fn fail<T>(err: Error) -> (r: Result<T, Error>)
    ensures
        r == Err::<T, Error>(err),
{
    Err(err)
}

/// fail-with, formatted form: the enclosing operation ends at once with an
/// assertion failure carrying exactly `message`; the message is converted
/// into the error type through its from-conversion.
pub fn fail_message<T>(message: String) -> (r: Result<T, Error>)
    ensures
        (r matches Err(e) && e == (Error::AssertionFailure { message })),
{
    Err(Error::from(message))
}

/// assert-or-fail: a no-op when `cond` holds; otherwise behaves as
/// fail-with of exactly the formatted `message`.
pub fn ensure(cond: bool, message: String) -> (r: Result<(), Error>)
    ensures
        cond ==> r == Ok::<(), Error>(()),
        !cond ==> (r matches Err(e) && e == (Error::AssertionFailure { message })),
{
    if cond {
        Ok(())
    } else {
        fail_message(message)
    }
}

/// clone-or-propagate-borrowed: given a borrowed result that cannot be
/// moved out of shared state, yields a reference to the success value, or
/// propagates a clone of the stored error, unchanged.
pub fn try_ref_clone<'a, T>(res: &'a Result<T, Error>) -> (r: Result<&'a T, Error>)
    ensures
        match *res {
            Ok(v) => (r matches Ok(w) && *w == v),
            Err(e) => (r matches Err(e2) && e2 == e),
        },
{
    match res {
        Ok(val) => Ok(val),
        Err(err) => Err(err.clone()),
    }
}

} // verus!
