//! The error-checking adapter alone: the status convention, and when the
//! diagnostic subsystem is consulted.

use h5core::context::H5Context;
use h5core::error::{h5check, Error};
use h5core::herr_t;
use std::cell::Cell;

#[test]
fn check_passes_non_negative_status_through() {
    let diag = || String::from("unused");
    assert_eq!(h5check(0, &diag).unwrap(), 0);
    // Many foreign functions overload the status as a payload, e.g. a handle.
    assert_eq!(h5check(42, &diag).unwrap(), 42);
}

#[test]
fn check_turns_negative_status_into_error() {
    let diag = || String::from("most recent failure");
    match h5check(-2, &diag) {
        Ok(_) => panic!("expected failure"),
        Err(Error::StatusFailure { status, detail }) => {
            assert_eq!(status, -2);
            assert_eq!(detail, "most recent failure");
        }
        Err(_) => panic!("expected a status failure"),
    }
}

#[test]
fn check_consults_diagnostics_only_on_failure() {
    let consulted = Cell::new(0u32);
    let diag = || {
        consulted.set(consulted.get() + 1);
        String::from("detail")
    };
    assert!(h5check(7, &diag).is_ok());
    assert_eq!(consulted.get(), 0);
    assert!(h5check(-7, &diag).is_err());
    assert_eq!(consulted.get(), 1);
}

#[test]
fn checked_call_checks_inside_the_locked_region() {
    let consulted = Cell::new(0u32);
    let ctx = H5Context::new(|| {
        consulted.set(consulted.get() + 1);
        String::from("detail")
    });
    let ok = ctx.call(|| 11 as herr_t);
    assert_eq!(ok.unwrap(), 11);
    assert_eq!(consulted.get(), 0);
    let err = ctx.call(|| -11 as herr_t);
    assert_eq!(err.unwrap_err().description(), "detail");
    assert_eq!(consulted.get(), 1);
}
