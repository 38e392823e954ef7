//! The getter family on simulated foreign functions: success yields the
//! written values in declared order, failure propagates or falls back to
//! defaults.

use h5core::context::H5Context;
use h5core::error::Error;
use h5core::get::{h5get_scalar, h5get_scalar_d, H5Get};
use h5core::{herr_t, hid_t};
use std::cell::Cell;

fn quiet_context() -> H5Context<impl Fn() -> String> {
    H5Context::new(|| String::from("no further detail"))
}

#[test]
fn get_arity_one_success_yields_written_value() {
    let ctx = quiet_context();
    let r = <(i32,) as H5Get>::h5get(&ctx, |id: hid_t| (0 as herr_t, (id as i32) * 2), 21);
    match r {
        Ok(v) => assert_eq!(v, (42,)),
        Err(_) => panic!("expected success"),
    }
}

#[test]
fn get_arity_two_success_yields_written_values_in_order() {
    let ctx = quiet_context();
    let r = <(i32, u64) as H5Get>::h5get(&ctx, |_id: hid_t| (0 as herr_t, -7i32, 9u64), 1);
    assert_eq!(r.unwrap(), (-7, 9));
}

#[test]
fn get_arity_three_success_yields_written_values_in_order() {
    let ctx = quiet_context();
    let r = <(i32, u64, i64) as H5Get>::h5get(
        &ctx,
        |_id: hid_t| (3 as herr_t, 1i32, 2u64, 3i64),
        1,
    );
    assert_eq!(r.unwrap(), (1, 2, 3));
}

#[test]
fn get_arity_four_success_yields_written_values_in_order() {
    let ctx = quiet_context();
    let r = <(i32, u64, i64, u32) as H5Get>::h5get(
        &ctx,
        |_id: hid_t| (0 as herr_t, 1i32, 2u64, 3i64, 4u32),
        1,
    );
    assert_eq!(r.unwrap(), (1, 2, 3, 4));
}

#[test]
fn get_passes_the_identifier_through() {
    let ctx = quiet_context();
    let r = <(i64,) as H5Get>::h5get(&ctx, |id: hid_t| (0 as herr_t, id), 12345);
    assert_eq!(r.unwrap(), (12345,));
}

#[test]
fn get_on_negative_status_yields_error_with_diagnostics() {
    let consulted = Cell::new(0u32);
    let ctx = H5Context::new(|| {
        consulted.set(consulted.get() + 1);
        String::from("stack detail")
    });
    let r = <(i32, u64) as H5Get>::h5get(&ctx, |_id: hid_t| (-1 as herr_t, 5i32, 6u64), 1);
    match r {
        Ok(_) => panic!("expected failure"),
        Err(Error::StatusFailure { status, detail }) => {
            assert_eq!(status, -1);
            assert_eq!(detail, "stack detail");
        }
        Err(_) => panic!("expected a status failure"),
    }
    assert_eq!(consulted.get(), 1);
}

#[test]
fn get_or_default_on_negative_status_yields_defaults() {
    let ctx = quiet_context();
    let d = <(i32, u64) as H5Get>::h5get_d(&ctx, |_id: hid_t| (-1 as herr_t, 5i32, 6u64), 1);
    assert_eq!(d, (0, 0));
    let d3 = <(i32, u64, i64) as H5Get>::h5get_d(
        &ctx,
        |_id: hid_t| (-3 as herr_t, 5i32, 6u64, 7i64),
        1,
    );
    assert_eq!(d3, (0, 0, 0));
    let d4 = <(bool, u8, i16, u32) as H5Get>::h5get_d(
        &ctx,
        |_id: hid_t| (-3 as herr_t, true, 6u8, 7i16, 8u32),
        1,
    );
    assert_eq!(d4, (false, 0, 0, 0));
}

#[test]
fn get_or_default_on_success_yields_written_values() {
    let ctx = quiet_context();
    let d = <(i32, u64) as H5Get>::h5get_d(&ctx, |_id: hid_t| (0 as herr_t, 5i32, 6u64), 1);
    assert_eq!(d, (5, 6));
}

#[test]
fn scalar_getter_presents_bare_value() {
    let ctx = quiet_context();
    let r = h5get_scalar(&ctx, |_id: hid_t| (0 as herr_t, 17u64), 1);
    assert_eq!(r.unwrap(), 17);
    let d = h5get_scalar_d(&ctx, |_id: hid_t| (-1 as herr_t, 17u64), 1);
    assert_eq!(d, 0);
    let s = h5get_scalar_d(&ctx, |_id: hid_t| (1 as herr_t, 17u64), 1);
    assert_eq!(s, 17);
}

#[test]
fn propagating_getter_never_substitutes_defaults() {
    let ctx = quiet_context();
    let r = <(u32,) as H5Get>::h5get(&ctx, |_id: hid_t| (-9 as herr_t, 0u32), 1);
    assert!(r.is_err());
}
