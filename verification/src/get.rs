//! The generic multi-value getter: a fixed family, one implementation per
//! tuple arity from one to four, over getter-style foreign functions that
//! return results through output parameters beside a raw status. The
//! family is closed on purpose: four shapes are all the binding needs, and
//! the mechanism is not a general variadic one.
//!
//! A getter of arity N is adapted as a call from the identifier to its raw
//! outcome — the status together with the N values it wrote into the
//! caller's output slots, flattened in declared parameter order. The
//! binding around the foreign library performs that adaptation; this
//! module does everything after it: locking, status checking, and the
//! packaging of the slot values into a tuple.

use crate::context::H5Context;
use crate::error::{h5check, is_status_failure, Error};
use crate::{herr_t, hid_t};
use vstd::prelude::*;

verus! {

/// The getter family. `Self` is the tuple of values a getter of arity N
/// yields; the four implementations below cover every supported arity.
pub trait H5Get: Sized {
    /// The raw outcome of one foreign call: the status, then the N written
    /// values, flattened in declared parameter order.
    type Raw;

    /// The status part of a raw outcome.
    spec fn raw_status(raw: Self::Raw) -> herr_t;

    /// The written values of a raw outcome, as the tuple the getter
    /// yields, in declared parameter order.
    spec fn raw_values(raw: Self::Raw) -> Self;

    /// Whether each component of `v` is its type's default value — the
    /// well-defined content of a freshly allocated output slot.
    spec fn is_default(v: Self) -> bool;

    /// A tuple of default values: what a best-effort getter yields when
    /// the foreign call failed.
    fn default_values() -> (r: Self)
        ensures
            Self::is_default(r),
    ;

    /// The propagating getter: allocates the output slots, runs the
    /// foreign call under the serializer's lock, checks the status while
    /// the lock is still held, and on success yields exactly the values
    /// the call wrote. A failure is propagated unchanged, never replaced
    /// by defaults.
    fn h5get<D: Fn() -> String, F: FnOnce(hid_t) -> Self::Raw>(
        ctx: &H5Context<D>,
        func: F,
        id: hid_t,
    ) -> (r: Result<Self, Error>)
        requires
            call_requires(func, (id,)),
            call_requires(ctx.diag, ()),
        ensures
            exists|raw: Self::Raw|
                #[trigger] call_ensures(func, (id,), raw) && (if Self::raw_status(raw) >= 0 {
                    r == Ok::<Self, Error>(Self::raw_values(raw))
                } else {
                    r matches Err(e) && is_status_failure(e, Self::raw_status(raw), ctx.diag)
                }),
    ;

    /// The best-effort getter: as `h5get`, but a failure is discarded and
    /// a tuple of default values is yielded instead. Reserved for
    /// optional introspection, never for correctness-critical reads.
    fn h5get_d<D: Fn() -> String, F: FnOnce(hid_t) -> Self::Raw>(
        ctx: &H5Context<D>,
        func: F,
        id: hid_t,
    ) -> (r: Self)
        requires
            call_requires(func, (id,)),
            call_requires(ctx.diag, ()),
        ensures
            exists|raw: Self::Raw|
                #[trigger] call_ensures(func, (id,), raw) && (if Self::raw_status(raw) >= 0 {
                    r == Self::raw_values(raw)
                } else {
                    Self::is_default(r)
                }),
    {
        match Self::h5get(ctx, func, id) {
            Ok(values) => values,
            Err(_) => Self::default_values(),
        }
    }
}

impl<T1: Copy + Default> H5Get for (T1,) {
    type Raw = (herr_t, T1);

    open spec fn raw_status(raw: (herr_t, T1)) -> herr_t {
        raw.0
    }

    open spec fn raw_values(raw: (herr_t, T1)) -> (T1,) {
        (raw.1,)
    }

    open spec fn is_default(v: (T1,)) -> bool {
        call_ensures(T1::default, (), v.0)
    }

    fn default_values() -> (r: (T1,)) {
        (T1::default(),)
    }

    fn h5get<D: Fn() -> String, F: FnOnce(hid_t) -> (herr_t, T1)>(
        ctx: &H5Context<D>,
        func: F,
        id: hid_t,
    ) -> (r: Result<(T1,), Error>) {
        let diag = &ctx.diag;
        let g = move || -> (res: Result<(T1,), Error>)
            ensures
                exists|raw: (herr_t, T1)|
                    #[trigger] call_ensures(func, (id,), raw) && (if raw.0 >= 0 {
                        res == Ok::<(T1,), Error>((raw.1,))
                    } else {
                        res matches Err(e) && is_status_failure(e, raw.0, *diag)
                    }),
            {
                let raw = func(id);
                match h5check(raw.0, diag) {
                    Ok(_) => Ok((raw.1,)),
                    Err(e) => Err(e),
                }
            };
        ctx.serializer.sync(g)
    }
}

impl<T1: Copy + Default, T2: Copy + Default> H5Get for (T1, T2) {
    type Raw = (herr_t, T1, T2);

    open spec fn raw_status(raw: (herr_t, T1, T2)) -> herr_t {
        raw.0
    }

    open spec fn raw_values(raw: (herr_t, T1, T2)) -> (T1, T2) {
        (raw.1, raw.2)
    }

    open spec fn is_default(v: (T1, T2)) -> bool {
        call_ensures(T1::default, (), v.0) && call_ensures(T2::default, (), v.1)
    }

    fn default_values() -> (r: (T1, T2)) {
        (T1::default(), T2::default())
    }

    fn h5get<D: Fn() -> String, F: FnOnce(hid_t) -> (herr_t, T1, T2)>(
        ctx: &H5Context<D>,
        func: F,
        id: hid_t,
    ) -> (r: Result<(T1, T2), Error>) {
        let diag = &ctx.diag;
        let g = move || -> (res: Result<(T1, T2), Error>)
            ensures
                exists|raw: (herr_t, T1, T2)|
                    #[trigger] call_ensures(func, (id,), raw) && (if raw.0 >= 0 {
                        res == Ok::<(T1, T2), Error>((raw.1, raw.2))
                    } else {
                        res matches Err(e) && is_status_failure(e, raw.0, *diag)
                    }),
            {
                let raw = func(id);
                match h5check(raw.0, diag) {
                    Ok(_) => Ok((raw.1, raw.2)),
                    Err(e) => Err(e),
                }
            };
        ctx.serializer.sync(g)
    }
}

impl<T1: Copy + Default, T2: Copy + Default, T3: Copy + Default> H5Get for (T1, T2, T3) {
    type Raw = (herr_t, T1, T2, T3);

    open spec fn raw_status(raw: (herr_t, T1, T2, T3)) -> herr_t {
        raw.0
    }

    open spec fn raw_values(raw: (herr_t, T1, T2, T3)) -> (T1, T2, T3) {
        (raw.1, raw.2, raw.3)
    }

    open spec fn is_default(v: (T1, T2, T3)) -> bool {
        call_ensures(T1::default, (), v.0) && call_ensures(T2::default, (), v.1) && call_ensures(
            T3::default,
            (),
            v.2,
        )
    }

    fn default_values() -> (r: (T1, T2, T3)) {
        (T1::default(), T2::default(), T3::default())
    }

    fn h5get<D: Fn() -> String, F: FnOnce(hid_t) -> (herr_t, T1, T2, T3)>(
        ctx: &H5Context<D>,
        func: F,
        id: hid_t,
    ) -> (r: Result<(T1, T2, T3), Error>) {
        let diag = &ctx.diag;
        let g = move || -> (res: Result<(T1, T2, T3), Error>)
            ensures
                exists|raw: (herr_t, T1, T2, T3)|
                    #[trigger] call_ensures(func, (id,), raw) && (if raw.0 >= 0 {
                        res == Ok::<(T1, T2, T3), Error>((raw.1, raw.2, raw.3))
                    } else {
                        res matches Err(e) && is_status_failure(e, raw.0, *diag)
                    }),
            {
                let raw = func(id);
                match h5check(raw.0, diag) {
                    Ok(_) => Ok((raw.1, raw.2, raw.3)),
                    Err(e) => Err(e),
                }
            };
        ctx.serializer.sync(g)
    }
}

impl<T1: Copy + Default, T2: Copy + Default, T3: Copy + Default, T4: Copy + Default> H5Get for (
    T1,
    T2,
    T3,
    T4,
) {
    type Raw = (herr_t, T1, T2, T3, T4);

    open spec fn raw_status(raw: (herr_t, T1, T2, T3, T4)) -> herr_t {
        raw.0
    }

    open spec fn raw_values(raw: (herr_t, T1, T2, T3, T4)) -> (T1, T2, T3, T4) {
        (raw.1, raw.2, raw.3, raw.4)
    }

    open spec fn is_default(v: (T1, T2, T3, T4)) -> bool {
        call_ensures(T1::default, (), v.0) && call_ensures(T2::default, (), v.1) && call_ensures(
            T3::default,
            (),
            v.2,
        ) && call_ensures(T4::default, (), v.3)
    }

    fn default_values() -> (r: (T1, T2, T3, T4)) {
        (T1::default(), T2::default(), T3::default(), T4::default())
    }

    fn h5get<D: Fn() -> String, F: FnOnce(hid_t) -> (herr_t, T1, T2, T3, T4)>(
        ctx: &H5Context<D>,
        func: F,
        id: hid_t,
    ) -> (r: Result<(T1, T2, T3, T4), Error>) {
        let diag = &ctx.diag;
        let g = move || -> (res: Result<(T1, T2, T3, T4), Error>)
            ensures
                exists|raw: (herr_t, T1, T2, T3, T4)|
                    #[trigger] call_ensures(func, (id,), raw) && (if raw.0 >= 0 {
                        res == Ok::<(T1, T2, T3, T4), Error>((raw.1, raw.2, raw.3, raw.4))
                    } else {
                        res matches Err(e) && is_status_failure(e, raw.0, *diag)
                    }),
            {
                let raw = func(id);
                match h5check(raw.0, diag) {
                    Ok(_) => Ok((raw.1, raw.2, raw.3, raw.4)),
                    Err(e) => Err(e),
                }
            };
        ctx.serializer.sync(g)
    }
}

/// The propagating getter of arity one, presenting the 1-tuple as a bare
/// scalar, as single-value call sites expect.
pub fn h5get_scalar<T1: Copy + Default, D: Fn() -> String, F: FnOnce(hid_t) -> (herr_t, T1)>(
    ctx: &H5Context<D>,
    func: F,
    id: hid_t,
) -> (r: Result<T1, Error>)
    requires
        call_requires(func, (id,)),
        call_requires(ctx.diag, ()),
    ensures
        exists|raw: (herr_t, T1)|
            #[trigger] call_ensures(func, (id,), raw) && (if raw.0 >= 0 {
                r == Ok::<T1, Error>(raw.1)
            } else {
                r matches Err(e) && is_status_failure(e, raw.0, ctx.diag)
            }),
{
    match <(T1,) as H5Get>::h5get(ctx, func, id) {
        Ok(values) => Ok(values.0),
        Err(e) => Err(e),
    }
}

/// The best-effort getter of arity one, presenting the 1-tuple as a bare
/// scalar: the written value on success, the type's default on failure.
pub fn h5get_scalar_d<T1: Copy + Default, D: Fn() -> String, F: FnOnce(hid_t) -> (herr_t, T1)>(
    ctx: &H5Context<D>,
    func: F,
    id: hid_t,
) -> (r: T1)
    requires
        call_requires(func, (id,)),
        call_requires(ctx.diag, ()),
    ensures
        exists|raw: (herr_t, T1)|
            #[trigger] call_ensures(func, (id,), raw) && (if raw.0 >= 0 {
                r == raw.1
            } else {
                call_ensures(T1::default, (), r)
            }),
{
    let values = <(T1,) as H5Get>::h5get_d(ctx, func, id);
    values.0
}

} // verus!
