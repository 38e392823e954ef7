//! Safety and correctness layer above a non-reentrant, non-thread-safe
//! foreign library binding: every entry into the library is serialized
//! through a global reentrant lock, the library's status-code convention
//! is translated into typed results, and getter-style functions that hand
//! their results back through output parameters are adapted uniformly.
#![allow(non_camel_case_types)]

use vstd::prelude::*;

pub mod combinators;
pub mod context;
pub mod error;
pub mod get;
pub mod sync;

verus! {

/// Identifier of a foreign library object (the `id` every getter takes).
pub type hid_t = i64;

/// Raw status code returned by every foreign call: negative means failure,
/// everything else is success and often a meaningful payload.
pub type herr_t = i32;

} // verus!
