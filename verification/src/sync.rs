//! The global call serializer: at most one thread executes inside the
//! foreign library at any instant. The raw lock is never exposed; the only
//! entry point is scoped execution of a closure while the lock is held, so
//! a call site cannot forget to release it.

use vstd::prelude::*;

verus! {

/// Declares parking_lot's reentrant mutex type so that it can stand in a
/// field; the library never reads the value stored inside it.
#[verifier::external_type_specification]
#[verifier::external_body]
#[verifier::reject_recursive_types(R)]
#[verifier::reject_recursive_types(G)]
#[verifier::reject_recursive_types(T)]
pub struct ExReentrantMutex<R, G, T: ?Sized>(parking_lot::lock_api::ReentrantMutex<R, G, T>);

/// Declares parking_lot's raw mutex type, which stands as a type argument
/// of the reentrant mutex above.
#[verifier::external_type_specification]
#[verifier::external_body]
pub struct ExRawMutex(parking_lot::RawMutex);

/// Declares parking_lot's thread-id source, which stands as a type argument
/// of the reentrant mutex above.
#[verifier::external_type_specification]
#[verifier::external_body]
pub struct ExRawThreadId(parking_lot::RawThreadId);

/// Relies on lock_api::ReentrantMutex::new (via parking_lot): returns a
/// fresh mutex in the unlocked state.
#[verifier::external_body]
fn new_lock() -> parking_lot::ReentrantMutex<()> {
    parking_lot::ReentrantMutex::new(())
}

/// Relies on lock_api::ReentrantMutex::lock (via parking_lot): blocks until
/// the calling thread holds the mutex — reentrantly, so a thread that
/// already holds it proceeds at once — then runs `f` and releases the guard
/// on every exit path. The result is whatever `f` returned.
#[verifier::external_body]
fn run_locked<T, F: FnOnce() -> T>(lock: &parking_lot::ReentrantMutex<()>, f: F) -> (r: T)
    requires
        call_requires(f, ()),
    ensures
        call_ensures(f, (), r),
{
    let _guard = lock.lock();
    f()
}

/// The call serializer: a reentrant mutual-exclusion wrapper around every
/// entry into the foreign library. One instance guards the whole binding.
pub struct Serializer {
    lock: parking_lot::ReentrantMutex<()>,
}

impl Serializer {
    /// A serializer whose lock nobody holds yet.
    pub fn new() -> (r: Serializer) {
        Serializer { lock: new_lock() }
    }

    /// Runs `f` while holding the lock and hands its result back; the lock
    /// is released on every exit path. A thread that already holds the lock
    /// may enter again without blocking on itself, so wrapped calls nest.
    pub fn sync<T, F: FnOnce() -> T>(&self, f: F) -> (r: T)
        requires
            call_requires(f, ()),
        ensures
            call_ensures(f, (), r),
    {
        run_locked(&self.lock, f)
    }
}

} // verus!
