//! Guarded access to shared supervisor state.
//!
//! Every shared process handle lives behind a mutual-exclusion guard.
//! A panic in a previous holder leaves the guard poisoned; a supervisor
//! that propagated that poison would be permanently disabled by one bad
//! mutation, so acquisition always recovers the inner value instead.

use vstd::prelude::*;

verus! {

#[verifier::external_type_specification]
#[verifier::external_body]
#[verifier::reject_recursive_types(T)]
pub struct ExMutex<T: ?Sized>(std::sync::Mutex<T>);

#[verifier::external_type_specification]
#[verifier::external_body]
#[verifier::reject_recursive_types(T)]
pub struct ExMutexGuard<'a, T: ?Sized + 'a>(std::sync::MutexGuard<'a, T>);

/// Relies on `std::sync::Mutex::lock` and `PoisonError::into_inner`:
/// the guard is yielded even when a previous holder panicked, treating
/// the inner value as valid rather than propagating the poison.
#[verifier::external_body]
fn acquire_recovering<'a, T>(mutex: &'a std::sync::Mutex<T>) -> std::sync::MutexGuard<'a, T> {
    match mutex.lock() {
        Ok(guard) => guard,
        Err(poisoned) => poisoned.into_inner(),
    }
}

/// Acquires a guard, recovering from a poisoned lock instead of
/// propagating it: one panicking operation must never permanently
/// disable supervision.
pub fn lock_or_recover<'a, T>(mutex: &'a std::sync::Mutex<T>) -> std::sync::MutexGuard<'a, T> {
    acquire_recovering(mutex)
}

} // verus!
