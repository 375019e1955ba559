//! The primitives of `std::sync` that the rest of the crate stands on.
//!
//! Verus does not look inside a `Mutex`. Code that needs the protected value
//! moves it out while it holds the lock, works on it as on any owned value,
//! and moves it back before the lock is released. A value moved out is
//! whatever the previous holder stored, so nothing is promised of it here.

use std::sync::{Condvar, Mutex, MutexGuard};
use vstd::prelude::*;

verus! {

/// `std::sync::Mutex`, carried as an opaque value.
#[verifier::external_type_specification]
#[verifier::external_body]
#[verifier::reject_recursive_types(T)]
pub struct ExMutex<T: ?Sized>(Mutex<T>);

/// `std::sync::MutexGuard`, carried as an opaque value: while it lives, the
/// mutex is locked.
#[verifier::external_type_specification]
#[verifier::external_body]
#[verifier::reject_recursive_types(T)]
pub struct ExMutexGuard<'a, T: ?Sized + 'a>(MutexGuard<'a, T>);

/// `std::sync::Condvar`, carried as an opaque value.
#[verifier::external_type_specification]
#[verifier::external_body]
pub struct ExCondvar(Condvar);

/// `Mutex::new`: a fresh, unlocked mutex around `value`.
pub assume_specification<T>[ Mutex::<T>::new ](value: T) -> (m: Mutex<T>);

/// `Condvar::new`: a condition variable with no waiters.
pub assume_specification[ Condvar::new ]() -> (cv: Condvar);

/// `Condvar::notify_all`: wakes every thread blocked on the condition variable.
pub assume_specification[ Condvar::notify_all ](cv: &Condvar);

/// `Mutex::lock`, then `std::mem::take` through the guard: blocks until the
/// lock is free, then moves the protected value out and leaves its default in
/// its place until `restore` puts a value back. Nothing is claimed of the
/// value that comes out: it is what the last holder stored. A poisoned mutex
/// aborts the calling thread.
#[verifier::external_body]
pub(crate) fn lock_take<'a, T: Default>(mutex: &'a Mutex<T>) -> (held: (MutexGuard<'a, T>, T)) {
    let mut guard = mutex.lock().unwrap();
    let value = std::mem::take(&mut *guard);
    (guard, value)
}

/// An assignment through `MutexGuard`'s `DerefMut`, then the guard's `Drop`:
/// stores `value` as the protected value and unlocks the mutex.
#[verifier::external_body]
pub(crate) fn restore<'a, T>(guard: MutexGuard<'a, T>, value: T) {
    let mut guard = guard;
    *guard = value;
}

} // verus!
