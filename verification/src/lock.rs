//! The mutex that guards the limiter's shared state.
//!
//! The lock is `parking_lot`'s. Verus does not look inside it: the items
//! below let the type stand in fields and signatures and give verified
//! code the four calls it makes. What a lock holds is decided by other
//! threads as much as by the caller, so nothing is claimed of it; the
//! state machines that run under a lock are verified for every value they
//! may find there.

use vstd::prelude::*;
use parking_lot::{Mutex, MutexGuard};

verus! {

/// `parking_lot::RawMutex`, the lock word of [`parking_lot::Mutex`].
#[verifier::external_type_specification]
#[verifier::external_body]
pub struct ExRawMutex(parking_lot::RawMutex);

/// `lock_api::Mutex`, of which `parking_lot::Mutex<T>` is the instance with
/// `parking_lot::RawMutex`.
#[verifier::external_type_specification]
#[verifier::external_body]
#[verifier::reject_recursive_types(R)]
#[verifier::reject_recursive_types(T)]
pub struct ExMutex<R, T: ?Sized>(parking_lot::lock_api::Mutex<R, T>);

/// The exclusive hold on what a mutex guards, from taking the lock to
/// giving it up. It keeps `parking_lot`'s `MutexGuard`, whose own
/// declaration is bound by a trait that cannot be stated here, so the
/// guard stays out of sight and is reached through the functions below.
/// Dropping the hold gives the lock up.
#[verifier::external_body]
#[verifier::reject_recursive_types(T)]
pub(crate) struct Hold<'a, T> {
    guard: MutexGuard<'a, T>,
}

/// `Mutex::new`: a free lock around the given value.
#[verifier::external_body]
pub(crate) fn guarded<T>(value: T) -> Mutex<T> {
    Mutex::new(value)
}

/// `Mutex::lock`: waits until the lock is free and takes it. The caller
/// must not hold the same lock already. The lock knows no poisoning, and
/// taking it does not unwind.
#[verifier::external_body]
pub(crate) fn hold<T>(lock: &Mutex<T>) -> Hold<'_, T>
    opens_invariants none
    no_unwind
{
    Hold { guard: lock.lock() }
}

/// `DerefMut::deref_mut` of the guard: the value under the lock, to read
/// and to change for as long as the lock is held. Which value that is
/// depends on the other holders of the lock, so nothing is said of it. The
/// call does not unwind.
#[verifier::external_body]
pub(crate) fn held<'b, T>(hold: &'b mut Hold<'_, T>) -> &'b mut T
    opens_invariants none
    no_unwind
{
    &mut *hold.guard
}

/// `MutexGuard::unlock_fair`: gives the lock up and hands it to the thread
/// that has waited longest, if any.
#[verifier::external_body]
pub(crate) fn pass_on<T>(hold: Hold<'_, T>) {
    MutexGuard::unlock_fair(hold.guard)
}

} // verus!
