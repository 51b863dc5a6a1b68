//! The mutual exclusion under which a shared pool is read and changed.
//!
//! `std::sync::Mutex` is used as it is. What the lock hands out depends on
//! what other threads did before, so nothing is claimed about the pool that
//! is found behind it: the code that runs under the lock is verified for
//! every state of the pool.
//!
//! The mutex of a pool is reachable from this crate alone (it is a private
//! field of [`SharedResourceManager`](crate::manager::SharedResourceManager)),
//! and no function of this crate locks while it holds a guard. A thread
//! therefore never asks for a mutex that it already holds, which is the one
//! case in which std lets `lock` panic or block for ever.

use crate::manager::ResourceManager;
use std::sync::{Mutex, MutexGuard, PoisonError};
use vstd::prelude::*;

verus! {

/// `std::sync::Mutex`, carried as an opaque value: what it guards cannot be
/// read but through a guard.
#[verifier::external_type_specification]
#[verifier::external_body]
#[verifier::reject_recursive_types(T)]
pub struct ExMutex<T: ?Sized>(Mutex<T>);

/// `std::sync::MutexGuard`, carried as an opaque value; dropping it unlocks
/// the mutex.
#[verifier::external_type_specification]
#[verifier::external_body]
#[verifier::reject_recursive_types(T)]
pub struct ExMutexGuard<'a, T: ?Sized + 'a>(MutexGuard<'a, T>);

/// `std::sync::PoisonError`, carried as an opaque value: the guard of a mutex
/// of which an earlier holder panicked.
#[verifier::external_type_specification]
#[verifier::external_body]
#[verifier::reject_recursive_types(T)]
pub struct ExPoisonError<T>(PoisonError<T>);

/// Calls `Mutex::new`: a fresh, unlocked mutex around the pool.
///
/// Trusted: nothing is claimed about the mutex, which shows nothing of what
/// it guards.
#[verifier::external_body]
pub(crate) fn new_lock(pool: ResourceManager) -> (lock: Mutex<ResourceManager>) {
    Mutex::new(pool)
}

/// Calls `Mutex::lock` and waits until the pool is this thread's alone.
///
/// Trusted: the result of `lock` is handed on as it is; nothing is claimed
/// about which of the two it is, nor about the pool behind the guard. The
/// call does not unwind: std lets it panic only where the calling thread
/// holds the mutex already, and the callers, all in this crate, never do.
#[verifier::external_body]
pub(crate) fn lock_pool<'a>(pool: &'a Mutex<ResourceManager>) -> (res: Result<
    MutexGuard<'a, ResourceManager>,
    PoisonError<MutexGuard<'a, ResourceManager>>,
>)
    opens_invariants none
    no_unwind
{
    pool.lock()
}

/// Calls `PoisonError::into_inner`: the guard that a poisoned mutex still
/// gave.
///
/// Trusted: nothing is claimed about the pool behind the guard.
#[verifier::external_body]
pub(crate) fn guard_of_poisoned<'a>(
    poisoned: PoisonError<MutexGuard<'a, ResourceManager>>,
) -> (guard: MutexGuard<'a, ResourceManager>)
    opens_invariants none
    no_unwind
{
    poisoned.into_inner()
}

/// Calls `DerefMut::deref_mut` on the guard: exclusive access to the pool for
/// as long as the guard is borrowed.
///
/// Trusted: nothing is claimed about the pool that is reached, nor about the
/// guard afterwards.
#[verifier::external_body]
pub(crate) fn locked_pool<'a, 'b>(guard: &'a mut MutexGuard<'b, ResourceManager>) -> (pool:
    &'a mut ResourceManager)
    opens_invariants none
    no_unwind
{
    std::ops::DerefMut::deref_mut(guard)
}

} // verus!
