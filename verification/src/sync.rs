//! What this library takes from `std::sync` on trust: the lock, its guard and
//! the condition variable, with the little that is claimed of each.

use crate::units::{exhausted, must_wait};
use std::sync::{Condvar, Mutex, MutexGuard};
use vstd::prelude::*;

verus! {

/// `std::sync::Mutex`, carried as an opaque value. Nothing is claimed of
/// what a lock holds while it is not entered: other callers may change it.
#[verifier::external_type_specification]
#[verifier::external_body]
#[verifier::reject_recursive_types(T)]
pub struct ExMutex<T: ?Sized>(Mutex<T>);

/// `std::sync::MutexGuard`, carried as an opaque value.
#[verifier::external_type_specification]
#[verifier::external_body]
#[verifier::reject_recursive_types(T)]
pub struct ExMutexGuard<'a, T: ?Sized + 'a>(MutexGuard<'a, T>);

/// `std::sync::Condvar`, carried as an opaque value.
#[verifier::external_type_specification]
#[verifier::external_body]
pub struct ExCondvar(Condvar);

/// The count that a guard gives access to. While a guard lives, nobody but
/// its owner can reach the count, so it changes only through that guard.
pub uninterp spec fn held(guard: MutexGuard<u32>) -> u32;

/// `Condvar::new`: a condition variable with no waiter. Nothing is claimed
/// of the result.
pub assume_specification[ Condvar::new ]() -> Condvar;

/// `Condvar::notify_one`: wakes one caller that waits on the condition
/// variable, if there is one. Nothing is claimed of it.
pub assume_specification[ Condvar::notify_one ](barrier: &Condvar);

/// The count that a lock was made around. It is fixed when the lock is
/// made and says nothing of the count that a later caller finds inside.
pub uninterp spec fn made_with(lock: Mutex<u32>) -> u32;

/// `Mutex::new`: a lock, not yet entered, made around `count`.
#[verifier::external_body]
pub(crate) fn new_lock(count: u32) -> (lock: Mutex<u32>)
    ensures
        made_with(lock) == count,
{
    Mutex::new(count)
}

/// `Mutex::lock`: waits until the lock is free and enters it. Nothing is
/// claimed of the count that is found.
///
/// The call does not return while another caller stays inside the lock.
/// It may panic where the calling thread is inside the lock already, which
/// no caller of a `Semaphore` is: a guard does not outlive the call of
/// `down` or `up` that made it. It panics on a poisoned lock. A lock is
/// poisoned when a caller unwinds inside it. Inside the lock of a
/// `Semaphore` run `load`, `store`, `must_wait`, `take_unit` and
/// `give_unit`, each of them `no_unwind`, so that lock is never poisoned.
#[verifier::external_body]
pub(crate) fn enter(lock: &Mutex<u32>) -> (guard: MutexGuard<'_, u32>) {
    lock.lock().unwrap()
}

/// Dereferences a `MutexGuard`: the count that the guard gives access to.
/// The call does not unwind.
#[verifier::external_body]
pub(crate) fn load(guard: &MutexGuard<'_, u32>) -> (count: u32)
    ensures
        count == held(*guard),
    no_unwind
{
    **guard
}

/// Assigns through a `MutexGuard`: afterwards the guard gives access to
/// `count`. The call does not unwind.
#[verifier::external_body]
pub(crate) fn store(guard: &mut MutexGuard<'_, u32>, count: u32)
    ensures
        held(*final(guard)) == count,
    no_unwind
{
    **guard = count;
}

/// `Condvar::wait_while`, with `must_wait` as the condition: leaves the lock
/// and sleeps for as long as the count is exhausted, testing it on entry and
/// again, inside the lock, after every wake-up. It returns inside the lock,
/// at a count that is not exhausted.
///
/// With no unit ever given the call does not return. It panics on a
/// poisoned lock, which the lock of a `Semaphore` never is: see `enter`.
#[verifier::external_body]
pub(crate) fn wait_while_exhausted<'a>(barrier: &Condvar, guard: MutexGuard<'a, u32>) -> (woken:
    MutexGuard<'a, u32>)
    ensures
        !exhausted(held(woken)),
{
    barrier.wait_while(guard, |count: &mut u32| must_wait(*count)).unwrap()
}

} // verus!
