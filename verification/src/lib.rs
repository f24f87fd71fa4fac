//! A counting semaphore: a count of available units behind a lock, with a
//! condition variable on which callers wait while the count is exhausted.

pub mod history;
pub mod sync;
pub mod units;

use crate::sync::{enter, held, load, made_with, new_lock, store, wait_while_exhausted};
use crate::units::{after_down, after_up, exhausted, give_unit, take_unit};
use std::sync::{Condvar, Mutex, MutexGuard};
use vstd::prelude::*;

verus! {

/// A counting semaphore over `u32` units.
///
/// The count is read and replaced only inside the lock. It saturates at
/// `u32::MAX`: a unit given to a full count is dropped.
pub struct Semaphore {
    barrier: Condvar,
    lock: Mutex<u32>,
}

/// What `down` does inside the lock, once a unit is there: it takes one.
fn consume(guard: &mut MutexGuard<'_, u32>)
    requires
        !exhausted(held(*old(guard))),
    ensures
        held(*final(guard)) == after_down(held(*old(guard))),
    no_unwind
{
    let count: u32 = load(guard);
    store(guard, take_unit(count));
}

/// What `up` does inside the lock: it gives one unit.
fn produce(guard: &mut MutexGuard<'_, u32>)
    ensures
        held(*final(guard)) == after_up(held(*old(guard))),
        !exhausted(held(*final(guard))),
    no_unwind
{
    let count: u32 = load(guard);
    store(guard, give_unit(count));
}

impl Semaphore {
    /// Creates a semaphore that starts with `count` units.
    pub fn new(count: u32) -> (semaphore: Semaphore)
        ensures
            semaphore.starting_count() == count,
    {
        Semaphore { barrier: Condvar::new(), lock: new_lock(count) }
    }

    /// Takes one unit. While there is none, the caller sleeps until another
    /// caller has given one; with no unit ever given, the call does not
    /// return. Inside the lock the count goes from `n` to `after_down(n)`.
    pub fn down(&self) {
        let guard = enter(&self.lock);
        let mut guard = wait_while_exhausted(&self.barrier, guard);
        consume(&mut guard);
    }

    /// Gives one unit and wakes one waiting caller, if there is one. Inside
    /// the lock the count goes from `n` to `after_up(n)`; the lock is left
    /// before the wake-up is sent. The call never waits for a unit.
    pub fn up(&self) {
        {
            let mut guard = enter(&self.lock);
            produce(&mut guard);
        }
        self.barrier.notify_one();
    }

    /// The units that the semaphore started with: the `start` of every
    /// history of calls on it. The count of a later moment is that of the
    /// history so far, which the semaphore does not record.
    pub closed spec fn starting_count(&self) -> u32 {
        made_with(self.lock)
    }
}

} // verus!
