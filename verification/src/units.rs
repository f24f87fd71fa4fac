//! The arithmetic of the unit count: when a caller must wait, and what the
//! count becomes when a unit is taken or given.

use vstd::prelude::*;

verus! {

/// No unit is available: a caller that finds this count has to wait.
pub open spec fn exhausted(count: u32) -> bool {
    count == 0
}

/// The count once one unit has been taken from `count`.
pub open spec fn after_down(count: u32) -> u32
    recommends
        !exhausted(count),
{
    (count - 1) as u32
}

/// The count once one unit has been given to `count`.
///
/// The count saturates: at `u32::MAX` a further unit is dropped and the
/// count stays where it is, so it never wraps round to zero.
pub open spec fn after_up(count: u32) -> u32 {
    if count < u32::MAX {
        (count + 1) as u32
    } else {
        count
    }
}

/// Decides whether a caller that finds `count` units has to wait.
pub fn must_wait(count: u32) -> (wait: bool)
    ensures
        wait == exhausted(count),
    no_unwind
{
    count == 0
}

/// Takes one unit from a count that has one.
pub fn take_unit(count: u32) -> (rest: u32)
    requires
        !exhausted(count),
    ensures
        rest == after_down(count),
    no_unwind
{
    count - 1
}

/// Gives one unit to a count, saturating at `u32::MAX`.
///
/// Whatever the count was, a unit is available afterwards.
pub fn give_unit(count: u32) -> (more: u32)
    ensures
        more == after_up(count),
        !exhausted(more),
    no_unwind
{
    if count < u32::MAX {
        count + 1
    } else {
        count
    }
}

} // verus!
