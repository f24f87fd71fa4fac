//! Histories of completed calls, and what holds of the count after each.
//!
//! Every call reads and replaces the count inside the lock, so the calls
//! that have completed on one semaphore stand in an order: that of their
//! turns inside the lock. A history is that sequence.

use crate::units::{after_down, after_up, exhausted};
use vstd::prelude::*;

verus! {

/// One completed call.
pub enum Call {
    /// A `down`: one unit was taken.
    Down,
    /// An `up`: one unit was given.
    Up,
}

/// Whether a call can complete at `count`. A `down` needs a unit; an `up`
/// completes at every count.
pub open spec fn completes(count: u32, call: Call) -> bool {
    match call {
        Call::Down => !exhausted(count),
        Call::Up => true,
    }
}

/// The count that a call leaves behind, having found `count`.
pub open spec fn step(count: u32, call: Call) -> u32 {
    match call {
        Call::Down => after_down(count),
        Call::Up => after_up(count),
    }
}

/// The count after the calls of a history, on a semaphore that started with
/// `start` units.
pub open spec fn count_after(start: u32, calls: Seq<Call>) -> u32
    decreases calls.len(),
{
    if calls.len() == 0 {
        start
    } else {
        step(count_after(start, calls.drop_last()), calls.last())
    }
}

/// A history that can come about: each of its calls could complete at the
/// count that the calls before it had left.
pub open spec fn possible(start: u32, calls: Seq<Call>) -> bool
    decreases calls.len(),
{
    calls.len() > 0 ==> {
        &&& possible(start, calls.drop_last())
        &&& completes(count_after(start, calls.drop_last()), calls.last())
    }
}

/// A history in which no unit was dropped: no `up` found the count at
/// `u32::MAX`.
pub open spec fn lossless(start: u32, calls: Seq<Call>) -> bool
    decreases calls.len(),
{
    calls.len() > 0 ==> {
        &&& lossless(start, calls.drop_last())
        &&& (calls.last() is Up ==> count_after(start, calls.drop_last()) < u32::MAX)
    }
}

/// How many calls of a history are a `down`.
pub open spec fn downs(calls: Seq<Call>) -> nat
    decreases calls.len(),
{
    if calls.len() == 0 {
        0
    } else if calls.last() is Down {
        downs(calls.drop_last()) + 1
    } else {
        downs(calls.drop_last())
    }
}

/// How many calls of a history are an `up`.
pub open spec fn ups(calls: Seq<Call>) -> nat
    decreases calls.len(),
{
    if calls.len() == 0 {
        0
    } else if calls.last() is Up {
        ups(calls.drop_last()) + 1
    } else {
        ups(calls.drop_last())
    }
}

/// Balance: after a possible history in which no unit was dropped, the
/// count is the starting count, less one for each `down`, plus one for each
/// `up`.
pub proof fn lemma_balance(start: u32, calls: Seq<Call>)
    requires
        possible(start, calls),
        lossless(start, calls),
    ensures
        count_after(start, calls) == start - downs(calls) + ups(calls),
    decreases calls.len(),
{
    if calls.len() > 0 {
        lemma_balance(start, calls.drop_last());
    }
}

/// The count is never overdrawn: in a possible history, dropped units or
/// not, no more units were taken than the semaphore started with and was
/// given, and the count is at most what is left of them.
pub proof fn lemma_never_overdrawn(start: u32, calls: Seq<Call>)
    requires
        possible(start, calls),
    ensures
        downs(calls) <= start + ups(calls),
        count_after(start, calls) <= start - downs(calls) + ups(calls),
    decreases calls.len(),
{
    if calls.len() > 0 {
        lemma_never_overdrawn(start, calls.drop_last());
    }
}

/// What came before any point of a possible history is a possible history.
pub proof fn lemma_prefix_possible(start: u32, calls: Seq<Call>, n: int)
    requires
        possible(start, calls),
        0 <= n <= calls.len(),
    ensures
        possible(start, calls.take(n)),
    decreases calls.len(),
{
    if n == calls.len() {
        assert(calls.take(n) =~= calls);
    } else {
        assert(calls.take(n) =~= calls.drop_last().take(n));
        lemma_prefix_possible(start, calls.drop_last(), n);
    }
}

/// At no point of a possible history do the calls to `down` outnumber the
/// calls to `up` by more than the starting count. Where every `up` gives
/// back a unit that its caller took before, that difference is the number
/// of callers that hold a unit: with a starting count of 1, at most one.
pub proof fn lemma_holders_bounded(start: u32, calls: Seq<Call>, n: int)
    requires
        possible(start, calls),
        0 <= n <= calls.len(),
    ensures
        downs(calls.take(n)) - ups(calls.take(n)) <= start,
{
    lemma_prefix_possible(start, calls, n);
    lemma_never_overdrawn(start, calls.take(n));
}

/// An `up` can complete after every possible history, and a `down` can
/// complete right after it.
pub proof fn lemma_up_then_down_possible(start: u32, calls: Seq<Call>)
    requires
        possible(start, calls),
    ensures
        possible(start, calls.push(Call::Up)),
        possible(start, calls.push(Call::Up).push(Call::Down)),
{
    let given = calls.push(Call::Up);
    assert(given.drop_last() =~= calls);
    assert(given.push(Call::Down).drop_last() =~= given);
}

} // verus!
