//! Wrapping 32-bit generation counters.
//!
//! Both the condition variable and the shared/exclusive lock coordinate
//! wakeups through a counter that is bumped once per notification and
//! compared against a snapshot taken by the waiter. The counter carries no
//! meaning beyond "has it moved since the snapshot", so it wraps freely.

use vstd::prelude::*;

verus! {

/// Successor of a generation counter, wrapping at the top of the 32-bit
/// range. This is the value a wrapping fetch-add of one leaves behind.
pub open spec fn wrap_inc(c: u32) -> u32 {
    if c == u32::MAX {
        0
    } else {
        (c + 1) as u32
    }
}

/// Advance a generation counter by one, wrapping on overflow.
pub fn next_generation(c: u32) -> (r: u32)
    ensures
        r == wrap_inc(c),
{
    if c == u32::MAX {
        0
    } else {
        c + 1
    }
}

/// Bumping a generation counter always changes it: a waiter whose snapshot
/// predates the bump can never mistake the new value for its snapshot.
pub proof fn lemma_wrap_inc_changes(c: u32)
    ensures
        wrap_inc(c) != c,
{
}

} // verus!
