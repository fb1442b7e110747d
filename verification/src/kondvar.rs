//! A condition variable for use with [`Myoutex`].
//!
//! The variable owns a wrapping generation counter and a count of current
//! waiters. A waiter increments the waiter count, snapshots the counter,
//! releases the mutex, and then blocks on the counter *with that snapshot*:
//! the wait primitive re-checks the counter against the snapshot before
//! parking, so a notification that lands between the snapshot and the park
//! is never lost — the counter has moved and the waiter returns at once.
//! Notification bumps the counter and wakes; when no one is waiting it is a
//! no-op (the waiter count is a fast-path hint only, not load-bearing for
//! correctness).
//!
//! The protocol around the one suspension point is split exactly there:
//! [`KondVar::wait`] is everything before the park (register, snapshot,
//! unlock), [`KondVar::would_block`] is the check the wait primitive makes
//! against the snapshot, and [`KondVar::wait_resume`] is everything after
//! (deregister, relock). A driver parks between the first two and retries
//! the relock as the mutex protocol demands.

use vstd::prelude::*;

use crate::generation::lemma_wrap_inc_changes;
use crate::generation::next_generation;
use crate::generation::wrap_inc;
use crate::myoutex::Myoutex;
use crate::myoutex::MyoutexGuard;

verus! {

/// The condition variable: a generation counter that waiters block on, and
/// the current number of waiters.
pub struct KondVar {
    counter: u32,
    num_waiters: usize,
}

/// What a waiter carries across its blocking window: the generation counter
/// as it was when the mutex was still held.
pub struct WaitTicket {
    counter_snapshot: u32,
}

impl WaitTicket {
    /// The snapshotted generation.
    pub closed spec fn snapshot(&self) -> u32 {
        self.counter_snapshot
    }
}

/// What one notification call does to the variable: bump the generation if
/// anyone is waiting, touch nothing otherwise. `notify_one` and `notify_all`
/// differ only in how many blocked threads the driver then wakes.
pub open spec fn notify_step(pre: KondVar, post: KondVar) -> bool {
    &&& post.waiters() == pre.waiters()
    &&& post.generation() == (if pre.waiters() > 0 {
        wrap_inc(pre.generation())
    } else {
        pre.generation()
    })
}

/// No lost wakeup: once a waiter is registered and holds its snapshot, any
/// notification moves the generation away from that snapshot, so the check
/// the wait primitive makes before parking ([`KondVar::would_block`]) fails
/// and the waiter returns instead of blocking.
pub proof fn lemma_no_lost_wakeup(pre: KondVar, post: KondVar, ticket: WaitTicket)
    requires
        ticket.snapshot() == pre.generation(),
        pre.waiters() >= 1,
        notify_step(pre, post),
    ensures
        post.generation() != ticket.snapshot(),
{
    lemma_wrap_inc_changes(pre.generation());
}

impl KondVar {
    /// The generation counter.
    pub closed spec fn generation(&self) -> u32 {
        self.counter
    }

    /// The number of registered waiters.
    pub closed spec fn waiters(&self) -> usize {
        self.num_waiters
    }

    /// A new condition variable with no waiters.
    pub fn new() -> (r: Self)
        ensures
            r.generation() == 0,
            r.waiters() == 0,
    {
        KondVar { counter: 0, num_waiters: 0 }
    }

    /// Notify one waiter: if anyone is waiting, bump the generation and ask
    /// the driver to wake one thread blocked on it (`wake` is true); with no
    /// waiters this is a no-op.
    pub fn notify_one(&mut self) -> (wake: bool)
        ensures
            (wake <==> old(self).waiters() > 0),
            final(self).waiters() == old(self).waiters(),
            wake ==> final(self).generation() == wrap_inc(old(self).generation()),
            !wake ==> final(self).generation() == old(self).generation(),
            notify_step(*old(self), *final(self)),
    {
        if self.num_waiters > 0 {
            self.counter = next_generation(self.counter);
            true
        } else {
            false
        }
    }

    /// Notify all waiters: same counter transition as [`Self::notify_one`],
    /// but a true `wake` asks the driver to wake every thread blocked on the
    /// generation counter.
    pub fn notify_all(&mut self) -> (wake: bool)
        ensures
            (wake <==> old(self).waiters() > 0),
            final(self).waiters() == old(self).waiters(),
            wake ==> final(self).generation() == wrap_inc(old(self).generation()),
            !wake ==> final(self).generation() == old(self).generation(),
            notify_step(*old(self), *final(self)),
    {
        if self.num_waiters > 0 {
            self.counter = next_generation(self.counter);
            true
        } else {
            false
        }
    }

    /// Begin a wait: register as a waiter, snapshot the generation, and
    /// release the mutex (returning its wake decision as the second result).
    /// The caller then blocks on the generation counter with the ticket's
    /// snapshot — but only while [`Self::would_block`] holds — and finishes
    /// with [`Self::wait_resume`].
    ///
    /// The snapshot is taken while the mutex is still held, and the unlock
    /// comes after it: a notification racing with the park is therefore
    /// caught by the snapshot check (see [`lemma_no_lost_wakeup`]).
    pub fn wait<T>(&mut self, myoutex: &mut Myoutex<T>, guard: MyoutexGuard<T>) -> (r: (
        WaitTicket,
        bool,
    ))
        requires
            old(self).waiters() < usize::MAX,
            old(myoutex).wf(),
            old(myoutex).state_word() != 0,
        ensures
            final(self).waiters() == old(self).waiters() + 1,
            final(self).generation() == old(self).generation(),
            r.0.snapshot() == old(self).generation(),
            final(myoutex).wf(),
            final(myoutex).state_word() == 0,
            final(myoutex).stored() == guard@,
            (r.1 <==> old(myoutex).state_word() == 2),
            crate::myoutex::myoutex_step(
                old(myoutex).model(),
                crate::myoutex::MyoutexEvent::Release,
                final(myoutex).model(),
            ),
    {
        self.num_waiters = self.num_waiters + 1;
        let counter_value = self.counter;
        let mutex_wake = myoutex.unlock(guard);
        (WaitTicket { counter_snapshot: counter_value }, mutex_wake)
    }

    /// The check the wait primitive performs before parking a waiter: block
    /// only while the generation still equals the ticket's snapshot. False
    /// means a notification has arrived since the snapshot and the waiter
    /// proceeds without blocking.
    pub fn would_block(&self, ticket: &WaitTicket) -> (r: bool)
        ensures
            (r <==> self.generation() == ticket.snapshot()),
    {
        self.counter == ticket.counter_snapshot
    }

    /// Finish a wait: deregister as a waiter and re-acquire the mutex. The
    /// relock is one acquisition attempt of the mutex protocol: `None` means
    /// the mutex is contended and the caller blocks on *its* word and calls
    /// [`Myoutex::lock`] again, as any acquirer would.
    pub fn wait_resume<T>(&mut self, myoutex: &mut Myoutex<T>) -> (r: Option<MyoutexGuard<T>>)
        requires
            old(self).waiters() >= 1,
            old(myoutex).wf(),
        ensures
            final(self).waiters() == old(self).waiters() - 1,
            final(self).generation() == old(self).generation(),
            final(myoutex).wf(),
            (r is Some <==> old(myoutex).state_word() == 0),
            (r matches Some(g) ==> g@ == old(myoutex).stored() && final(myoutex).state_word()
                == 1),
            old(myoutex).state_word() != 0 ==> final(myoutex).state_word() == 2,
    {
        self.num_waiters = self.num_waiters - 1;
        myoutex.lock()
    }
}

} // verus!
