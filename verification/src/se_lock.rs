//! A shared/exclusive (reader/writer) lock whose protocol is packed into a
//! single 32-bit state word, plus a second word dedicated to waking blocked
//! writers.
//!
//! State word encoding:
//! - `u32::MAX` (sentinel): write-locked;
//! - otherwise `word / 2` is the number of active shared holders and
//!   `word % 2 == 1` means an exclusive request is pending, so new readers
//!   must block (readers acquire only on an even word — including the
//!   transient `1`, where a writer has merely *requested* the lock: new
//!   readers do not jump the queue ahead of it).
//!
//! The single-word packing is what makes the reader-count/pending-flag pair
//! atomic under one compare-and-swap; it is kept here exactly, `/ 2` and
//! `% 2` decompositions, sentinel and all. The dedicated wake counter exists
//! so writers are woken only by the one transition that empties the reader
//! set while a writer is pending, not by every reader release.
//!
//! As with the mutex, the lock here is the protocol made explicit: each
//! operation performs the exact word transition of the concurrent algorithm
//! and returns the park/wake decision, and the exclusion laws are proved
//! over runs of the resulting state machine.

use vstd::prelude::*;

use crate::generation::next_generation;
use crate::generation::wrap_inc;

verus! {

/// The shared/exclusive lock: the packed state word, the writer wake
/// counter, and — while not write-locked — the protected value.
pub struct SeLock<T> {
    /// The number of shared locks times two, plus one if an exclusive is
    /// waiting; `u32::MAX` if write-locked.
    state: u32,
    /// Incremented to wake up writers.
    exclusive_wake_counter: u32,
    /// The protected value; taken by the exclusive guard while write-locked.
    value: Option<T>,
}

/// Proof of shared (read) acquisition. Any number may coexist; none may
/// coexist with an [`ExclusiveGuard`] of the same lock.
pub struct ShareGuard {
    _private: (),
}

/// Proof of exclusive (write) acquisition: owns the protected value until it
/// is given back to [`SeLock::release_exclusive`].
pub struct ExclusiveGuard<T> {
    value: T,
}

impl<T> View for ExclusiveGuard<T> {
    type V = T;

    closed spec fn view(&self) -> T {
        self.value
    }
}

impl<T> ExclusiveGuard<T> {
    /// Read the protected value.
    pub fn get(&self) -> (r: &T)
        ensures
            *r == self@,
    {
        &self.value
    }

    /// Mutable access to the protected value.
    pub fn get_mut(&mut self) -> (r: &mut T)
        ensures
            *r == old(self)@,
            final(self)@ == *final(r),
    {
        &mut self.value
    }

    /// Replace the protected value.
    pub fn set(&mut self, v: T)
        ensures
            final(self)@ == v,
    {
        self.value = v;
    }
}

/// The outcome of one exclusive-acquisition pass.
pub enum ExclusiveAttempt<T> {
    /// The word was `0` or `1` (no active readers): the lock is now
    /// write-locked and the guard owns the value.
    Acquired(ExclusiveGuard<T>),
    /// Readers are active. The pending bit is now set (so no new reader can
    /// join), and the caller must block on the writer wake counter with the
    /// returned snapshot, then try again.
    MustWait { wake_snapshot: u32 },
}

/// The reader admission decision, for a driver that runs the protocol over
/// a real atomic word: readers may acquire only on an even word.
pub fn reader_may_join(word: u32) -> (r: bool)
    ensures
        (r <==> word % 2 == 0),
{
    word % 2 == 0
}

/// The writer claim decision: the lock can be claimed whole only while no
/// reader is active — the word is `0`, or `1` carrying nothing but a
/// pending request.
pub fn writer_may_claim(word: u32) -> (r: bool)
    ensures
        (r <==> word <= 1),
{
    word <= 1
}

/// The reader-release decision: the sole hand-off from readers to a blocked
/// writer is the release that drops the word from exactly `3` — the last
/// reader leaving a pending writer alone.
pub fn share_release_hands_off(prev: u32) -> (r: bool)
    ensures
        (r <==> prev == 3),
{
    prev == 3
}

/// The lock's state as the protocol sees it: the word plus how many share
/// and exclusive guards are live.
pub struct SeModel {
    pub word: u32,
    pub readers: nat,
    pub writers: nat,
}

/// One atomic transition of the shared/exclusive protocol.
pub enum SeEvent {
    /// A reader observed an even word and claimed a share (word `+ 2`).
    SharedAcquire,
    /// A reader released its share (word `- 2`).
    SharedRelease,
    /// A writer observed active readers and set the pending bit (word `+ 1`)
    /// to block new readers before parking.
    WriterPend,
    /// A writer observed a word of at most `1` and claimed the lock (word to
    /// the `u32::MAX` sentinel).
    ExclusiveAcquire,
    /// The writer released: the word returns to `0`.
    ExclusiveRelease,
}

/// The transition relation of the shared/exclusive protocol.
pub open spec fn se_step(pre: SeModel, ev: SeEvent, post: SeModel) -> bool {
    match ev {
        SeEvent::SharedAcquire => {
            &&& pre.word % 2 == 0
            &&& pre.word + 4 <= u32::MAX
            &&& post.word == pre.word + 2
            &&& post.readers == pre.readers + 1
            &&& post.writers == pre.writers
        },
        SeEvent::SharedRelease => {
            &&& pre.word != u32::MAX
            &&& pre.word >= 2
            &&& pre.readers >= 1
            &&& post.word == pre.word - 2
            &&& post.readers == pre.readers - 1
            &&& post.writers == pre.writers
        },
        SeEvent::WriterPend => {
            &&& pre.word % 2 == 0
            &&& pre.word >= 2
            &&& pre.word + 2 <= u32::MAX
            &&& post.word == pre.word + 1
            &&& post.readers == pre.readers
            &&& post.writers == pre.writers
        },
        SeEvent::ExclusiveAcquire => {
            &&& pre.word <= 1
            &&& post.word == u32::MAX
            &&& post.readers == pre.readers
            &&& post.writers == pre.writers + 1
        },
        SeEvent::ExclusiveRelease => {
            &&& pre.writers == 1
            &&& post.word == 0
            &&& post.readers == pre.readers
            &&& post.writers == 0
        },
    }
}

/// A freshly constructed lock: no readers, no writer.
pub open spec fn se_init(m: SeModel) -> bool {
    m.word == 0 && m.readers == 0 && m.writers == 0
}

/// The protocol invariant: the sentinel word means exactly one writer and no
/// readers; any other word means no writer, counts the live share guards in
/// its upper bits, and stays clear of the sentinel.
pub open spec fn se_inv(m: SeModel) -> bool {
    &&& m.writers == (if m.word == u32::MAX {
        1nat
    } else {
        0nat
    })
    &&& (m.word != u32::MAX ==> m.readers == m.word / 2 && m.word + 2 <= u32::MAX)
    &&& (m.word == u32::MAX ==> m.readers == 0)
}

/// `states` is a run of the protocol under the events `events`.
pub open spec fn se_run(states: Seq<SeModel>, events: Seq<SeEvent>) -> bool {
    &&& states.len() == events.len() + 1
    &&& forall|i: int|
        0 <= i < events.len() ==> #[trigger] se_step(states[i], events[i], states[i + 1])
}

/// Every single transition preserves the protocol invariant.
pub proof fn lemma_se_step_preserves_inv(pre: SeModel, ev: SeEvent, post: SeModel)
    requires
        se_inv(pre),
        se_step(pre, ev, post),
    ensures
        se_inv(post),
{
}

/// The invariant holds at every point of every run that starts unlocked.
pub proof fn lemma_se_run_inv(states: Seq<SeModel>, events: Seq<SeEvent>, i: int)
    requires
        se_run(states, events),
        se_init(states[0]),
        0 <= i < states.len(),
    ensures
        se_inv(states[i]),
    decreases i,
{
    if i > 0 {
        let j = i - 1;
        lemma_se_run_inv(states, events, j);
        assert(se_step(states[j], events[j], states[j + 1]));
        lemma_se_step_preserves_inv(states[j], events[j], states[j + 1]);
    }
}

/// Reader/writer exclusion: along any run of the protocol from the unlocked
/// state, a live exclusive guard is unique and never coexists with a live
/// share guard.
pub proof fn lemma_se_reader_writer_exclusion(states: Seq<SeModel>, events: Seq<SeEvent>, i: int)
    requires
        se_run(states, events),
        se_init(states[0]),
        0 <= i < states.len(),
    ensures
        states[i].writers <= 1,
        !(states[i].readers > 0 && states[i].writers > 0),
    {
    lemma_se_run_inv(states, events, i);
}

/// The sentinel is reached only from a word of `0` or `1`: along any run
/// from the unlocked state, the step that write-locks is a writer's claim
/// made while no reader holds the lock.
pub proof fn lemma_sentinel_only_from_empty(states: Seq<SeModel>, events: Seq<SeEvent>, i: int)
    requires
        se_run(states, events),
        se_init(states[0]),
        0 <= i < events.len(),
        states[i].word != u32::MAX,
        states[i + 1].word == u32::MAX,
    ensures
        states[i].word <= 1,
        events[i] is ExclusiveAcquire,
{
    lemma_se_run_inv(states, events, i);
    assert(se_step(states[i], events[i], states[i + 1]));
}

impl<T> SeLock<T> {
    /// The packed state word.
    pub closed spec fn state_word(&self) -> u32 {
        self.state
    }

    /// The writer wake counter.
    pub closed spec fn wake_counter(&self) -> u32 {
        self.exclusive_wake_counter
    }

    /// The protected value; meaningful while not write-locked.
    pub closed spec fn stored(&self) -> T {
        self.value.unwrap()
    }

    /// Well-formedness: the value is absent exactly while write-locked, and
    /// any non-sentinel word stays clear of the sentinel by at least two.
    pub closed spec fn wf(&self) -> bool {
        &&& (self.value is Some <==> self.state != u32::MAX)
        &&& (self.state != u32::MAX ==> self.state + 2 <= u32::MAX)
    }

    /// The lock is write-locked.
    pub open spec fn write_locked(&self) -> bool {
        self.state_word() == u32::MAX
    }

    /// The number of active shared holders; meaningful while not
    /// write-locked.
    pub open spec fn readers(&self) -> u32 {
        (self.state_word() / 2) as u32
    }

    /// An exclusive request is pending: the word is odd, so new readers
    /// block.
    pub open spec fn writer_pending(&self) -> bool {
        !self.write_locked() && self.state_word() % 2 == 1
    }

    /// The word as the protocol model sees it.
    pub open spec fn model(&self) -> SeModel {
        SeModel {
            word: self.state_word(),
            readers: if self.write_locked() {
                0nat
            } else {
                self.readers() as nat
            },
            writers: if self.write_locked() {
                1nat
            } else {
                0nat
            },
        }
    }

    /// A new, unlocked lock protecting `value`.
    pub fn new(value: T) -> (r: Self)
        ensures
            r.wf(),
            r.state_word() == 0,
            r.wake_counter() == 0,
            r.stored() == value,
    {
        SeLock { state: 0, exclusive_wake_counter: 0, value: Some(value) }
    }

    /// One shared-acquisition attempt.
    ///
    /// On an even word the reader joins (word `+ 2`) and a guard is issued.
    /// On an odd word — a writer holds the lock or has requested it — the
    /// caller must block on the state word with the word it observed, then
    /// try again once woken.
    ///
    /// The precondition keeps the reader count far from the top of the
    /// 32-bit range; overrunning it is a programming fault in the caller,
    /// not a recoverable condition.
    pub fn shared(&mut self) -> (r: Option<ShareGuard>)
        requires
            old(self).wf(),
            old(self).state_word() % 2 == 0 ==> old(self).state_word() < u32::MAX - 3,
        ensures
            final(self).wf(),
            (r is Some <==> old(self).state_word() % 2 == 0),
            (r is None <==> old(self).write_locked() || old(self).writer_pending()),
            old(self).state_word() % 2 == 0 ==> final(self).state_word() == old(self).state_word()
                + 2,
            old(self).state_word() % 2 == 1 ==> final(self).state_word() == old(self).state_word(),
            final(self).wake_counter() == old(self).wake_counter(),
            final(self).stored() == old(self).stored(),
            old(self).state_word() % 2 == 0 ==> se_step(
                old(self).model(),
                SeEvent::SharedAcquire,
                final(self).model(),
            ),
    {
        let s = self.state;
        if s % 2 == 0 {
            self.state = s + 2;
            Some(ShareGuard { _private: () })
        } else {
            None
        }
    }

    /// One exclusive-acquisition pass; see [`ExclusiveAttempt`].
    ///
    /// With no active readers (word at most `1`) the lock is claimed whole:
    /// the word becomes the sentinel and the guard takes the value. With
    /// readers active, an even word first gets its pending bit set so no new
    /// reader joins; either way the caller then blocks on the writer wake
    /// counter with the returned snapshot and tries again once woken.
    pub fn exclusive(&mut self) -> (r: ExclusiveAttempt<T>)
        requires
            old(self).wf(),
        ensures
            final(self).wf(),
            (r is Acquired <==> old(self).state_word() <= 1),
            (r is Acquired <==> !old(self).write_locked() && old(self).readers() == 0),
            (r matches ExclusiveAttempt::Acquired(g) ==> g@ == old(self).stored()
                && final(self).state_word() == u32::MAX),
            (r matches ExclusiveAttempt::MustWait { wake_snapshot } ==> wake_snapshot
                == old(self).wake_counter()),
            old(self).state_word() >= 2 && old(self).state_word() % 2 == 0
                ==> final(self).state_word() == old(self).state_word() + 1,
            old(self).state_word() >= 2 && old(self).state_word() % 2 == 1
                ==> final(self).state_word() == old(self).state_word(),
            final(self).wake_counter() == old(self).wake_counter(),
            r is MustWait ==> final(self).stored() == old(self).stored(),
            old(self).state_word() <= 1 ==> se_step(
                old(self).model(),
                SeEvent::ExclusiveAcquire,
                final(self).model(),
            ),
            old(self).state_word() >= 2 && old(self).state_word() % 2 == 0 ==> se_step(
                old(self).model(),
                SeEvent::WriterPend,
                final(self).model(),
            ),
    {
        let s = self.state;
        if s <= 1 {
            self.state = u32::MAX;
            let taken = self.value.take();
            ExclusiveAttempt::Acquired(ExclusiveGuard { value: taken.unwrap() })
        } else {
            if s % 2 == 0 {
                // Block new readers by making the state odd.
                self.state = s + 1;
            }
            // Readers are still active: the caller blocks on the writer wake
            // counter with this snapshot, then retries.
            ExclusiveAttempt::MustWait { wake_snapshot: self.exclusive_wake_counter }
        }
    }

    /// Read the protected value under a share guard.
    pub fn read(&self, _guard: &ShareGuard) -> (r: &T)
        requires
            self.wf(),
            !self.write_locked(),
        ensures
            *r == self.stored(),
    {
        self.value.as_ref().unwrap()
    }

    /// Release a share: the word drops by `2`. The returned flag says
    /// whether the old word was exactly `3` — the departing reader was the
    /// last one and a writer is pending — in which case the writer wake
    /// counter has been bumped and the driver wakes one thread blocked on
    /// it. This is the sole hand-off from readers to a blocked writer.
    pub fn release_shared(&mut self, _guard: ShareGuard) -> (wake_writer: bool)
        requires
            old(self).wf(),
            old(self).state_word() >= 2,
            !old(self).write_locked(),
        ensures
            final(self).wf(),
            final(self).state_word() == old(self).state_word() - 2,
            (wake_writer <==> old(self).state_word() == 3),
            wake_writer ==> final(self).wake_counter() == wrap_inc(old(self).wake_counter()),
            !wake_writer ==> final(self).wake_counter() == old(self).wake_counter(),
            final(self).stored() == old(self).stored(),
            se_step(old(self).model(), SeEvent::SharedRelease, final(self).model()),
    {
        let prev = self.state;
        self.state = prev - 2;
        if prev == 3 {
            self.exclusive_wake_counter = next_generation(self.exclusive_wake_counter);
            true
        } else {
            false
        }
    }

    /// Release the exclusive lock, giving the protected value back: the word
    /// returns to `0` and the writer wake counter is bumped. The driver then
    /// unconditionally wakes one thread blocked on the wake counter and all
    /// threads blocked on the state word — the lock went from fully locked
    /// to fully free, which may satisfy either waiter class.
    pub fn release_exclusive(&mut self, guard: ExclusiveGuard<T>)
        requires
            old(self).wf(),
            old(self).write_locked(),
        ensures
            final(self).wf(),
            final(self).state_word() == 0,
            final(self).stored() == guard@,
            final(self).wake_counter() == wrap_inc(old(self).wake_counter()),
            se_step(old(self).model(), SeEvent::ExclusiveRelease, final(self).model()),
    {
        self.state = 0;
        self.value = Some(guard.value);
        self.exclusive_wake_counter = next_generation(self.exclusive_wake_counter);
    }
}

} // verus!
