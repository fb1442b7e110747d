//! A mutual-exclusion lock whose whole protocol lives in one 32-bit word:
//! `0` unlocked, `1` locked with no waiters, `2` locked with at least one
//! waiter.
//!
//! The lock here is the protocol itself, made explicit: a [`Myoutex`] holds
//! the state word and, while unlocked, the protected value; each operation
//! performs exactly the word transition the concurrent algorithm performs
//! with one atomic instruction, and reports the blocking or waking decision
//! that follows from it. A driver running real threads owns an atomic word,
//! mirrors each transition on it, and parks on the word (expecting `2`) or
//! wakes one waiter exactly when the decision says so.
//!
//! Acquisition hands the protected value to the [`MyoutexGuard`]; release
//! consumes the guard and hands the value back. Ownership of the value thus
//! moves with the lock, and a second guard cannot exist while one is live.

use vstd::prelude::*;

verus! {

/// How many times the contended path re-reads a word that is locked without
/// waiters (`1`) before it registers as a waiter and blocks. Spinning only
/// reads, so it never changes the protocol state.
pub const SPIN_LIMIT: u32 = 100;

/// The mutual-exclusion lock: one state word and, while unlocked, the
/// protected value.
pub struct Myoutex<T> {
    /// - `0`: unlocked
    /// - `1`: locked, no other threads waiting
    /// - `2`: locked, other threads waiting
    state: u32,
    /// The protected value; held here exactly while the lock is unlocked,
    /// and by the live guard otherwise.
    value: Option<T>,
}

/// Proof of acquisition: owns the protected value until it is given back to
/// [`Myoutex::unlock`].
pub struct MyoutexGuard<T> {
    value: T,
}

impl<T> View for MyoutexGuard<T> {
    type V = T;

    closed spec fn view(&self) -> T {
        self.value
    }
}

impl<T> MyoutexGuard<T> {
    /// Read the protected value.
    pub fn get(&self) -> (r: &T)
        ensures
            *r == self@,
    {
        &self.value
    }

    /// Mutable access to the protected value.
    pub fn get_mut(&mut self) -> (r: &mut T)
        ensures
            *r == old(self)@,
            final(self)@ == *final(r),
    {
        &mut self.value
    }

    /// Replace the protected value.
    pub fn set(&mut self, v: T)
        ensures
            final(self)@ == v,
    {
        self.value = v;
    }
}

/// The release decision of the mutex protocol, for a driver that runs it
/// over a real atomic word: the holder that swapped the word back to `0`
/// wakes one waiter exactly when the swapped-out word was `2`, i.e. when at
/// least one thread had registered as a waiter. The common uncontended
/// release (old word `1`) thus never pays for a wake call.
pub fn release_wakes_waiter(prev: u32) -> (r: bool)
    ensures
        (r <==> prev == 2),
{
    prev == 2
}

/// The lock's state as the protocol sees it: the word, plus how many guards
/// are live. Runs of [`myoutex_step`] over this state are what the safety
/// law quantifies over.
pub struct MyoutexModel {
    pub word: u32,
    pub holders: nat,
}

/// One atomic transition of the mutex protocol.
pub enum MyoutexEvent {
    /// A thread observed `0` and claimed the lock (compare-and-swap to `1`,
    /// or swap to `2` that returned `0`).
    Acquire,
    /// A thread observed a held lock and swapped the word to `2`, registering
    /// itself as a waiter before blocking.
    Enqueue,
    /// The holder released: the word returns to `0`.
    Release,
}

/// The transition relation of the mutex protocol.
pub open spec fn myoutex_step(pre: MyoutexModel, ev: MyoutexEvent, post: MyoutexModel) -> bool {
    match ev {
        MyoutexEvent::Acquire => {
            &&& pre.word == 0
            &&& (post.word == 1 || post.word == 2)
            &&& post.holders == pre.holders + 1
        },
        MyoutexEvent::Enqueue => {
            &&& pre.word != 0
            &&& post.word == 2
            &&& post.holders == pre.holders
        },
        MyoutexEvent::Release => {
            &&& pre.holders == 1
            &&& post.word == 0
            &&& post.holders == pre.holders - 1
        },
    }
}

/// A freshly constructed mutex: unlocked, no holders.
pub open spec fn myoutex_init(m: MyoutexModel) -> bool {
    m.word == 0 && m.holders == 0
}

/// The protocol invariant: the word stays within its three legal values and
/// counts the holder exactly — a nonzero word means precisely one holder.
pub open spec fn myoutex_inv(m: MyoutexModel) -> bool {
    &&& m.word <= 2
    &&& m.holders == (if m.word == 0 {
        0nat
    } else {
        1nat
    })
}

/// `states` is a run of the protocol under the events `events`.
pub open spec fn myoutex_run(states: Seq<MyoutexModel>, events: Seq<MyoutexEvent>) -> bool {
    &&& states.len() == events.len() + 1
    &&& forall|i: int|
        0 <= i < events.len() ==> #[trigger] myoutex_step(states[i], events[i], states[i + 1])
}

/// Every single transition preserves the protocol invariant.
pub proof fn lemma_myoutex_step_preserves_inv(
    pre: MyoutexModel,
    ev: MyoutexEvent,
    post: MyoutexModel,
)
    requires
        myoutex_inv(pre),
        myoutex_step(pre, ev, post),
    ensures
        myoutex_inv(post),
{
}

/// The invariant holds at every point of every run that starts unlocked.
pub proof fn lemma_myoutex_run_inv(states: Seq<MyoutexModel>, events: Seq<MyoutexEvent>, i: int)
    requires
        myoutex_run(states, events),
        myoutex_init(states[0]),
        0 <= i < states.len(),
    ensures
        myoutex_inv(states[i]),
    decreases i,
{
    if i > 0 {
        let j = i - 1;
        lemma_myoutex_run_inv(states, events, j);
        assert(myoutex_step(states[j], events[j], states[j + 1]));
        lemma_myoutex_step_preserves_inv(states[j], events[j], states[j + 1]);
    }
}

/// Mutual exclusion: along any run of the protocol from the unlocked state,
/// at most one guard granting access to the protected value is live at any
/// instant.
pub proof fn lemma_myoutex_mutual_exclusion(
    states: Seq<MyoutexModel>,
    events: Seq<MyoutexEvent>,
    i: int,
)
    requires
        myoutex_run(states, events),
        myoutex_init(states[0]),
        0 <= i < states.len(),
    ensures
        states[i].holders <= 1,
{
    lemma_myoutex_run_inv(states, events, i);
}

impl<T> Myoutex<T> {
    /// The state word.
    pub closed spec fn state_word(&self) -> u32 {
        self.state
    }

    /// The protected value; meaningful while the lock is unlocked.
    pub closed spec fn stored(&self) -> T {
        self.value.unwrap()
    }

    /// Well-formedness: the word is one of its three legal values, and the
    /// value is present exactly while the lock is unlocked.
    pub closed spec fn wf(&self) -> bool {
        &&& self.state <= 2
        &&& (self.state == 0 <==> self.value is Some)
    }

    /// No thread holds the lock.
    pub open spec fn unlocked(&self) -> bool {
        self.state_word() == 0
    }

    /// The word as the protocol model sees it.
    pub open spec fn model(&self) -> MyoutexModel {
        MyoutexModel {
            word: self.state_word(),
            holders: if self.state_word() == 0 {
                0nat
            } else {
                1nat
            },
        }
    }

    /// A new, unlocked mutex protecting `value`.
    pub fn new(value: T) -> (r: Self)
        ensures
            r.wf(),
            r.state_word() == 0,
            r.stored() == value,
    {
        Myoutex { state: 0, value: Some(value) }
    }

    /// One acquisition attempt.
    ///
    /// If the lock is free, this is the uncontended compare-and-swap `0 → 1`:
    /// it succeeds and the guard takes the protected value. Otherwise the
    /// contended path runs and ends with the word at `2`: the caller is
    /// registered as a waiter and must block on the word (expecting `2`)
    /// until a release wakes it, then attempt `lock` again.
    pub fn lock(&mut self) -> (r: Option<MyoutexGuard<T>>)
        requires
            old(self).wf(),
        ensures
            final(self).wf(),
            (r is Some <==> old(self).unlocked()),
            (r matches Some(g) ==> g@ == old(self).stored()),
            old(self).state_word() == 0 ==> final(self).state_word() == 1,
            old(self).state_word() != 0 ==> final(self).state_word() == 2,
            myoutex_step(
                old(self).model(),
                if old(self).state_word() == 0 {
                    MyoutexEvent::Acquire
                } else {
                    MyoutexEvent::Enqueue
                },
                final(self).model(),
            ),
    {
        if self.state == 0 {
            self.state = 1;
            let taken = self.value.take();
            Some(MyoutexGuard { value: taken.unwrap() })
        } else {
            self.lock_contended();
            None
        }
    }

    /// The contended path. Spinning merely re-reads a word that no step of
    /// this machine changes, so the spin phase is a bounded loop of reads;
    /// the retried compare-and-swap finds the word still nonzero; the final
    /// swap publishes `2` and its old value shows the lock still held, so
    /// the caller must block.
    fn lock_contended(&mut self)
        requires
            old(self).wf(),
            old(self).state_word() != 0,
        ensures
            final(self).wf(),
            final(self).state_word() == 2,
    {
        let mut spin_count: u32 = 0;
        while self.state == 1 && spin_count < SPIN_LIMIT
            invariant
                self == old(self),
                spin_count <= SPIN_LIMIT,
            decreases SPIN_LIMIT - spin_count,
        {
            spin_count = spin_count + 1;
        }
        // The word is still nonzero, so the retried 0 -> 1 exchange fails;
        // swap in 2 to register as a waiter. The swapped-out value is the
        // old word, which is nonzero: the lock remains held and the caller
        // blocks on the word with expected value 2.
        self.state = 2;
    }

    /// Release the lock, giving the protected value back.
    ///
    /// The word is swapped to `0`; the returned flag says whether the old
    /// word was `2`, in which case exactly one waiter must be woken (the
    /// rest, if any, re-block after losing the next race).
    pub fn unlock(&mut self, guard: MyoutexGuard<T>) -> (wake: bool)
        requires
            old(self).wf(),
            old(self).state_word() != 0,
        ensures
            final(self).wf(),
            final(self).state_word() == 0,
            final(self).stored() == guard@,
            (wake <==> old(self).state_word() == 2),
            myoutex_step(old(self).model(), MyoutexEvent::Release, final(self).model()),
    {
        let prev = self.state;
        self.state = 0;
        self.value = Some(guard.value);
        prev == 2
    }
}

} // verus!
