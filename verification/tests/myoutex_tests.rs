use std::rc::Rc;

use futex_sync::myoutex::Myoutex;

#[test]
fn uncontended_lock_and_unlock() {
    let mut m = Myoutex::new(41i32);
    let mut g = m.lock().expect("free lock must be acquired");
    assert_eq!(*g.get(), 41);
    g.set(42);
    // No one ever waited, so the release wakes nobody.
    let wake = m.unlock(g);
    assert!(!wake);
    let g2 = m.lock().expect("released lock must be acquired");
    assert_eq!(*g2.get(), 42);
    let wake2 = m.unlock(g2);
    assert!(!wake2);
}

#[test]
fn get_mut_updates_in_place() {
    let mut m = Myoutex::new(10i32);
    let mut g = m.lock().unwrap();
    *g.get_mut() += 5;
    assert_eq!(*g.get(), 15);
    m.unlock(g);
}

// Two threads, the lock protecting an i32 initialized to 0: thread A
// acquires, increments to 1 and releases; thread B's acquisition, attempted
// while A held the lock, blocks (registering B as a waiter), is woken by A's
// release, and then succeeds observing the value 1. Here the two threads'
// protocol steps are interleaved one word-transition at a time.
#[test]
fn contended_handoff_observes_update() {
    let mut m = Myoutex::new(0i32);

    // Thread A acquires.
    let mut guard_a = m.lock().expect("A finds the lock free");
    // Thread B attempts while A holds: it registers as a waiter and would
    // block on the word with expected value 2.
    assert!(m.lock().is_none());
    // Thread A increments and releases; B is registered, so exactly one
    // waiter must be woken.
    guard_a.set(*guard_a.get() + 1);
    let wake = m.unlock(guard_a);
    assert!(wake);
    // Thread B, woken, retries and succeeds, observing A's update.
    let guard_b = m.lock().expect("B finds the lock free after A's release");
    assert_eq!(*guard_b.get(), 1);
    let wake_b = m.unlock(guard_b);
    assert!(!wake_b);
}

// Several "threads" each increment a shared counter many times in a tight
// acquire/increment/release loop, taking turns; every attempt eventually
// succeeds and no update is lost: the counter ends at exactly threads *
// rounds.
#[test]
fn counter_loop_loses_no_update() {
    const THREADS: usize = 4;
    const ROUNDS: usize = 1000;
    let mut m = Myoutex::new(0usize);
    for _ in 0..ROUNDS {
        for _ in 0..THREADS {
            // One contender takes its turn; a failed attempt would mean a
            // waiter and a retry, but round-robin turns never collide.
            let mut g = m.lock().expect("lock is free at the start of a turn");
            *g.get_mut() += 1;
            m.unlock(g);
        }
    }
    let g = m.lock().unwrap();
    assert_eq!(*g.get(), THREADS * ROUNDS);
    m.unlock(g);
}

// Constructing a mutex and dropping it without ever locking must not block
// or leak: the protected value's destructor runs exactly once.
#[test]
fn myoutex_construct_and_drop_runs_value_destructor_once() {
    let witness = Rc::new(());
    let m = Myoutex::new(witness.clone());
    assert_eq!(Rc::strong_count(&witness), 2);
    drop(m);
    assert_eq!(Rc::strong_count(&witness), 1);
}

#[test]
fn guard_owns_value_while_locked() {
    let witness = Rc::new(());
    let mut m = Myoutex::new(witness.clone());
    let g = m.lock().unwrap();
    // The value lives in the guard now; dropping the guard without an
    // unlock would drop the value with it.
    assert_eq!(Rc::strong_count(&witness), 2);
    m.unlock(g);
    assert_eq!(Rc::strong_count(&witness), 2);
    drop(m);
    assert_eq!(Rc::strong_count(&witness), 1);
}
