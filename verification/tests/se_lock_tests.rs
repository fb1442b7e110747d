use std::rc::Rc;

use futex_sync::se_lock::ExclusiveAttempt;
use futex_sync::se_lock::SeLock;

// Eight readers acquire concurrently and never block each other; a ninth
// thread's exclusive acquisition blocks until all eight shares are dropped,
// and the eighth (last) release is the one that hands off to the writer.
#[test]
fn eight_readers_then_writer_handoff() {
    let mut l = SeLock::new(Vec::<i32>::new());

    let mut shares = Vec::new();
    for _ in 0..8 {
        let g = l.shared().expect("readers never block each other");
        assert!(l.read(&g).is_empty());
        shares.push(g);
    }

    // The writer finds readers active: it sets the pending bit and must
    // wait on the writer wake counter.
    match l.exclusive() {
        ExclusiveAttempt::Acquired(_) => panic!("writer cannot acquire over active readers"),
        ExclusiveAttempt::MustWait { .. } => {}
    }

    // The first seven releases leave readers behind: no hand-off.
    for _ in 0..7 {
        let g = shares.pop().unwrap();
        assert!(!l.release_shared(g));
    }
    // The last reader leaves a pending writer alone: it wakes the writer.
    let g = shares.pop().unwrap();
    assert!(l.release_shared(g));

    // The woken writer retries and succeeds.
    match l.exclusive() {
        ExclusiveAttempt::Acquired(mut g) => {
            g.get_mut().push(1);
            assert_eq!(*g.get(), vec![1]);
            l.release_exclusive(g);
        }
        ExclusiveAttempt::MustWait { .. } => panic!("no readers remain"),
    }

    // After the exclusive release the lock is fully free again.
    let g = l.shared().expect("readers may return");
    assert_eq!(*l.read(&g), vec![1]);
    assert!(!l.release_shared(g));
}

// A pending exclusive request blocks new readers even before the writer has
// acquired: once the last reader hands off, a late reader must wait, and
// may join again only after the writer is done.
#[test]
fn pending_writer_blocks_new_readers() {
    let mut l = SeLock::new(0i32);

    let r1 = l.shared().expect("first reader joins");
    match l.exclusive() {
        ExclusiveAttempt::Acquired(_) => panic!("a reader is active"),
        ExclusiveAttempt::MustWait { .. } => {}
    }
    // The word is odd now: a new reader must block behind the request.
    assert!(l.shared().is_none());
    // Last reader out wakes the writer; the request is still pending, so a
    // late reader keeps blocking rather than jumping the queue.
    assert!(l.release_shared(r1));
    assert!(l.shared().is_none());

    let g = match l.exclusive() {
        ExclusiveAttempt::Acquired(g) => g,
        ExclusiveAttempt::MustWait { .. } => panic!("no readers remain"),
    };
    // Write-locked: readers still blocked.
    assert!(l.shared().is_none());
    l.release_exclusive(g);
    // Fully free: readers come back.
    let r = l.shared().expect("lock is free again");
    l.release_shared(r);
}

#[test]
fn writer_reads_and_writes_through_guard() {
    let mut l = SeLock::new(String::from("before"));
    let mut g = match l.exclusive() {
        ExclusiveAttempt::Acquired(g) => g,
        ExclusiveAttempt::MustWait { .. } => panic!("free lock"),
    };
    assert_eq!(g.get().as_str(), "before");
    g.set(String::from("after"));
    l.release_exclusive(g);
    let r = l.shared().unwrap();
    assert_eq!(l.read(&r).as_str(), "after");
    l.release_shared(r);
}

// An uncontended writer never leaves a stale pending bit behind: release
// returns the word to zero, not to "writer pending".
#[test]
fn exclusive_release_clears_the_word() {
    let mut l = SeLock::new(());
    for _ in 0..3 {
        let g = match l.exclusive() {
            ExclusiveAttempt::Acquired(g) => g,
            ExclusiveAttempt::MustWait { .. } => panic!("free lock"),
        };
        l.release_exclusive(g);
    }
    assert!(l.shared().is_some());
}

// Constructing a lock and dropping it without ever locking must not block
// or leak: the protected value's destructor runs exactly once.
#[test]
fn se_lock_construct_and_drop_runs_value_destructor_once() {
    let witness = Rc::new(());
    let l = SeLock::new(witness.clone());
    assert_eq!(Rc::strong_count(&witness), 2);
    drop(l);
    assert_eq!(Rc::strong_count(&witness), 1);
}
