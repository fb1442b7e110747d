use futex_sync::generation::next_generation;

#[test]
fn generation_advances_by_one() {
    assert_eq!(next_generation(0), 1);
    assert_eq!(next_generation(41), 42);
}

#[test]
fn generation_wraps_at_the_top() {
    assert_eq!(next_generation(u32::MAX), 0);
    assert_eq!(next_generation(u32::MAX - 1), u32::MAX);
}

#[test]
fn generation_step_never_stands_still() {
    for c in [0, 1, 7, u32::MAX - 1, u32::MAX] {
        assert_ne!(next_generation(c), c);
    }
}
