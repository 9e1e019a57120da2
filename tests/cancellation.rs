use worksmart::Shutdown;

#[test]
fn cancellation_is_monotonic() {
    let mut t = Shutdown::new();
    assert!(!t.is_shutdown());
    let early = t.subscribe();
    assert!(!early.is_shutdown());
    t.observe_signal();
    assert!(t.is_shutdown());
    assert!(t.is_shutdown());
    t.observe_signal();
    assert!(t.is_shutdown());
    let derived = t.subscribe();
    assert!(derived.is_shutdown());
    assert!(derived.subscribe().is_shutdown());
    // a subscription taken before the signal keeps its own latch
    assert!(!early.is_shutdown());
}
