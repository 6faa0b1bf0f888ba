use axiom_profiler::cancel::CancellationToken;

#[test]
fn token_starts_unset() {
    let t = CancellationToken::new();
    assert!(!t.is_set());
}

#[test]
fn set_is_idempotent_and_stays() {
    let mut t = CancellationToken::new();
    t.set();
    assert!(t.is_set());
    t.set();
    assert!(t.is_set());
}
