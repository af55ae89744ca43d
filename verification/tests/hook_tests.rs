use span_collect::PanicHookState;

#[test]
fn hook_is_installed_exactly_once() {
    let mut state = PanicHookState::new();
    assert!(state.start());
    assert!(!state.start());
    assert!(!state.start());
}
