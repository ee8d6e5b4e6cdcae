use dmr_bridge_discord::session::SessionBinding;

#[test]
fn play_without_a_session_is_a_no_op() {
    let binding = SessionBinding::new();
    let frame = vec![0i16; 960];
    assert!(binding.play(&frame).is_none());
    assert!(binding.current_call().is_none());
}

#[test]
fn play_uses_exactly_the_bound_call() {
    let mut binding = SessionBinding::new();
    binding.attach(11);
    let frame = vec![1i16; 960];
    assert_eq!(binding.play(&frame), Some(11));
    // rebinding replaces the earlier call
    binding.attach(22);
    assert_eq!(binding.play(&frame), Some(22));
}

#[test]
fn detach_drops_all_further_playback() {
    let mut binding = SessionBinding::new();
    binding.attach(7);
    binding.detach();
    let frame = vec![0i16; 960];
    assert!(binding.play(&frame).is_none(), "a detached call is never used again");
    assert!(binding.current_call().is_none());
    // a fresh attach works as before
    binding.attach(8);
    assert_eq!(binding.play(&frame), Some(8));
}
