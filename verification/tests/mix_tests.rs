use dmr_bridge_discord::mix::mix;

#[test]
fn mixing_is_additive() {
    let streams = vec![vec![1i16, 2, 3], vec![10i16, 20]];
    let out = mix(&streams);
    assert_eq!(out, vec![11, 22, 3]);
}

#[test]
fn mixing_clamps_to_sample_range() {
    let streams = vec![vec![30_000i16, -30_000], vec![30_000i16, -30_000]];
    let out = mix(&streams);
    assert_eq!(out, vec![32_767, -32_768]);
}

#[test]
fn no_streams_mix_to_silence() {
    let streams: Vec<Vec<i16>> = Vec::new();
    assert!(mix(&streams).is_empty());
}

#[test]
fn single_stream_passes_through() {
    let streams = vec![vec![5i16, -6, 7]];
    assert_eq!(mix(&streams), vec![5, -6, 7]);
}
