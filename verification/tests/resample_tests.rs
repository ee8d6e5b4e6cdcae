use dmr_bridge_discord::resample::resample;

#[test]
fn constant_signal_stays_constant_downward() {
    // one platform tick: 20 ms of stereo 48 kHz at a fixed level
    let input = vec![1000i16; 1920];
    let out = resample(&input, 2, 48_000, 1, 8_000);
    assert_eq!(out.len(), 160);
    assert!(out.iter().all(|&s| s == 1000));
}

#[test]
fn constant_signal_stays_constant_upward() {
    let input = vec![-7i16; 160];
    let out = resample(&input, 1, 8_000, 1, 48_000);
    assert_eq!(out.len(), 960);
    assert!(out.iter().all(|&s| s == -7));
}

#[test]
fn output_length_follows_rate_ratio() {
    // 333 frames from 44100 to 8000: 333 * 8000 / 44100 = 60.4..., so 60
    let input = vec![0i16; 333];
    let out = resample(&input, 1, 44_100, 1, 8_000);
    assert_eq!(out.len(), 60);
    // exact ratio when the rates divide evenly
    let input = vec![0i16; 480];
    let out = resample(&input, 1, 48_000, 1, 8_000);
    assert_eq!(out.len(), 80);
}

#[test]
fn interpolation_is_linear_between_samples() {
    // doubling the rate puts one interpolated sample between neighbours
    let input = vec![0i16, 100];
    let out = resample(&input, 1, 1, 1, 2);
    assert_eq!(out, vec![0, 50, 100, 100]);
}

#[test]
fn downmix_takes_first_channel() {
    let input = vec![1i16, 2, 3, 4, 5, 6];
    let out = resample(&input, 2, 8_000, 1, 8_000);
    assert_eq!(out, vec![1, 3, 5]);
}

#[test]
fn upmix_duplicates_the_mono_sample() {
    let input = vec![10i16, -20, 30];
    let out = resample(&input, 1, 8_000, 2, 8_000);
    assert_eq!(out, vec![10, 10, -20, -20, 30, 30]);
}

#[test]
fn empty_input_gives_empty_output() {
    let input: Vec<i16> = Vec::new();
    let out = resample(&input, 2, 48_000, 1, 8_000);
    assert!(out.is_empty());
}
