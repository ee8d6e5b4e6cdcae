use dmr_bridge_discord::packet::{PacketType, AUDIO_SAMPLES};
use dmr_bridge_discord::transmitter::{Transmitter, TransmitterWrapper};

#[test]
fn continuous_audio_gives_gapless_increasing_counters() {
    let mut tx = Transmitter::new();
    tx.accept_audio(&vec![100i16; 500]);
    let mut counters = Vec::new();
    while tx.has_full_frame() {
        let p = tx.emit_voice_frame();
        assert!(p.push_to_talk);
        assert_eq!(p.packet_type, PacketType::Voice);
        counters.push(p.sequence_counter);
    }
    assert_eq!(counters, vec![0, 1, 2]);
    assert!(tx.is_active());
}

#[test]
fn short_final_frame_is_zero_padded() {
    let mut tx = Transmitter::new();
    tx.accept_audio(&vec![7i16; 10]);
    let p = tx.emit_voice_frame();
    assert_eq!(p.audio.len(), AUDIO_SAMPLES);
    assert_eq!(&p.audio[..10], &[7i16; 10][..]);
    assert!(p.audio[10..].iter().all(|&s| s == 0));
    assert!(!tx.has_pending());
}

#[test]
fn frames_drain_in_order() {
    let mut tx = Transmitter::new();
    let samples: Vec<i16> = (0..200).map(|k| k as i16).collect();
    tx.accept_audio(&samples);
    let first = tx.emit_voice_frame();
    assert_eq!(first.audio[0], 0);
    assert_eq!(first.audio[159], 159);
    let second = tx.emit_voice_frame();
    assert_eq!(second.audio[0], 160);
    assert_eq!(second.audio[39], 199);
    assert_eq!(second.audio[40], 0);
}

#[test]
fn silence_emits_exactly_one_terminator() {
    let mut tx = Transmitter::new();
    assert!(tx.on_silence().is_none(), "idle path emits nothing on timeout");
    tx.accept_audio(&vec![5i16; 160]);
    let voice = tx.emit_voice_frame();
    assert_eq!(voice.sequence_counter, 0);
    let end = tx.on_silence().expect("active path emits the terminator");
    assert_eq!(end.sequence_counter, 1);
    assert!(!end.push_to_talk);
    assert_eq!(end.packet_type, PacketType::Voice);
    assert!(end.audio.iter().all(|&s| s == 0));
    assert!(tx.on_silence().is_none(), "second timeout emits nothing");
    assert!(!tx.is_active());
}

#[test]
fn terminator_counter_continues_the_stream() {
    let mut tx = Transmitter::new();
    tx.accept_audio(&vec![1i16; 320]);
    assert_eq!(tx.emit_voice_frame().sequence_counter, 0);
    assert_eq!(tx.emit_voice_frame().sequence_counter, 1);
    let end = tx.on_silence().unwrap();
    assert_eq!(end.sequence_counter, 2);
    // counters never reset: the next transmission continues at 3
    tx.accept_audio(&vec![2i16; 160]);
    assert_eq!(tx.emit_voice_frame().sequence_counter, 3);
}

#[test]
fn counter_wraps_at_wire_width() {
    let mut tx = Transmitter::new();
    tx.sequence_counter = u32::MAX;
    tx.accept_audio(&vec![9i16; 160]);
    let p = tx.emit_voice_frame();
    assert_eq!(p.sequence_counter, u32::MAX);
    tx.accept_audio(&vec![9i16; 160]);
    assert_eq!(tx.emit_voice_frame().sequence_counter, 0);
}

#[test]
fn wrapper_forwards_one_tick_into_the_buffer() {
    let tx = Transmitter::new();
    let mut wrapper = TransmitterWrapper::new(tx);
    // one speaker, 20 ms of stereo 48 kHz at a fixed level
    let speakers = vec![vec![600i16; 1920]];
    assert!(wrapper.act(&speakers));
    assert_eq!(wrapper.transmitter.buffer, vec![600i16; 160]);
}

#[test]
fn wrapper_mixes_two_speakers() {
    let tx = Transmitter::new();
    let mut wrapper = TransmitterWrapper::new(tx);
    let speakers = vec![vec![100i16; 1920], vec![-30i16; 1920]];
    assert!(wrapper.act(&speakers));
    assert_eq!(wrapper.transmitter.buffer, vec![70i16; 160]);
}

#[test]
fn wrapper_with_no_speakers_buffers_nothing() {
    let tx = Transmitter::new();
    let mut wrapper = TransmitterWrapper::new(tx);
    let speakers: Vec<Vec<i16>> = Vec::new();
    assert!(wrapper.act(&speakers));
    assert!(wrapper.transmitter.buffer.is_empty());
}
