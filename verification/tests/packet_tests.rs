use dmr_bridge_discord::packet::{PacketType, USRP, AUDIO_SAMPLES, PACKET_BYTES};

fn sample_packet() -> USRP {
    let mut audio: Vec<i16> = Vec::new();
    for k in 0..AUDIO_SAMPLES {
        let v = (k as i32) * 257 - 20000;
        audio.push(v as i16);
    }
    USRP {
        sequence_counter: 0xDEAD_BEEF,
        stream_id: 42,
        push_to_talk: true,
        talk_group: 9,
        packet_type: PacketType::Text,
        multiplex_id: 7,
        reserved: 3,
        audio,
    }
}

#[test]
fn round_trip_keeps_every_field() {
    let p = sample_packet();
    let buffer = p.to_buffer();
    assert_eq!(buffer.len(), PACKET_BYTES);
    let q = USRP::from_buffer(&buffer).expect("encoded packet must decode");
    assert_eq!(q.sequence_counter, p.sequence_counter);
    assert_eq!(q.stream_id, p.stream_id);
    assert_eq!(q.push_to_talk, p.push_to_talk);
    assert_eq!(q.talk_group, p.talk_group);
    assert_eq!(q.packet_type, p.packet_type);
    assert_eq!(q.multiplex_id, p.multiplex_id);
    assert_eq!(q.reserved, p.reserved);
    assert_eq!(q.audio, p.audio);
}

#[test]
fn round_trip_extreme_samples() {
    let mut p = USRP::default();
    p.audio[0] = i16::MIN;
    p.audio[1] = i16::MAX;
    p.audio[2] = -1;
    p.sequence_counter = u32::MAX;
    let q = USRP::from_buffer(&p.to_buffer()).unwrap();
    assert_eq!(q.audio[0], i16::MIN);
    assert_eq!(q.audio[1], i16::MAX);
    assert_eq!(q.audio[2], -1);
    assert_eq!(q.sequence_counter, u32::MAX);
}

#[test]
fn decode_rejects_wrong_magic() {
    let p = sample_packet();
    let mut buffer = p.to_buffer();
    buffer[0] = b'X';
    assert!(USRP::from_buffer(&buffer).is_none());
    let mut other = p.to_buffer();
    other[3] = 0;
    assert!(USRP::from_buffer(&other).is_none());
}

#[test]
fn decode_succeeds_on_any_magic_tagged_buffer() {
    let mut buffer = vec![0xA5u8; PACKET_BYTES];
    buffer[0] = 0x55;
    buffer[1] = 0x53;
    buffer[2] = 0x52;
    buffer[3] = 0x50;
    let q = USRP::from_buffer(&buffer).expect("magic-tagged buffer always decodes");
    assert_eq!(q.packet_type, PacketType::Unknown);
    assert!(q.push_to_talk);
}

#[test]
fn wire_layout_is_exact() {
    let mut p = USRP::default();
    p.sequence_counter = 0x0102_0304;
    p.packet_type = PacketType::Text;
    p.push_to_talk = true;
    p.audio[0] = -2;
    let b = p.to_buffer();
    assert_eq!(&b[0..4], b"USRP");
    // big-endian sequence counter
    assert_eq!(&b[4..8], &[1, 2, 3, 4]);
    // big-endian push-to-talk word
    assert_eq!(&b[12..16], &[0, 0, 0, 1]);
    // little-endian packet type, unlike the rest of the header
    assert_eq!(&b[20..24], &[2, 0, 0, 0]);
    // little-endian samples: -2 is 0xFFFE
    assert_eq!(&b[32..34], &[0xFE, 0xFF]);
    assert_eq!(&b[34..36], &[0, 0]);
}

#[test]
fn push_to_talk_reads_any_nonzero_word() {
    let mut b = USRP::default().to_buffer();
    b[12] = 0;
    b[13] = 0;
    b[14] = 2;
    b[15] = 0;
    let q = USRP::from_buffer(&b).unwrap();
    assert!(q.push_to_talk);
}

#[test]
fn default_packet_is_silent_voice() {
    let p = USRP::default();
    assert_eq!(p.sequence_counter, 0);
    assert_eq!(p.stream_id, 0);
    assert!(!p.push_to_talk);
    assert_eq!(p.talk_group, 0);
    assert_eq!(p.packet_type, PacketType::Voice);
    assert_eq!(p.multiplex_id, 0);
    assert_eq!(p.reserved, 0);
    assert_eq!(p.audio, vec![0i16; AUDIO_SAMPLES]);
}

#[test]
fn packet_type_codes_map_both_ways() {
    assert_eq!(PacketType::Voice.to_code(), 0);
    assert_eq!(PacketType::DualToneMultiFrequency.to_code(), 1);
    assert_eq!(PacketType::Text.to_code(), 2);
    assert_eq!(PacketType::Unknown.to_code(), u32::MAX);
    assert_eq!(PacketType::from_code(0), PacketType::Voice);
    assert_eq!(PacketType::from_code(1), PacketType::DualToneMultiFrequency);
    assert_eq!(PacketType::from_code(2), PacketType::Text);
    assert_eq!(PacketType::from_code(3), PacketType::Unknown);
    assert_eq!(PacketType::from_code(u32::MAX), PacketType::Unknown);
}
