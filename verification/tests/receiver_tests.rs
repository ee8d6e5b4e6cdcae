use dmr_bridge_discord::packet::{PacketType, PACKET_BYTES, USRP};
use dmr_bridge_discord::receiver::{Receiver, MIN_DATAGRAM_BYTES, PLAYBACK_SAMPLES};

#[test]
fn voice_packet_is_forwarded() {
    let mut p = USRP::default();
    p.push_to_talk = true;
    p.audio[0] = 123;
    let buffer = p.to_buffer();
    let forwarded = Receiver::process_datagram(&buffer, PACKET_BYTES)
        .expect("voice packet reaches playback");
    assert_eq!(forwarded.packet_type, PacketType::Voice);
    assert_eq!(forwarded.audio[0], 123);
}

#[test]
fn text_packet_is_dropped() {
    let mut p = USRP::default();
    p.packet_type = PacketType::Text;
    let buffer = p.to_buffer();
    assert!(USRP::from_buffer(&buffer).is_some(), "the packet itself decodes");
    assert!(Receiver::process_datagram(&buffer, PACKET_BYTES).is_none());
}

#[test]
fn unknown_and_dtmf_packets_are_dropped() {
    let mut p = USRP::default();
    p.packet_type = PacketType::DualToneMultiFrequency;
    assert!(Receiver::process_datagram(&p.to_buffer(), PACKET_BYTES).is_none());
    p.packet_type = PacketType::Unknown;
    assert!(Receiver::process_datagram(&p.to_buffer(), PACKET_BYTES).is_none());
}

#[test]
fn short_datagram_never_reaches_the_codec() {
    // a well-formed voice packet, but the socket read too few bytes
    let buffer = USRP::default().to_buffer();
    assert!(Receiver::process_datagram(&buffer, MIN_DATAGRAM_BYTES - 1).is_none());
    assert!(Receiver::process_datagram(&buffer, 0).is_none());
    // the boundary itself is accepted
    assert!(Receiver::process_datagram(&buffer, MIN_DATAGRAM_BYTES).is_some());
}

#[test]
fn bad_magic_is_dropped() {
    let mut buffer = USRP::default().to_buffer();
    buffer[1] = 0;
    assert!(Receiver::process_datagram(&buffer, PACKET_BYTES).is_none());
}

#[test]
fn playback_frame_has_platform_length_and_level() {
    let mut p = USRP::default();
    for s in p.audio.iter_mut() {
        *s = -5;
    }
    let frame = Receiver::playback_frame(&p);
    assert_eq!(frame.len(), PLAYBACK_SAMPLES);
    assert!(frame.iter().all(|&s| s == -5));
}
