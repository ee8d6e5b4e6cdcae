//! The radio receive path's filter and playback preparation.
//!
//! The caller owns the UDP socket and hands every received datagram to
//! `process_datagram`, which decides — short datagrams, wrong magic and
//! non-voice packets are dropped, voice packets come back decoded. Each
//! forwarded packet's audio is then turned into one platform-rate playback
//! frame by `playback_frame`; the caller submits it to the bound call and
//! paces itself by the frame's 20 ms duration.

use vstd::prelude::*;
use crate::packet::has_magic;
use crate::packet::packet_matches_buffer;
use crate::packet::u32_from_le_bytes;
use crate::packet::PacketType;
use crate::packet::PACKET_BYTES;
use crate::packet::USRP;
use crate::resample::resample;
use crate::resample::resampled;
use crate::PLATFORM_RATE;
use crate::RADIO_RATE;

verus! {

/// Number of samples in one 20 ms mono platform-rate playback frame.
pub const PLAYBACK_SAMPLES: usize = 960;

/// Shortest datagram the receive path hands to the codec; anything shorter
/// is dropped before decoding is attempted.
pub const MIN_DATAGRAM_BYTES: usize = 32;

/// The packet type the wire header of `b` declares.
pub open spec fn wire_packet_type(b: Seq<u8>) -> PacketType {
    PacketType::spec_from_code(u32_from_le_bytes(b[20], b[21], b[22], b[23]))
}

/// Whether a datagram of `received` read bytes is forwarded to playback:
/// long enough to be a frame, carrying the magic tag, and of type `Voice`.
pub open spec fn datagram_forwarded(b: Seq<u8>, received: int) -> bool {
    &&& received >= MIN_DATAGRAM_BYTES as int
    &&& has_magic(b)
    &&& wire_packet_type(b) == PacketType::Voice
}

/// A sequence padded with silence, or truncated, to length `n`.
pub open spec fn fitted(s: Seq<i16>, n: int) -> Seq<i16> {
    Seq::new(n as nat, |i: int| if i < s.len() {
        s[i]
    } else {
        0i16
    })
}

/// The playback frame a voice packet's audio yields: the 160 radio-rate
/// samples converted to platform rate, fitted to one playback frame.
pub open spec fn playback_of(audio: Seq<i16>) -> Seq<i16> {
    fitted(
        resampled(audio, 1, RADIO_RATE as int, 1, PLATFORM_RATE as int),
        PLAYBACK_SAMPLES as int,
    )
}

/// The radio receive path's stateless packet filter.
pub struct Receiver {}

impl Receiver {
    /// Decides one received datagram. The reception buffer is always a
    /// full packet long; `received` says how many bytes the socket
    /// actually read. Datagrams shorter than `MIN_DATAGRAM_BYTES` never
    /// reach the codec; of the decoded packets exactly those of type
    /// `Voice` are returned for playback, every other packet is dropped.
    pub fn process_datagram(buffer: &Vec<u8>, received: usize) -> (r: Option<USRP>)
        requires
            buffer.len() == PACKET_BYTES,
        ensures
            r is Some <==> datagram_forwarded(buffer@, received as int),
            r is Some ==> r->Some_0.wf() && packet_matches_buffer(r->Some_0, buffer@),
            received < MIN_DATAGRAM_BYTES ==> r is None,
    {
        if received < MIN_DATAGRAM_BYTES {
            return None;
        }
        match USRP::from_buffer(buffer) {
            None => None,
            Some(p) => {
                if p.packet_type == PacketType::Voice {
                    Some(p)
                } else {
                    None
                }
            },
        }
    }

    /// Converts a voice packet's 20 ms of radio audio into one mono
    /// platform-rate playback frame of exactly `PLAYBACK_SAMPLES` samples.
    pub fn playback_frame(packet: &USRP) -> (r: Vec<i16>)
        requires
            packet.wf(),
        ensures
            r@.len() == PLAYBACK_SAMPLES,
            r@ == playback_of(packet.audio@),
    {
        let mut up = resample(&packet.audio, 1, RADIO_RATE, 1, PLATFORM_RATE);
        if up.len() > PLAYBACK_SAMPLES {
            up.truncate(PLAYBACK_SAMPLES);
        }
        while up.len() < PLAYBACK_SAMPLES
            invariant
                up@.len() <= PLAYBACK_SAMPLES,
                up@.len() < PLAYBACK_SAMPLES ==> playback_source(packet.audio@).len()
                    <= up@.len(),
                up@ =~= fitted(playback_source(packet.audio@), up@.len() as int),
            decreases PLAYBACK_SAMPLES - up@.len(),
        {
            up.push(0);
        }
        proof {
            assert(up@ =~= playback_of(packet.audio@));
        }
        up
    }
}

/// The converted, unfitted playback signal of a packet's audio.
pub open spec fn playback_source(audio: Seq<i16>) -> Seq<i16> {
    resampled(audio, 1, RADIO_RATE as int, 1, PLATFORM_RATE as int)
}

} // verus!
