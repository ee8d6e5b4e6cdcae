//! Bridge logic between a voice-chat call and a land-mobile-radio network.
//!
//! The radio side speaks USRP: fixed 352-byte UDP datagrams carrying 20 ms of
//! 8 kHz mono PCM plus session metadata. The voice-platform side delivers and
//! accepts 48 kHz PCM. This crate holds the parts of the bridge that decide
//! and compute: the wire-packet codec, the sample-rate and channel converter,
//! the speaker mixer, the transmit framing state machine, the receive filter,
//! and the session binding. Socket, channel and thread plumbing lives with the
//! caller, which hands plain sample and byte vectors in and out.

use vstd::prelude::*;

pub mod mix;
pub mod packet;
pub mod receiver;
pub mod session;
pub mod resample;
pub mod transmitter;

verus! {

/// Sample rate of the radio side: 8 kHz mono PCM.
pub const RADIO_RATE: u32 = 8_000;

/// Sample rate of the voice platform: 48 kHz PCM.
pub const PLATFORM_RATE: u32 = 48_000;

/// Channel count of the voice platform's decoded speaker audio.
pub const PLATFORM_CHANNELS: u32 = 2;

/// How long the transmit path waits for new audio, in milliseconds, before
/// it treats the transmission as over and emits the terminating packet.
pub const SILENCE_TIMEOUT_MS: u64 = 200;

/// The role a packet plays within one radio transmission: the first packet of
/// a talk spurt, a packet carrying audio, or the terminating packet.
#[derive(PartialEq, Debug)]
pub enum USRPVoicePacketType {
    Start,
    Audio,
    End,
}

} // verus!
