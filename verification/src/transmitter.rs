//! The voice-capture sink and the radio transmit path.
//!
//! `capture_tick` turns one platform tick — every speaker's latest stereo
//! platform-rate chunk — into a single mono radio-rate stream by per-speaker
//! resampling and additive mixing. The `Transmitter` keeps the transmit
//! path's state: the rolling sample buffer the accumulator fills, the
//! wrapping sequence counter, and whether a transmission is in progress.
//! The caller runs the two loops around it — pulling mixed audio from a
//! channel into `accept_audio`, draining frames with `emit_voice_frame`,
//! and reporting a lapsed silence timeout with `on_silence` — and sends the
//! returned packets over its socket.

use vstd::prelude::*;
use vstd::arithmetic::div_mod::lemma_add_mod_noop;
use vstd::arithmetic::div_mod::lemma_mod_self_0;
use vstd::arithmetic::div_mod::lemma_small_mod;
use crate::mix::mix;
use crate::mix::mixed;
use crate::mix::stream_views;
use crate::packet::AUDIO_SAMPLES;
use crate::packet::PacketType;
use crate::packet::USRP;
use crate::resample::resample;
use crate::resample::resampled;
use crate::PLATFORM_CHANNELS;
use crate::PLATFORM_RATE;
use crate::RADIO_RATE;

verus! {

/// The mixed mono radio-rate stream one platform tick yields: each
/// speaker's chunk converted from stereo platform rate to mono radio rate,
/// all speakers summed with clamping.
pub open spec fn capture_mixdown(speakers: Seq<Seq<i16>>) -> Seq<i16> {
    mixed(
        speakers.map_values(
            |s: Seq<i16>|
                resampled(s, PLATFORM_CHANNELS as int, PLATFORM_RATE as int, 1, RADIO_RATE as int),
        ),
    )
}

/// Converts every speaker's stereo platform-rate chunk to mono radio rate
/// and mixes the speakers additively into one stream.
pub fn capture_tick(speakers: &Vec<Vec<i16>>) -> (r: Vec<i16>)
    requires
        speakers@.len() <= 0x8000,
        forall|t: int|
            0 <= t < speakers@.len() ==> (#[trigger] speakers@[t])@.len() % 2 == 0
                && speakers@[t]@.len() <= 0x4000_0000,
    ensures
        r@ == capture_mixdown(stream_views(speakers@)),
{
    let mut converted: Vec<Vec<i16>> = Vec::new();
    let mut t: usize = 0;
    while t < speakers.len()
        invariant
            t <= speakers@.len(),
            speakers@.len() <= 0x8000,
            forall|q: int|
                0 <= q < speakers@.len() ==> (#[trigger] speakers@[q])@.len() % 2 == 0
                    && speakers@[q]@.len() <= 0x4000_0000,
            converted@.len() == t,
            forall|q: int|
                0 <= q < t ==> (#[trigger] converted@[q])@ == resampled(
                    speakers@[q]@,
                    PLATFORM_CHANNELS as int,
                    PLATFORM_RATE as int,
                    1,
                    RADIO_RATE as int,
                ),
        decreases speakers@.len() - t,
    {
        let chunk = &speakers[t];
        let c = resample(chunk, PLATFORM_CHANNELS, PLATFORM_RATE, 1, RADIO_RATE);
        converted.push(c);
        t += 1;
    }
    let r = mix(&converted);
    proof {
        assert(stream_views(converted@) =~= stream_views(speakers@).map_values(
            |s: Seq<i16>|
                resampled(s, PLATFORM_CHANNELS as int, PLATFORM_RATE as int, 1, RADIO_RATE as int),
        ));
    }
    r
}

/// The observable state of the transmit path.
pub struct TxState {
    /// Counter the next emitted packet will carry.
    pub sequence_counter: u32,
    /// Whether a transmission is in progress: set when a voice frame goes
    /// out, cleared when the terminator goes out.
    pub active: bool,
    /// Mixed samples accumulated and not yet framed.
    pub buffer: Seq<i16>,
}

/// The wrapping successor of a sequence counter.
pub open spec fn next_counter(c: u32) -> u32 {
    if c == 0xFFFF_FFFFu32 {
        0u32
    } else {
        (c + 1) as u32
    }
}

/// The counter reached from `c` after `n` packets, wrapping at the wire
/// format's 32-bit width.
pub open spec fn counter_plus(c: u32, n: nat) -> u32 {
    ((c + n) % 0x1_0000_0000) as u32
}

/// The 160 samples the next voice packet carries: the buffer's first frame,
/// zero-padded when fewer samples are buffered.
pub open spec fn frame_taken(buffer: Seq<i16>) -> Seq<i16> {
    Seq::new(AUDIO_SAMPLES as nat, |i: int| if i < buffer.len() {
        buffer[i]
    } else {
        0i16
    })
}

/// What remains buffered after one frame is drained.
pub open spec fn buffer_rest(buffer: Seq<i16>) -> Seq<i16> {
    if buffer.len() >= AUDIO_SAMPLES as int {
        buffer.skip(AUDIO_SAMPLES as int)
    } else {
        Seq::empty()
    }
}

/// The transmit state after one voice frame goes out.
pub open spec fn after_voice(s: TxState) -> TxState {
    TxState {
        sequence_counter: next_counter(s.sequence_counter),
        active: true,
        buffer: buffer_rest(s.buffer),
    }
}

/// Whether a lapsed silence timeout emits a terminating packet.
pub open spec fn silence_emits(s: TxState) -> bool {
    s.active
}

/// The transmit state after a lapsed silence timeout.
pub open spec fn after_silence(s: TxState) -> TxState {
    if s.active {
        TxState { sequence_counter: next_counter(s.sequence_counter), active: false, ..s }
    } else {
        s
    }
}

/// The transmit state after `n` voice frames go out.
pub open spec fn after_voice_n(s: TxState, n: nat) -> TxState
    decreases n,
{
    if n == 0 {
        s
    } else {
        after_voice(after_voice_n(s, (n - 1) as nat))
    }
}

/// The state machine of the radio transmit path.
pub struct Transmitter {
    pub sequence_counter: u32,
    pub active: bool,
    pub buffer: Vec<i16>,
}

impl View for Transmitter {
    type V = TxState;

    open spec fn view(&self) -> TxState {
        TxState {
            sequence_counter: self.sequence_counter,
            active: self.active,
            buffer: self.buffer@,
        }
    }
}

impl Transmitter {
    /// A fresh transmit path: counter at zero, idle, nothing buffered.
    pub fn new() -> (r: Transmitter)
        ensures
            r@.sequence_counter == 0,
            !r@.active,
            r@.buffer.len() == 0,
    {
        Transmitter { sequence_counter: 0, active: false, buffer: Vec::new() }
    }

    /// Accumulator step: appends newly mixed samples to the rolling buffer.
    pub fn accept_audio(&mut self, samples: &Vec<i16>)
        requires
            old(self)@.buffer.len() + samples@.len() <= usize::MAX,
        ensures
            final(self)@ == (TxState { buffer: old(self)@.buffer + samples@, ..old(self)@ }),
    {
        self.buffer.extend_from_slice(samples.as_slice());
        proof {
            assert(self@.buffer =~= old(self)@.buffer + samples@);
        }
    }

    /// Whether a full 20 ms radio frame is buffered.
    pub fn has_full_frame(&self) -> (r: bool)
        ensures
            r == (self@.buffer.len() >= AUDIO_SAMPLES as int),
    {
        self.buffer.len() >= AUDIO_SAMPLES
    }

    /// Whether any samples wait in the buffer.
    pub fn has_pending(&self) -> (r: bool)
        ensures
            r == (self@.buffer.len() > 0),
    {
        self.buffer.len() > 0
    }

    /// Whether a transmission is in progress.
    pub fn is_active(&self) -> (r: bool)
        ensures
            r == self@.active,
    {
        self.active
    }

    /// Framer step: drains up to one frame from the buffer, zero-padding a
    /// short final frame, and returns the voice packet carrying it: the
    /// current counter, push-to-talk set, type `Voice`, all other header
    /// words zero. The counter advances by exactly one, wrapping at the
    /// wire width, and the path is marked active.
    pub fn emit_voice_frame(&mut self) -> (p: USRP)
        requires
            old(self)@.buffer.len() > 0,
        ensures
            p.wf(),
            p.sequence_counter == old(self)@.sequence_counter,
            p.push_to_talk,
            p.packet_type == PacketType::Voice,
            p.stream_id == 0,
            p.talk_group == 0,
            p.multiplex_id == 0,
            p.reserved == 0,
            p.audio@ == frame_taken(old(self)@.buffer),
            final(self)@ == after_voice(old(self)@),
    {
        let mut audio: Vec<i16> = Vec::new();
        let mut k: usize = 0;
        while k < AUDIO_SAMPLES
            invariant
                self@ == old(self)@,
                k <= AUDIO_SAMPLES,
                audio@.len() == k,
                forall|i: int|
                    0 <= i < k ==> audio@[i] == (if i < self@.buffer.len() {
                        self@.buffer[i]
                    } else {
                        0i16
                    }),
            decreases AUDIO_SAMPLES - k,
        {
            if k < self.buffer.len() {
                audio.push(self.buffer[k]);
            } else {
                audio.push(0);
            }
            k += 1;
        }
        proof {
            assert(audio@ =~= frame_taken(old(self)@.buffer));
        }
        let mut rest: Vec<i16> = Vec::new();
        if self.buffer.len() > AUDIO_SAMPLES {
            let mut k: usize = AUDIO_SAMPLES;
            while k < self.buffer.len()
                invariant
                    self@ == old(self)@,
                    self@.buffer.len() > AUDIO_SAMPLES as int,
                    AUDIO_SAMPLES <= k <= self@.buffer.len(),
                    rest@.len() == k - AUDIO_SAMPLES as int,
                    forall|i: int|
                        0 <= i < rest@.len() ==> rest@[i] == self@.buffer[i + AUDIO_SAMPLES as int],
                decreases self@.buffer.len() - k,
            {
                rest.push(self.buffer[k]);
                k += 1;
            }
        }
        proof {
            assert(rest@ =~= buffer_rest(old(self)@.buffer));
        }
        let p = USRP {
            sequence_counter: self.sequence_counter,
            stream_id: 0,
            push_to_talk: true,
            talk_group: 0,
            packet_type: PacketType::Voice,
            multiplex_id: 0,
            reserved: 0,
            audio,
        };
        self.sequence_counter = if self.sequence_counter == 0xFFFF_FFFF {
            0
        } else {
            self.sequence_counter + 1
        };
        self.active = true;
        self.buffer = rest;
        p
    }

    /// Silence-timeout step: if a transmission is in progress, returns the
    /// terminating packet — default fields, push-to-talk cleared, the
    /// current counter — advances the counter, and marks the path idle.
    /// When the path is already idle nothing is emitted and nothing
    /// changes.
    pub fn on_silence(&mut self) -> (p: Option<USRP>)
        ensures
            p is Some <==> silence_emits(old(self)@),
            final(self)@ == after_silence(old(self)@),
            p is Some ==> {
                let q = p->Some_0;
                &&& q.wf()
                &&& q.sequence_counter == old(self)@.sequence_counter
                &&& q.is_default_but_sequence()
            },
    {
        if !self.active {
            return None;
        }
        let mut q = USRP::default();
        q.sequence_counter = self.sequence_counter;
        self.sequence_counter = if self.sequence_counter == 0xFFFF_FFFF {
            0
        } else {
            self.sequence_counter + 1
        };
        self.active = false;
        Some(q)
    }
}

/// A wrapper handed to the voice platform as its tick handler; it forwards
/// each tick's speaker audio to the transmitter it wraps.
pub struct TransmitterWrapper {
    pub transmitter: Transmitter,
}

impl TransmitterWrapper {
    /// Wraps a transmitter without touching its state.
    pub fn new(transmitter: Transmitter) -> (r: TransmitterWrapper)
        ensures
            r.transmitter@ == transmitter@,
    {
        TransmitterWrapper { transmitter }
    }

    /// One voice tick: mixes the speakers down to the radio format and
    /// appends the result to the wrapped transmitter's buffer. When the
    /// buffer cannot take the tick's samples the tick is dropped whole —
    /// the handoff is best-effort and never fails the caller.
    pub fn act(&mut self, speakers: &Vec<Vec<i16>>) -> (accepted: bool)
        requires
            speakers@.len() <= 0x8000,
            forall|t: int|
                0 <= t < speakers@.len() ==> (#[trigger] speakers@[t])@.len() % 2 == 0
                    && speakers@[t]@.len() <= 0x4000_0000,
        ensures
            accepted <==> old(self).transmitter@.buffer.len() + capture_mixdown(
                stream_views(speakers@),
            ).len() <= usize::MAX,
            accepted ==> final(self).transmitter@ == (TxState {
                buffer: old(self).transmitter@.buffer + capture_mixdown(stream_views(speakers@)),
                ..old(self).transmitter@
            }),
            !accepted ==> final(self).transmitter@ == old(self).transmitter@,
    {
        let samples = capture_tick(speakers);
        if self.transmitter.buffer.len() <= usize::MAX - samples.len() {
            self.transmitter.accept_audio(&samples);
            true
        } else {
            false
        }
    }
}

/// During one continuous transmission the emitted voice packets carry
/// strictly increasing sequence counters with no gaps: the `n`-th frame
/// emitted from state `s` carries counter `s.sequence_counter + n`, wrapped
/// at the wire format's 32-bit width, and each emission advances the
/// counter by exactly one.
pub proof fn lemma_voice_counters_no_gaps(s: TxState, n: nat)
    ensures
        after_voice_n(s, n).sequence_counter == counter_plus(s.sequence_counter, n),
        n > 0 ==> after_voice_n(s, n).active,
    decreases n,
{
    if n == 0 {
        lemma_small_mod(s.sequence_counter as nat, 0x1_0000_0000);
    } else {
        lemma_voice_counters_no_gaps(s, (n - 1) as nat);
        lemma_next_counter_plus(s.sequence_counter, (n - 1) as nat);
    }
}

/// Advancing the counter once more is the same as wrapping one larger sum.
proof fn lemma_next_counter_plus(c: u32, n: nat)
    ensures
        next_counter(counter_plus(c, n)) == counter_plus(c, n + 1),
{
    let m = 0x1_0000_0000int;
    lemma_add_mod_noop(c + n, 1, m);
    lemma_small_mod(1nat, m as nat);
    let r = (c + n) % m;
    if r == m - 1 {
        lemma_mod_self_0(m);
    } else {
        lemma_small_mod((r + 1) as nat, m as nat);
    }
}

/// The silence timeout emits exactly one terminating packet per
/// transmission: it emits one exactly when a transmission is active, the
/// path is idle afterwards, and a second lapsed timeout emits nothing —
/// only a new voice frame makes the path active again.
pub proof fn lemma_single_terminator(s: TxState)
    ensures
        silence_emits(s) == s.active,
        !after_silence(s).active,
        !silence_emits(after_silence(s)),
        after_voice(after_silence(s)).active,
{
}

} // verus!
