//! The USRP wire-packet codec.
//!
//! A USRP datagram is exactly 352 bytes: a 4-byte magic tag, six 32-bit
//! header words in big-endian order, one 32-bit word (`packet_type`) in
//! little-endian order — an invariant of the wire format, not a mistake —
//! and 160 little-endian signed 16-bit audio samples (20 ms of 8 kHz mono).

use vstd::prelude::*;

verus! {

/// Total size of a USRP datagram in bytes.
pub const PACKET_BYTES: usize = 352;

/// Number of 16-bit audio samples in one USRP packet.
pub const AUDIO_SAMPLES: usize = 160;

/// The kind of payload a USRP packet carries.
#[derive(Copy, Clone, Debug, PartialEq, Eq, Structural)]
pub enum PacketType {
    Voice,
    DualToneMultiFrequency,
    Text,
    Unknown,
}

impl PacketType {
    /// The numeric code this packet type takes in the wire header.
    pub open spec fn code(self) -> u32 {
        match self {
            PacketType::Voice => 0u32,
            PacketType::DualToneMultiFrequency => 1u32,
            PacketType::Text => 2u32,
            PacketType::Unknown => 0xFFFF_FFFFu32,
        }
    }

    /// The packet type a wire code denotes; every unassigned code is `Unknown`.
    pub open spec fn spec_from_code(value: u32) -> PacketType {
        if value == 0 {
            PacketType::Voice
        } else if value == 1 {
            PacketType::DualToneMultiFrequency
        } else if value == 2 {
            PacketType::Text
        } else {
            PacketType::Unknown
        }
    }

    /// Classifies a wire code.
    pub fn from_code(value: u32) -> (r: PacketType)
        ensures
            r == PacketType::spec_from_code(value),
    {
        if value == 0 {
            PacketType::Voice
        } else if value == 1 {
            PacketType::DualToneMultiFrequency
        } else if value == 2 {
            PacketType::Text
        } else {
            PacketType::Unknown
        }
    }

    /// The wire code of this packet type.
    pub fn to_code(self) -> (r: u32)
        ensures
            r == self.code(),
    {
        match self {
            PacketType::Voice => 0,
            PacketType::DualToneMultiFrequency => 1,
            PacketType::Text => 2,
            PacketType::Unknown => 0xFFFF_FFFF,
        }
    }

    /// Classifying a type's own wire code gives that type back.
    pub proof fn lemma_code_round_trip(self)
        ensures
            PacketType::spec_from_code(self.code()) == self,
    {
    }
}

/// The value of four bytes read as a big-endian 32-bit word.
pub open spec fn u32_from_be_bytes(b0: u8, b1: u8, b2: u8, b3: u8) -> u32 {
    (b0 * 0x100_0000 + b1 * 0x1_0000 + b2 * 0x100 + b3) as u32
}

/// The value of four bytes read as a little-endian 32-bit word.
pub open spec fn u32_from_le_bytes(b0: u8, b1: u8, b2: u8, b3: u8) -> u32 {
    u32_from_be_bytes(b3, b2, b1, b0)
}

/// The most significant byte of a 32-bit word.
pub open spec fn be_byte0(v: u32) -> u8 {
    (v / 0x100_0000) as u8
}

/// The second byte of a 32-bit word in big-endian order.
pub open spec fn be_byte1(v: u32) -> u8 {
    ((v / 0x1_0000) % 0x100) as u8
}

/// The third byte of a 32-bit word in big-endian order.
pub open spec fn be_byte2(v: u32) -> u8 {
    ((v / 0x100) % 0x100) as u8
}

/// The least significant byte of a 32-bit word.
pub open spec fn be_byte3(v: u32) -> u8 {
    (v % 0x100) as u8
}

/// Splitting a word into its four bytes and reading them back is the identity.
pub proof fn lemma_u32_byte_recompose(v: u32)
    by (bit_vector)
    ensures
        u32_from_be_bytes(be_byte0(v), be_byte1(v), be_byte2(v), be_byte3(v)) == v,
{
}

/// The two's-complement 16-bit image of a signed sample.
pub open spec fn i16_to_u16(v: i16) -> u16 {
    if v >= 0 {
        v as u16
    } else {
        (v + 0x1_0000) as u16
    }
}

/// The signed sample whose two's-complement 16-bit image is `u`.
pub open spec fn u16_to_i16(u: u16) -> i16 {
    if u < 0x8000 {
        u as i16
    } else {
        (u - 0x1_0000) as i16
    }
}

/// The signed sample two bytes denote in little-endian order.
pub open spec fn i16_from_le_bytes(lo: u8, hi: u8) -> i16 {
    u16_to_i16((hi * 0x100 + lo) as u16)
}

/// The low byte of a sample's two's-complement image.
pub open spec fn i16_le_lo(v: i16) -> u8 {
    (i16_to_u16(v) % 0x100) as u8
}

/// The high byte of a sample's two's-complement image.
pub open spec fn i16_le_hi(v: i16) -> u8 {
    (i16_to_u16(v) / 0x100) as u8
}

/// Splitting a sample into its two bytes and reading them back is the identity.
pub proof fn lemma_i16_byte_recompose(v: i16)
    ensures
        i16_from_le_bytes(i16_le_lo(v), i16_le_hi(v)) == v,
{
    let u = i16_to_u16(v);
    vstd::arithmetic::div_mod::lemma_fundamental_div_mod(u as int, 0x100);
}

/// Reads the big-endian 32-bit word at `offset`.
fn read_u32_be(buffer: &Vec<u8>, offset: usize) -> (r: u32)
    requires
        offset + 4 <= buffer.len(),
    ensures
        r == u32_from_be_bytes(
            buffer@[offset as int],
            buffer@[offset as int + 1],
            buffer@[offset as int + 2],
            buffer@[offset as int + 3],
        ),
{
    let b0 = buffer[offset] as u32;
    let b1 = buffer[offset + 1] as u32;
    let b2 = buffer[offset + 2] as u32;
    let b3 = buffer[offset + 3] as u32;
    b0 * 0x100_0000 + b1 * 0x1_0000 + b2 * 0x100 + b3
}

/// Reads the little-endian 32-bit word at `offset`.
fn read_u32_le(buffer: &Vec<u8>, offset: usize) -> (r: u32)
    requires
        offset + 4 <= buffer.len(),
    ensures
        r == u32_from_le_bytes(
            buffer@[offset as int],
            buffer@[offset as int + 1],
            buffer@[offset as int + 2],
            buffer@[offset as int + 3],
        ),
{
    let b0 = buffer[offset] as u32;
    let b1 = buffer[offset + 1] as u32;
    let b2 = buffer[offset + 2] as u32;
    let b3 = buffer[offset + 3] as u32;
    b3 * 0x100_0000 + b2 * 0x1_0000 + b1 * 0x100 + b0
}

/// Reads the little-endian signed 16-bit sample at `offset`.
fn read_i16_le(buffer: &Vec<u8>, offset: usize) -> (r: i16)
    requires
        offset + 2 <= buffer.len(),
    ensures
        r == i16_from_le_bytes(buffer@[offset as int], buffer@[offset as int + 1]),
{
    let lo = buffer[offset] as u16;
    let hi = buffer[offset + 1] as u16;
    let u: u16 = hi * 0x100 + lo;
    if u < 0x8000 {
        u as i16
    } else {
        ((u as i32) - 0x1_0000) as i16
    }
}

/// Writes `v` at `offset` as a big-endian 32-bit word.
fn write_u32_be(buffer: &mut Vec<u8>, offset: usize, v: u32)
    requires
        offset + 4 <= old(buffer).len(),
    ensures
        final(buffer)@.len() == old(buffer)@.len(),
        final(buffer)@[offset as int] == be_byte0(v),
        final(buffer)@[offset as int + 1] == be_byte1(v),
        final(buffer)@[offset as int + 2] == be_byte2(v),
        final(buffer)@[offset as int + 3] == be_byte3(v),
        u32_from_be_bytes(
            final(buffer)@[offset as int],
            final(buffer)@[offset as int + 1],
            final(buffer)@[offset as int + 2],
            final(buffer)@[offset as int + 3],
        ) == v,
        forall|i: int|
            0 <= i < old(buffer)@.len() && !(offset <= i < offset + 4)
                ==> final(buffer)@[i] == old(buffer)@[i],
{
    buffer[offset] = (v / 0x100_0000) as u8;
    buffer[offset + 1] = ((v / 0x1_0000) % 0x100) as u8;
    buffer[offset + 2] = ((v / 0x100) % 0x100) as u8;
    buffer[offset + 3] = (v % 0x100) as u8;
    proof {
        lemma_u32_byte_recompose(v);
    }
}

/// Writes `v` at `offset` as a little-endian 32-bit word.
fn write_u32_le(buffer: &mut Vec<u8>, offset: usize, v: u32)
    requires
        offset + 4 <= old(buffer).len(),
    ensures
        final(buffer)@.len() == old(buffer)@.len(),
        u32_from_le_bytes(
            final(buffer)@[offset as int],
            final(buffer)@[offset as int + 1],
            final(buffer)@[offset as int + 2],
            final(buffer)@[offset as int + 3],
        ) == v,
        forall|i: int|
            0 <= i < old(buffer)@.len() && !(offset <= i < offset + 4)
                ==> final(buffer)@[i] == old(buffer)@[i],
{
    buffer[offset] = (v % 0x100) as u8;
    buffer[offset + 1] = ((v / 0x100) % 0x100) as u8;
    buffer[offset + 2] = ((v / 0x1_0000) % 0x100) as u8;
    buffer[offset + 3] = (v / 0x100_0000) as u8;
    proof {
        lemma_u32_byte_recompose(v);
    }
}

/// Writes `v` at `offset` as a little-endian signed 16-bit sample.
fn write_i16_le(buffer: &mut Vec<u8>, offset: usize, v: i16)
    requires
        offset + 2 <= old(buffer).len(),
    ensures
        final(buffer)@.len() == old(buffer)@.len(),
        i16_from_le_bytes(final(buffer)@[offset as int], final(buffer)@[offset as int + 1]) == v,
        forall|i: int|
            0 <= i < old(buffer)@.len() && !(offset <= i < offset + 2)
                ==> final(buffer)@[i] == old(buffer)@[i],
{
    let u: u16 = if v >= 0 {
        v as u16
    } else {
        ((v as i32) + 0x1_0000) as u16
    };
    assert(u == i16_to_u16(v));
    buffer[offset] = (u % 0x100) as u8;
    buffer[offset + 1] = (u / 0x100) as u8;
    proof {
        lemma_i16_byte_recompose(v);
    }
}

/// Whether a buffer starts with the ASCII magic tag "USRP".
pub open spec fn has_magic(b: Seq<u8>) -> bool {
    &&& b.len() >= 4
    &&& b[0] == 0x55u8
    &&& b[1] == 0x53u8
    &&& b[2] == 0x52u8
    &&& b[3] == 0x50u8
}

/// One decoded USRP packet.
pub struct USRP {
    pub sequence_counter: u32,
    pub stream_id: u32,
    pub push_to_talk: bool,
    pub talk_group: u32,
    pub packet_type: PacketType,
    pub multiplex_id: u32,
    pub reserved: u32,
    pub audio: Vec<i16>,
}

/// Whether the fields of `p` are exactly what decoding the 352-byte buffer
/// `b` yields: big-endian header words, a little-endian `packet_type` word,
/// and 160 little-endian samples.
pub open spec fn packet_matches_buffer(p: USRP, b: Seq<u8>) -> bool {
    &&& p.sequence_counter == u32_from_be_bytes(b[4], b[5], b[6], b[7])
    &&& p.stream_id == u32_from_be_bytes(b[8], b[9], b[10], b[11])
    &&& p.push_to_talk == (u32_from_be_bytes(b[12], b[13], b[14], b[15]) != 0)
    &&& p.talk_group == u32_from_be_bytes(b[16], b[17], b[18], b[19])
    &&& p.packet_type == PacketType::spec_from_code(
        u32_from_le_bytes(b[20], b[21], b[22], b[23]),
    )
    &&& p.multiplex_id == u32_from_be_bytes(b[24], b[25], b[26], b[27])
    &&& p.reserved == u32_from_be_bytes(b[28], b[29], b[30], b[31])
    &&& p.audio@.len() == AUDIO_SAMPLES
    &&& forall|i: int|
        0 <= i < AUDIO_SAMPLES ==> p.audio@[i] == i16_from_le_bytes(b[32 + 2 * i], b[33 + 2 * i])
}

impl USRP {
    /// A packet is well formed when it carries exactly one radio frame.
    pub open spec fn wf(self) -> bool {
        self.audio@.len() == AUDIO_SAMPLES
    }

    /// Whether two packets agree on every field.
    pub open spec fn equiv(self, other: USRP) -> bool {
        &&& self.sequence_counter == other.sequence_counter
        &&& self.stream_id == other.stream_id
        &&& self.push_to_talk == other.push_to_talk
        &&& self.talk_group == other.talk_group
        &&& self.packet_type == other.packet_type
        &&& self.multiplex_id == other.multiplex_id
        &&& self.reserved == other.reserved
        &&& self.audio@ == other.audio@
    }

    /// Whether every non-audio field holds its default value: the fields a
    /// terminating packet carries, next to its assigned sequence number.
    pub open spec fn is_default_but_sequence(self) -> bool {
        &&& self.stream_id == 0
        &&& !self.push_to_talk
        &&& self.talk_group == 0
        &&& self.packet_type == PacketType::Voice
        &&& self.multiplex_id == 0
        &&& self.reserved == 0
        &&& self.audio@ == Seq::new(AUDIO_SAMPLES as nat, |i: int| 0i16)
    }

    /// Decodes a 352-byte datagram. Returns `None` exactly when the buffer
    /// does not start with the magic tag; decoding never fails otherwise.
    pub fn from_buffer(buffer: &Vec<u8>) -> (r: Option<USRP>)
        requires
            buffer.len() == PACKET_BYTES,
        ensures
            r is Some <==> has_magic(buffer@),
            r is Some ==> r->Some_0.wf() && packet_matches_buffer(r->Some_0, buffer@),
    {
        if !(buffer[0] == 0x55 && buffer[1] == 0x53 && buffer[2] == 0x52 && buffer[3] == 0x50) {
            return None;
        }
        let mut audio: Vec<i16> = Vec::new();
        let mut k: usize = 0;
        while k < AUDIO_SAMPLES
            invariant
                buffer.len() == PACKET_BYTES,
                k <= AUDIO_SAMPLES,
                audio@.len() == k,
                forall|i: int|
                    0 <= i < k ==> audio@[i] == i16_from_le_bytes(
                        buffer@[32 + 2 * i],
                        buffer@[33 + 2 * i],
                    ),
            decreases AUDIO_SAMPLES - k,
        {
            let s = read_i16_le(buffer, 32 + 2 * k);
            audio.push(s);
            k += 1;
        }
        Some(
            USRP {
                sequence_counter: read_u32_be(buffer, 4),
                stream_id: read_u32_be(buffer, 8),
                push_to_talk: read_u32_be(buffer, 12) != 0,
                talk_group: read_u32_be(buffer, 16),
                packet_type: PacketType::from_code(read_u32_le(buffer, 20)),
                multiplex_id: read_u32_be(buffer, 24),
                reserved: read_u32_be(buffer, 28),
                audio,
            },
        )
    }

    /// Encodes this packet as a 352-byte datagram. The result always carries
    /// the magic tag and decodes back to the same field values.
    pub fn to_buffer(&self) -> (r: Vec<u8>)
        requires
            self.wf(),
        ensures
            r.len() == PACKET_BYTES,
            has_magic(r@),
            packet_matches_buffer(*self, r@),
    {
        let mut buffer: Vec<u8> = vec![0u8; PACKET_BYTES];
        buffer[0] = 0x55;
        buffer[1] = 0x53;
        buffer[2] = 0x52;
        buffer[3] = 0x50;
        write_u32_be(&mut buffer, 4, self.sequence_counter);
        write_u32_be(&mut buffer, 8, self.stream_id);
        write_u32_be(&mut buffer, 12, if self.push_to_talk { 1 } else { 0 });
        write_u32_be(&mut buffer, 16, self.talk_group);
        write_u32_le(&mut buffer, 20, self.packet_type.to_code());
        write_u32_be(&mut buffer, 24, self.multiplex_id);
        write_u32_be(&mut buffer, 28, self.reserved);
        proof {
            self.packet_type.lemma_code_round_trip();
        }
        let mut k: usize = 0;
        while k < AUDIO_SAMPLES
            invariant
                self.wf(),
                buffer.len() == PACKET_BYTES,
                k <= AUDIO_SAMPLES,
                has_magic(buffer@),
                self.sequence_counter == u32_from_be_bytes(
                    buffer@[4],
                    buffer@[5],
                    buffer@[6],
                    buffer@[7],
                ),
                self.stream_id == u32_from_be_bytes(
                    buffer@[8],
                    buffer@[9],
                    buffer@[10],
                    buffer@[11],
                ),
                self.push_to_talk == (u32_from_be_bytes(
                    buffer@[12],
                    buffer@[13],
                    buffer@[14],
                    buffer@[15],
                ) != 0),
                self.talk_group == u32_from_be_bytes(
                    buffer@[16],
                    buffer@[17],
                    buffer@[18],
                    buffer@[19],
                ),
                self.packet_type == PacketType::spec_from_code(
                    u32_from_le_bytes(buffer@[20], buffer@[21], buffer@[22], buffer@[23]),
                ),
                self.multiplex_id == u32_from_be_bytes(
                    buffer@[24],
                    buffer@[25],
                    buffer@[26],
                    buffer@[27],
                ),
                self.reserved == u32_from_be_bytes(
                    buffer@[28],
                    buffer@[29],
                    buffer@[30],
                    buffer@[31],
                ),
                forall|i: int|
                    0 <= i < k ==> self.audio@[i] == i16_from_le_bytes(
                        buffer@[32 + 2 * i],
                        buffer@[33 + 2 * i],
                    ),
            decreases AUDIO_SAMPLES - k,
        {
            write_i16_le(&mut buffer, 32 + 2 * k, self.audio[k]);
            k += 1;
        }
        buffer
    }
}

impl Default for USRP {
    /// The all-zero packet: counter 0, no push-to-talk, type `Voice`, and a
    /// silent audio frame.
    fn default() -> (r: Self)
        ensures
            r.wf(),
            r.sequence_counter == 0,
            r.is_default_but_sequence(),
    {
        let audio: Vec<i16> = vec![0i16; AUDIO_SAMPLES];
        proof {
            assert(audio@ =~= Seq::new(AUDIO_SAMPLES as nat, |i: int| 0i16));
        }
        USRP {
            sequence_counter: 0,
            stream_id: 0,
            push_to_talk: false,
            talk_group: 0,
            packet_type: PacketType::Voice,
            multiplex_id: 0,
            reserved: 0,
            audio,
        }
    }
}

/// Round-trip law of the codec: a buffer encoded from a well-formed packet
/// decodes, and any packet it decodes to agrees with the encoded packet on
/// every field. Together with the contracts of `to_buffer` and `from_buffer` this
/// says `from_buffer(p.to_buffer()) == Some(p)` for every representable `p`.
pub proof fn lemma_codec_round_trip(p: USRP, q: USRP, b: Seq<u8>)
    requires
        p.wf(),
        packet_matches_buffer(p, b),
        packet_matches_buffer(q, b),
    ensures
        q.equiv(p),
{
    assert(q.audio@ =~= p.audio@);
}

} // verus!
