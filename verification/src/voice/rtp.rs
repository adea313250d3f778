//! The headers of media packets.
use crate::voice::bytes::{
    be16, be16_bytes, be32, be32_bytes, push_be16, push_be32, push_bytes, read_be16, read_be32,
};
use vstd::prelude::*;

verus! {

pub const RTP_HEADER_MIN_LEN: usize = 12;

pub const RTP_VERSION: u8 = 2;

/// The payload type of voice.
pub const DISCORD_VOICE_PAYLOAD_TYPE: u8 = 0x78;

pub const RTP_HEADER_EXTENSION_BYTES: usize = 4;

pub const RTP_EXTENSION_WORD_BYTES: usize = 4;

pub const RTCP_MIN_PACKET_BYTES: usize = 4;

pub const RTCP_SENDER_SSRC_OFFSET: usize = 4;

pub const RTCP_SENDER_SSRC_BYTES: usize = 4;

/// The first and the last packet type of control packets that share a port with media.
pub const RTCP_FIRST_PACKET_TYPE: u8 = 192;

pub const RTCP_LAST_PACKET_TYPE: u8 = 223;

/// Bits of the first byte.
pub const RTP_PADDING_BIT: u8 = 0x20;

pub const RTP_EXTENSION_BIT: u8 = 0x10;

pub const RTP_CSRC_COUNT_MASK: u8 = 0x0f;

/// Bits of the second byte.
pub const RTP_MARKER_BIT: u8 = 0x80;

pub const RTP_PAYLOAD_TYPE_MASK: u8 = 0x7f;

/// Samples per channel in a frame of 20 milliseconds: what a frame adds to the media clock.
pub const DISCORD_OPUS_TIMESTAMP_INCREMENT: u32 = 960;

/// The frame that stands for silence.
pub const DISCORD_OPUS_SILENCE_FRAME: [u8; 3] = [0xf8, 0xff, 0xfe];

/// What the header of a media packet says. The header up to the body of its extension is
/// authenticated, and the body is encrypted together with the payload.
#[derive(Clone, Copy, Debug, PartialEq, Eq, Structural)]
pub struct RtpHeader {
    pub has_padding: bool,
    pub marker: bool,
    pub payload_type: u8,
    pub sequence: u16,
    pub timestamp: u32,
    pub ssrc: u32,
    pub authenticated_header_len: usize,
    pub encrypted_extension_body_len: usize,
    pub payload_offset: usize,
}

pub open spec fn spec_looks_like_rtcp(packet: Seq<u8>) -> bool {
    &&& packet.len() >= RTCP_MIN_PACKET_BYTES
    &&& packet[0] >> 6 == RTP_VERSION
    &&& RTCP_FIRST_PACKET_TYPE <= packet[1] <= RTCP_LAST_PACKET_TYPE
}

/// Whether a packet is a control packet, going by its type before the marker bit is masked out.
pub fn looks_like_rtcp_packet(packet: &[u8]) -> (control: bool)
    ensures
        control == spec_looks_like_rtcp(packet@),
{
    packet.len() >= RTCP_MIN_PACKET_BYTES && packet[0] >> 6 == RTP_VERSION && packet[1]
        >= RTCP_FIRST_PACKET_TYPE && packet[1] <= RTCP_LAST_PACKET_TYPE
}

/// The source that sent a control packet.
pub fn rtcp_sender_ssrc(packet: &[u8]) -> (ssrc: Option<u32>)
    ensures
        ssrc == if spec_looks_like_rtcp(packet@) && packet@.len() >= RTCP_SENDER_SSRC_OFFSET
            + RTCP_SENDER_SSRC_BYTES {
            Some(be32(packet@, RTCP_SENDER_SSRC_OFFSET as int))
        } else {
            None
        },
{
    if looks_like_rtcp_packet(packet) && packet.len() >= RTCP_SENDER_SSRC_OFFSET
        + RTCP_SENDER_SSRC_BYTES {
        Some(read_be32(packet, RTCP_SENDER_SSRC_OFFSET))
    } else {
        None
    }
}

/// The bytes of the fixed header and the contributing sources.
pub open spec fn rtp_base_len(packet: Seq<u8>) -> int {
    RTP_HEADER_MIN_LEN + 4 * (packet[0] & RTP_CSRC_COUNT_MASK)
}

pub open spec fn has_extension(packet: Seq<u8>) -> bool {
    packet[0] & RTP_EXTENSION_BIT != 0
}

/// The bytes up to the body of the extension.
pub open spec fn rtp_authenticated_len(packet: Seq<u8>) -> int {
    if has_extension(packet) {
        rtp_base_len(packet) + RTP_HEADER_EXTENSION_BYTES
    } else {
        rtp_base_len(packet)
    }
}

/// The bytes of the body of the extension, whose length is given in words.
pub open spec fn rtp_extension_len(packet: Seq<u8>) -> int {
    if has_extension(packet) {
        be16(packet, rtp_base_len(packet) + 2) * RTP_EXTENSION_WORD_BYTES
    } else {
        0
    }
}

/// What the header of a packet says, or why there is none.
pub open spec fn parsed_rtp_header(packet: Seq<u8>) -> Result<RtpHeader, Seq<char>> {
    if packet.len() < RTP_HEADER_MIN_LEN {
        Err("RTP packet is too short"@)
    } else if packet[0] >> 6 != RTP_VERSION {
        Err("RTP packet has unsupported version"@)
    } else if spec_looks_like_rtcp(packet) {
        Err("RTP parser received RTCP packet"@)
    } else if packet.len() < rtp_authenticated_len(packet) {
        Err("RTP packet is too short"@)
    } else if packet.len() < rtp_authenticated_len(packet) + rtp_extension_len(packet) {
        Err("RTP packet is too short"@)
    } else {
        Ok(
            RtpHeader {
                has_padding: packet[0] & RTP_PADDING_BIT != 0,
                marker: packet[1] & RTP_MARKER_BIT != 0,
                payload_type: packet[1] & RTP_PAYLOAD_TYPE_MASK,
                sequence: be16(packet, 2),
                timestamp: be32(packet, 4),
                ssrc: be32(packet, 8),
                authenticated_header_len: rtp_authenticated_len(packet) as usize,
                encrypted_extension_body_len: rtp_extension_len(packet) as usize,
                payload_offset: (rtp_authenticated_len(packet) + rtp_extension_len(
                    packet,
                )) as usize,
            },
        )
    }
}

/// The view of a result whose error is a text.
pub open spec fn result_view<T>(result: Result<T, String>) -> Result<T, Seq<char>> {
    match result {
        Ok(value) => Ok(value),
        Err(message) => Err(message@),
    }
}

/// Reads the header of a media packet.
pub fn parse_rtp_header(packet: &[u8]) -> (header: Result<RtpHeader, String>)
    ensures
        result_view(header) == parsed_rtp_header(packet@),
{
    if packet.len() < RTP_HEADER_MIN_LEN {
        return Err("RTP packet is too short".to_owned());
    }
    let first: u8 = packet[0];
    let second: u8 = packet[1];
    if first >> 6 != RTP_VERSION {
        return Err("RTP packet has unsupported version".to_owned());
    }
    if looks_like_rtcp_packet(packet) {
        return Err("RTP parser received RTCP packet".to_owned());
    }
    assert(first & 0x0f <= 15) by (bit_vector);
    let csrc_count: usize = (first & RTP_CSRC_COUNT_MASK) as usize;
    let base_len: usize = RTP_HEADER_MIN_LEN + 4 * csrc_count;
    let extended = first & RTP_EXTENSION_BIT != 0;
    let authenticated_header_len: usize = if extended {
        base_len + RTP_HEADER_EXTENSION_BYTES
    } else {
        base_len
    };
    if packet.len() < authenticated_header_len {
        return Err("RTP packet is too short".to_owned());
    }
    let encrypted_extension_body_len: usize = if extended {
        read_be16(packet, base_len + 2) as usize * RTP_EXTENSION_WORD_BYTES
    } else {
        0
    };
    let payload_offset: usize = authenticated_header_len + encrypted_extension_body_len;
    if packet.len() < payload_offset {
        return Err("RTP packet is too short".to_owned());
    }
    Ok(
        RtpHeader {
            has_padding: first & RTP_PADDING_BIT != 0,
            marker: second & RTP_MARKER_BIT != 0,
            payload_type: second & RTP_PAYLOAD_TYPE_MASK,
            sequence: read_be16(packet, 2),
            timestamp: read_be32(packet, 4),
            ssrc: read_be32(packet, 8),
            authenticated_header_len,
            encrypted_extension_body_len,
            payload_offset,
        },
    )
}

/// The second byte of a voice packet.
pub open spec fn voice_marker_byte(marker: bool) -> u8 {
    if marker {
        0xf8
    } else {
        DISCORD_VOICE_PAYLOAD_TYPE
    }
}

/// A voice packet: the fixed header, then the frame.
pub open spec fn voice_rtp_packet(
    sequence: u16,
    timestamp: u32,
    ssrc: u32,
    marker: bool,
    opus: Seq<u8>,
) -> Seq<u8> {
    seq![0x80u8, voice_marker_byte(marker)] + be16_bytes(sequence) + be32_bytes(timestamp)
        + be32_bytes(ssrc) + opus
}

/// The error for a frame without bytes.
pub open spec fn empty_opus_error() -> Seq<char> {
    "voice RTP packet requires a non-empty Opus payload"@
}

/// Builds a voice packet whose marker is not set.
pub fn build_voice_rtp_packet(sequence: u16, timestamp: u32, ssrc: u32, opus: &[u8]) -> (packet:
    Result<Vec<u8>, String>)
    ensures
        match packet {
            Ok(packet) => opus@.len() > 0 && packet@ == voice_rtp_packet(
                sequence,
                timestamp,
                ssrc,
                false,
                opus@,
            ),
            Err(message) => opus@.len() == 0 && message@ == empty_opus_error(),
        },
{
    build_marked_voice_rtp_packet(sequence, timestamp, ssrc, false, opus)
}

/// Builds a voice packet. The marker tells the first packet after a silence.
pub fn build_marked_voice_rtp_packet(
    sequence: u16,
    timestamp: u32,
    ssrc: u32,
    marker: bool,
    opus: &[u8],
) -> (packet: Result<Vec<u8>, String>)
    ensures
        match packet {
            Ok(packet) => opus@.len() > 0 && packet@ == voice_rtp_packet(
                sequence,
                timestamp,
                ssrc,
                marker,
                opus@,
            ),
            Err(message) => opus@.len() == 0 && message@ == empty_opus_error(),
        },
{
    if opus.len() == 0 {
        return Err("voice RTP packet requires a non-empty Opus payload".to_owned());
    }
    let mut packet: Vec<u8> = Vec::new();
    packet.push(0x80);
    packet.push(
        if marker {
            0xf8
        } else {
            DISCORD_VOICE_PAYLOAD_TYPE
        },
    );
    assert(packet@ =~= seq![0x80u8, voice_marker_byte(marker)]);
    push_be16(&mut packet, sequence);
    push_be32(&mut packet, timestamp);
    push_be32(&mut packet, ssrc);
    push_bytes(&mut packet, opus);
    Ok(packet)
}

/// Where the next voice packet stands in its stream.
#[derive(Clone, Copy, Debug, PartialEq, Eq, Structural)]
pub struct VoiceOutboundRtpState {
    pub sequence: u16,
    pub timestamp: u32,
    pub ssrc: u32,
}

/// The number after `sequence`, which wraps around.
pub open spec fn next_sequence(sequence: u16) -> u16 {
    if sequence == u16::MAX {
        0
    } else {
        (sequence + 1) as u16
    }
}

/// The media clock after a number of frames, which wraps around.
pub open spec fn clock_after(timestamp: u32, frames: int) -> u32 {
    ((timestamp + frames * DISCORD_OPUS_TIMESTAMP_INCREMENT) % 0x1_0000_0000) as u32
}

impl VoiceOutboundRtpState {
    /// Builds the next packet, and moves on by one packet and one frame. A frame without bytes
    /// is refused and changes nothing.
    pub fn packetize(&mut self, opus: &[u8]) -> (packet: Result<Vec<u8>, String>)
        ensures
            match packet {
                Ok(packet) => {
                    &&& opus@.len() > 0
                    &&& packet@ == voice_rtp_packet(
                        old(self).sequence,
                        old(self).timestamp,
                        old(self).ssrc,
                        false,
                        opus@,
                    )
                    &&& final(self).sequence == next_sequence(old(self).sequence)
                    &&& final(self).timestamp == clock_after(old(self).timestamp, 1)
                    &&& final(self).ssrc == old(self).ssrc
                },
                Err(message) => opus@.len() == 0 && message@ == empty_opus_error() && *final(self)
                    == *old(self),
            },
    {
        let packet = build_voice_rtp_packet(self.sequence, self.timestamp, self.ssrc, opus);
        if packet.is_ok() {
            self.sequence = self.sequence.wrapping_add(1);
            self.timestamp = self.timestamp.wrapping_add(DISCORD_OPUS_TIMESTAMP_INCREMENT);
        }
        packet
    }
}

/// A packet that was built is read back with the same numbers, and its payload is the frame.
pub proof fn law_built_packet_is_read_back(
    sequence: u16,
    timestamp: u32,
    ssrc: u32,
    marker: bool,
    opus: Seq<u8>,
)
    requires
        opus.len() > 0,
    ensures
        ({
            let packet = voice_rtp_packet(sequence, timestamp, ssrc, marker, opus);
            &&& parsed_rtp_header(packet) == Ok::<RtpHeader, Seq<char>>(
                RtpHeader {
                    has_padding: false,
                    marker,
                    payload_type: DISCORD_VOICE_PAYLOAD_TYPE,
                    sequence,
                    timestamp,
                    ssrc,
                    authenticated_header_len: RTP_HEADER_MIN_LEN,
                    encrypted_extension_body_len: 0,
                    payload_offset: RTP_HEADER_MIN_LEN,
                },
            )
            &&& packet.skip(RTP_HEADER_MIN_LEN as int) == opus
        }),
{
    let packet = voice_rtp_packet(sequence, timestamp, ssrc, marker, opus);
    assert(packet[0] == 0x80 && packet[1] == voice_marker_byte(marker));
    assert(0x80u8 >> 6 == 2) by (bit_vector);
    assert(0x80u8 & 0x0f == 0) by (bit_vector);
    assert(0x80u8 & 0x10 == 0) by (bit_vector);
    assert(0x80u8 & 0x20 == 0) by (bit_vector);
    assert(0xf8u8 & 0x80 != 0 && 0xf8u8 & 0x7f == 0x78) by (bit_vector);
    assert(0x78u8 & 0x80 == 0 && 0x78u8 & 0x7f == 0x78) by (bit_vector);
    assert(packet.skip(RTP_HEADER_MIN_LEN as int) =~= opus);
    assert(be16(packet, 2) == sequence);
    assert(be32(packet, 4) == timestamp);
    assert(be32(packet, 8) == ssrc);
}

/// A control packet is never read as a media packet.
pub proof fn law_control_packets_are_refused(packet: Seq<u8>)
    requires
        spec_looks_like_rtcp(packet),
    ensures
        parsed_rtp_header(packet) is Err,
{
}

/// A header that was read lies within its packet, and so does what it describes.
pub proof fn law_header_lies_in_packet(packet: Seq<u8>)
    ensures
        match parsed_rtp_header(packet) {
            Ok(header) => {
                &&& RTP_HEADER_MIN_LEN <= header.authenticated_header_len <= header.payload_offset
                    <= packet.len()
                &&& header.payload_offset == header.authenticated_header_len
                    + header.encrypted_extension_body_len
            },
            Err(_) => true,
        },
{
    let first = packet[0];
    assert(first & 0x0f <= 15) by (bit_vector);
}

} // verus!
