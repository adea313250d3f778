//! What packets hold, however they are made up.
use crate::voice::aead::{
    aes256_gcm_opened, aes256_gcm_sealed, padded_nonce, xchacha20_poly1305_opened,
    xchacha20_poly1305_sealed, VoiceAeadMode,
};
use crate::voice::bytes::{be16, be16_bytes, be32, be32_bytes};
use crate::voice::crypt::{
    extension_profile, packet_key_error, protected_packet, unpacked_payload, unprotected_payload,
    DecryptedView,
};
use crate::voice::rtp::{
    clock_after, next_sequence, parsed_rtp_header, spec_looks_like_rtcp, RtpHeader,
};
use vstd::prelude::*;

verus! {

/// The parts of a media packet.
pub struct PacketParts {
    pub padding: bool,
    pub marker: bool,
    pub payload_type: u8,
    pub sequence: u16,
    pub timestamp: u32,
    pub ssrc: u32,
    /// Four bytes for each contributing source.
    pub sources: Seq<u8>,
    /// The profile and the body of the extension.
    pub extension: Option<(u16, Seq<u8>)>,
    pub rest: Seq<u8>,
}

impl PacketParts {
    /// Up to fifteen sources; an extension of whole words; and a type that, with the marker, is
    /// not that of a control packet.
    pub open spec fn valid(self) -> bool {
        &&& self.sources.len() % 4 == 0
        &&& self.sources.len() <= 60
        &&& self.payload_type < 0x80
        &&& self.marker ==> !(64 <= self.payload_type < 96)
        &&& self.extension is Some ==> {
            &&& self.extension->Some_0.1.len() % 4 == 0
            &&& self.extension->Some_0.1.len() <= 4 * 0xffff
        }
    }

    pub open spec fn first_byte(self) -> u8 {
        (0x80 + (if self.padding {
            0x20
        } else {
            0int
        }) + (if self.extension is Some {
            0x10
        } else {
            0int
        }) + self.sources.len() / 4) as u8
    }

    pub open spec fn second_byte(self) -> u8 {
        (self.payload_type + if self.marker {
            0x80
        } else {
            0int
        }) as u8
    }

    /// The header of the extension, with the length of its body in words.
    pub open spec fn extension_header(self) -> Seq<u8> {
        match self.extension {
            Some((profile, body)) => be16_bytes(profile) + be16_bytes((body.len() / 4) as u16),
            None => Seq::empty(),
        }
    }

    pub open spec fn extension_body(self) -> Seq<u8> {
        match self.extension {
            Some((profile, body)) => body,
            None => Seq::empty(),
        }
    }

    /// The packet with these parts.
    pub open spec fn packet(self) -> Seq<u8> {
        seq![self.first_byte(), self.second_byte()] + be16_bytes(self.sequence) + be32_bytes(
            self.timestamp,
        ) + be32_bytes(self.ssrc) + self.sources + self.extension_header() + self.extension_body()
            + self.rest
    }
}

proof fn lemma_first_byte(parts: PacketParts)
    requires
        parts.valid(),
    ensures
        ({
            let first = parts.first_byte();
            &&& first >> 6 == 2
            &&& first & 0x20 != 0 <==> parts.padding
            &&& first & 0x10 != 0 <==> parts.extension is Some
            &&& first & 0x0f == parts.sources.len() / 4
        }),
{
    let first = parts.first_byte();
    let count = (parts.sources.len() / 4) as u8;
    let p: u8 = if parts.padding {
        0x20
    } else {
        0
    };
    let e: u8 = if parts.extension is Some {
        0x10
    } else {
        0
    };
    assert(count <= 15);
    assert(first == 0x80 + p + e + count);
    assert(first >> 6 == 2 && first & 0x20 == p && first & 0x10 == e && first & 0x0f == count)
        by (bit_vector)
        requires
            count <= 15,
            p == 0 || p == 0x20,
            e == 0 || e == 0x10,
            first == 0x80 + p + e + count,
    ;
}

proof fn lemma_second_byte(parts: PacketParts)
    requires
        parts.valid(),
    ensures
        ({
            let second = parts.second_byte();
            &&& second & 0x80 != 0 <==> parts.marker
            &&& second & 0x7f == parts.payload_type
            &&& !(192 <= second <= 223)
        }),
{
    let second = parts.second_byte();
    let m: u8 = if parts.marker {
        0x80
    } else {
        0
    };
    let t = parts.payload_type;
    assert(second == m + t);
    assert(second & 0x80 == m && second & 0x7f == t) by (bit_vector)
        requires
            t < 0x80,
            m == 0 || m == 0x80,
            second == m + t,
    ;
}

/// Whatever a media packet is made up of, its header is read back: the flags and numbers as they
/// are, and where the readable part and the payload begin and end.
pub proof fn law_headers_are_read_back(parts: PacketParts)
    requires
        parts.valid(),
    ensures
        parsed_rtp_header(parts.packet()) == Ok::<RtpHeader, Seq<char>>(
            RtpHeader {
                has_padding: parts.padding,
                marker: parts.marker,
                payload_type: parts.payload_type,
                sequence: parts.sequence,
                timestamp: parts.timestamp,
                ssrc: parts.ssrc,
                authenticated_header_len: (12 + parts.sources.len()
                    + parts.extension_header().len()) as usize,
                encrypted_extension_body_len: parts.extension_body().len() as usize,
                payload_offset: (12 + parts.sources.len() + parts.extension_header().len()
                    + parts.extension_body().len()) as usize,
            },
        ),
        parts.extension is Some ==> extension_profile(
            parts.packet(),
            parsed_rtp_header(parts.packet())->Ok_0,
        ) == Some(parts.extension->Some_0.0),
        parts.extension is None ==> extension_profile(
            parts.packet(),
            parsed_rtp_header(parts.packet())->Ok_0,
        ) is None,
{
    lemma_first_byte(parts);
    lemma_second_byte(parts);
    let packet = parts.packet();
    let n = 12 + parts.sources.len() as int;
    assert(packet[0] == parts.first_byte() && packet[1] == parts.second_byte());
    assert(be16(packet, 2) == parts.sequence);
    assert(be32(packet, 4) == parts.timestamp);
    assert(be32(packet, 8) == parts.ssrc);
    assert(4 * (packet[0] & 0x0f) == parts.sources.len());
    if let Some((profile, body)) = parts.extension {
        let words = (body.len() / 4) as u16;
        let head = parts.extension_header();
        assert(head.len() == 4);
        assert(packet[n] == head[0] && packet[n + 1] == head[1]);
        assert(packet[n + 2] == head[2] && packet[n + 3] == head[3]);
        assert(be16(packet, n) == profile);
        assert(be16(packet, n + 2) == words);
        assert(words * 4 == body.len());
    }
}

/// A packet that was cut off before its payload is refused.
pub proof fn law_cut_off_headers_are_refused(parts: PacketParts, k: int)
    requires
        parts.valid(),
        0 <= k < 12 + parts.sources.len() + parts.extension_header().len()
            + parts.extension_body().len(),
    ensures
        parsed_rtp_header(parts.packet().take(k)) is Err,
{
    law_headers_are_read_back(parts);
    lemma_first_byte(parts);
    let packet = parts.packet();
    let cut = packet.take(k);
    let n = 12 + parts.sources.len() as int;
    if k >= 12 {
        assert(cut[0] == packet[0] && cut[1] == packet[1]);
        assert(packet[0] == parts.first_byte());
        if k >= n + parts.extension_header().len() && parts.extension is Some {
            assert(parts.extension_header().len() == 4);
            assert(cut[n + 2] == packet[n + 2] && cut[n + 3] == packet[n + 3]);
        }
    }
}

/// Packets that are too short for a header, of another version, or of a control type are not
/// media packets.
pub proof fn law_other_packets_are_refused(packet: Seq<u8>)
    ensures
        packet.len() < 12 ==> parsed_rtp_header(packet) == Err::<RtpHeader, Seq<char>>(
            "RTP packet is too short"@,
        ),
        packet.len() >= 12 && packet[0] / 64 != 2 ==> parsed_rtp_header(packet) == Err::<
            RtpHeader,
            Seq<char>,
        >("RTP packet has unsupported version"@),
        packet.len() >= 12 && packet[0] / 64 == 2 && 192 <= packet[1] <= 223 ==> parsed_rtp_header(
            packet,
        ) == Err::<RtpHeader, Seq<char>>("RTP parser received RTCP packet"@),
        spec_looks_like_rtcp(packet) <==> packet.len() >= 4 && packet[0] / 64 == 2 && 192
            <= packet[1] <= 223,
{
    let first = packet[0];
    assert(first >> 6 == first / 64) by (bit_vector);
}

/// The number after a packet's is one more, and after the last one it is zero.
pub proof fn law_sequence_numbers(sequence: u16)
    ensures
        next_sequence(sequence) == (sequence + 1) % 0x1_0000,
{
}

/// Frames move the media clock on by 960 each, however they are grouped.
pub proof fn law_media_clock(timestamp: u32, a: int, b: int)
    requires
        0 <= a,
        0 <= b,
    ensures
        clock_after(timestamp, 0) == timestamp,
        clock_after(timestamp, 1) == (timestamp + 960) % 0x1_0000_0000,
        clock_after(clock_after(timestamp, a), b) == clock_after(timestamp, a + b),
{
    let once = timestamp + a * 960;
    vstd::arithmetic::div_mod::lemma_add_mod_noop(once, b * 960, 0x1_0000_0000);
    vstd::arithmetic::div_mod::lemma_add_mod_noop(
        once % 0x1_0000_0000,
        b * 960,
        0x1_0000_0000,
    );
    assert((a + b) * 960 == a * 960 + b * 960) by (nonlinear_arith);
    assert((once % 0x1_0000_0000) % 0x1_0000_0000 == once % 0x1_0000_0000);
}

/// An opened payload is the body of the extension, then the frame, then padding whose last byte
/// counts it: the frame comes out as it went in.
pub proof fn law_frames_are_taken_out(
    packet: Seq<u8>,
    header: RtpHeader,
    body: Seq<u8>,
    frame: Seq<u8>,
    padding: Seq<u8>,
)
    requires
        body.len() == header.encrypted_extension_body_len,
        header.has_padding ==> padding.len() > 0 && padding.last() == padding.len(),
        !header.has_padding ==> padding.len() == 0,
    ensures
        unpacked_payload(packet, header, body + frame + padding) == Ok::<DecryptedView, Seq<char>>(
            DecryptedView {
                encrypted_extension_body_len: header.encrypted_extension_body_len,
                extension_profile: extension_profile(packet, header),
                extension_body: body,
                media_payload: frame,
            },
        ),
{
    let opened = body + frame + padding;
    let n = body.len() as int;
    let rest = opened.skip(n);
    assert(opened.take(n) =~= body);
    assert(rest =~= frame + padding);
    if header.has_padding {
        assert(rest.last() == padding.last());
        assert(rest.take(rest.len() - rest.last()) =~= frame);
    } else {
        assert(rest =~= frame);
    }
}

/// A payload that is shorter than its extension, or whose padding counts nothing or more than
/// there is, is refused.
pub proof fn law_broken_payloads_are_refused(
    packet: Seq<u8>,
    header: RtpHeader,
    opened: Seq<u8>,
)
    ensures
        opened.len() < header.encrypted_extension_body_len ==> unpacked_payload(
            packet,
            header,
            opened,
        ) is Err,
        header.has_padding && opened.len() >= header.encrypted_extension_body_len && (opened.len()
            == header.encrypted_extension_body_len || opened.last() == 0 || opened.last()
            > opened.len() - header.encrypted_extension_body_len) ==> unpacked_payload(
            packet,
            header,
            opened,
        ) is Err,
{
    let rest = opened.skip(header.encrypted_extension_body_len as int);
    if opened.len() > header.encrypted_extension_body_len {
        assert(rest.last() == opened.last());
    }
}

/// A protected packet starts with the readable header of the packet, ends in the suffix of the
/// nonce, and holds in between the rest, sealed under the header. Only packets without a header,
/// or that are too long for the cipher, are not protected.
pub proof fn law_packets_are_protected(
    mode: VoiceAeadMode,
    key: Seq<u8>,
    packet: Seq<u8>,
    suffix: Seq<u8>,
)
    ensures
        ({
            let result = protected_packet(mode, key, packet, suffix);
            let header = parsed_rtp_header(packet);
            let n = header->Ok_0.authenticated_header_len as int;
            let limit = if mode == VoiceAeadMode::Aes256Gcm {
                0x10_0000_0000int
            } else {
                0x3f_ffff_ff80int
            };
            &&& header is Err ==> result == Err::<Seq<u8>, Seq<char>>(header->Err_0)
            &&& header is Ok ==> (result is Ok <==> packet.skip(n).len() <= limit)
            &&& result is Ok ==> result->Ok_0 == packet.take(n) + mode.sealed(
                key,
                suffix,
                packet.take(n),
                packet.skip(n),
            ) + suffix
        }),
{
}

/// A cipher can be set up exactly for the two mode names, with a key of thirty-two bytes.
pub proof fn law_ciphers(mode: Seq<char>, key: Seq<u8>)
    ensures
        packet_key_error(mode, key) is None <==> (mode == "aead_aes256_gcm_rtpsize"@ || mode
            == "aead_xchacha20_poly1305_rtpsize"@) && key.len() == 32,
        VoiceAeadMode::named("aead_aes256_gcm_rtpsize"@) == Some(VoiceAeadMode::Aes256Gcm),
        VoiceAeadMode::named("aead_xchacha20_poly1305_rtpsize"@) == Some(
            VoiceAeadMode::XChaCha20Poly1305,
        ),
{
    reveal_strlit("aead_aes256_gcm_rtpsize");
    reveal_strlit("aead_xchacha20_poly1305_rtpsize");
    assert("aead_aes256_gcm_rtpsize"@.len() != "aead_xchacha20_poly1305_rtpsize"@.len());
}

/// The nonce of a packet is its suffix followed by zeros: twelve bytes for AES-GCM and
/// twenty-four for XChaCha20-Poly1305.
pub proof fn law_nonces(
    key: Seq<u8>,
    suffix: Seq<u8>,
    zeros: Seq<u8>,
    aad: Seq<u8>,
    message: Seq<u8>,
)
    requires
        suffix.len() == 4,
        forall|i: int| 0 <= i < zeros.len() ==> zeros[i] == 0,
    ensures
        zeros.len() == 8 ==> VoiceAeadMode::Aes256Gcm.sealed(key, suffix, aad, message)
            == aes256_gcm_sealed(key, suffix + zeros, aad, message)
            && VoiceAeadMode::Aes256Gcm.opened(key, suffix, aad, message) == aes256_gcm_opened(
            key,
            suffix + zeros,
            aad,
            message,
        ),
        zeros.len() == 20 ==> VoiceAeadMode::XChaCha20Poly1305.sealed(key, suffix, aad, message)
            == xchacha20_poly1305_sealed(key, suffix + zeros, aad, message)
            && VoiceAeadMode::XChaCha20Poly1305.opened(key, suffix, aad, message)
            == xchacha20_poly1305_opened(key, suffix + zeros, aad, message),
{
    assert(zeros.len() == 8 ==> padded_nonce(suffix, 12) =~= suffix + zeros);
    assert(zeros.len() == 20 ==> padded_nonce(suffix, 24) =~= suffix + zeros);
}

/// A protected packet is opened under its readable header and the suffix at its end, and what was
/// sealed is taken apart. One without room for a tag and a suffix is refused, and so is one that
/// the cipher does not open.
pub proof fn law_packets_are_opened(
    mode: VoiceAeadMode,
    key: Seq<u8>,
    header: RtpHeader,
    readable: Seq<u8>,
    sealed: Seq<u8>,
    suffix: Seq<u8>,
)
    requires
        readable.len() == header.authenticated_header_len,
        readable.len() >= 12,
        suffix.len() == 4,
    ensures
        ({
            let packet = readable + sealed + suffix;
            let opened = mode.opened(key, suffix, readable, sealed);
            let result = unprotected_payload(mode, key, packet, header);
            let limit = if mode == VoiceAeadMode::Aes256Gcm {
                0x10_0000_0010int
            } else {
                0x3f_ffff_ff90int
            };
            &&& sealed.len() < 16 || sealed.len() > limit ==> result is Err
            &&& 16 <= sealed.len() <= limit && opened is Some ==> result == unpacked_payload(
                packet,
                header,
                opened->Some_0,
            )
            &&& 16 <= sealed.len() && opened is None ==> result == Err::<
                DecryptedView,
                Seq<char>,
            >("failed to decrypt RTP payload"@)
        }),
{
    let packet = readable + sealed + suffix;
    let n = readable.len() as int;
    let end = packet.len() - 4;
    assert(packet.take(n) =~= readable);
    assert(packet.subrange(n, end) =~= sealed);
    assert(packet.skip(end) =~= suffix);
}

} // verus!
