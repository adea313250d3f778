//! Protecting media packets: the header stays readable, the rest is sealed.
use crate::voice::aead::{
    VoiceAeadMode, AEAD_KEY_BYTES, RTP_AEAD_NONCE_SUFFIX_BYTES, RTP_AEAD_TAG_BYTES,
};
use crate::voice::bytes::{be16, copy_range, push_bytes, read_be16};
use crate::voice::rtp::{
    has_extension, law_built_packet_is_read_back, law_header_lies_in_packet, parse_rtp_header,
    parsed_rtp_header, rtp_authenticated_len, voice_rtp_packet, RtpHeader, RTP_EXTENSION_BIT,
    RTP_HEADER_EXTENSION_BYTES, RTP_HEADER_MIN_LEN,
};
use vstd::prelude::*;
use vstd::slice::slice_subrange;

verus! {

/// A cipher and its key.
struct PacketKey {
    mode: VoiceAeadMode,
    key: [u8; AEAD_KEY_BYTES],
}

pub open spec fn unknown_mode_error() -> Seq<char> {
    "unsupported voice encryption mode"@
}

pub open spec fn key_length_error() -> Seq<char> {
    "voice encryption key must be 32 bytes"@
}

/// Why no cipher can be set up.
pub open spec fn packet_key_error(mode: Seq<char>, key: Seq<u8>) -> Option<Seq<char>> {
    if VoiceAeadMode::named(mode) is None {
        Some(unknown_mode_error())
    } else if key.len() != AEAD_KEY_BYTES {
        Some(key_length_error())
    } else {
        None
    }
}

impl PacketKey {
    fn new(mode: &str, key: &[u8]) -> (made: Result<PacketKey, String>)
        ensures
            match made {
                Ok(made) => packet_key_error(mode@, key@) is None && VoiceAeadMode::named(mode@)
                    == Some(made.mode) && made.key@ == key@,
                Err(message) => packet_key_error(mode@, key@) == Some(message@),
            },
    {
        let mode = match VoiceAeadMode::from_name(mode) {
            Some(mode) => mode,
            None => return Err("unsupported voice encryption mode".to_owned()),
        };
        if key.len() != AEAD_KEY_BYTES {
            return Err("voice encryption key must be 32 bytes".to_owned());
        }
        let mut copy: [u8; AEAD_KEY_BYTES] = [0;AEAD_KEY_BYTES];
        let mut i: usize = 0;
        while i < AEAD_KEY_BYTES
            invariant
                i <= AEAD_KEY_BYTES,
                key@.len() == AEAD_KEY_BYTES,
                forall|j: int| 0 <= j < i ==> copy@[j] == key@[j],
            decreases AEAD_KEY_BYTES - i,
        {
            copy[i] = key[i];
            i += 1;
        }
        assert(copy@ =~= key@);
        Ok(PacketKey { mode, key: copy })
    }
}

/// Seals outgoing media packets.
pub struct VoiceRtpEncryptor {
    cipher: PacketKey,
}

/// Opens incoming media packets.
pub struct VoiceRtpDecryptor {
    cipher: PacketKey,
}

/// What a media packet holds.
#[derive(Debug, PartialEq, Eq)]
pub struct DecryptedRtpPayload {
    pub encrypted_extension_body_len: usize,
    pub extension_profile: Option<u16>,
    pub extension_body: Vec<u8>,
    pub media_payload: Vec<u8>,
}

pub struct DecryptedView {
    pub encrypted_extension_body_len: usize,
    pub extension_profile: Option<u16>,
    pub extension_body: Seq<u8>,
    pub media_payload: Seq<u8>,
}

impl View for DecryptedRtpPayload {
    type V = DecryptedView;

    open spec fn view(&self) -> DecryptedView {
        DecryptedView {
            encrypted_extension_body_len: self.encrypted_extension_body_len,
            extension_profile: self.extension_profile,
            extension_body: self.extension_body@,
            media_payload: self.media_payload@,
        }
    }
}

pub open spec fn payload_result_view(result: Result<DecryptedRtpPayload, String>) -> Result<
    DecryptedView,
    Seq<char>,
> {
    match result {
        Ok(payload) => Ok(payload@),
        Err(message) => Err(message@),
    }
}

pub open spec fn packet_result_view(result: Result<Vec<u8>, String>) -> Result<
    Seq<u8>,
    Seq<char>,
> {
    match result {
        Ok(packet) => Ok(packet@),
        Err(message) => Err(message@),
    }
}

/// A protected packet: the readable header, what was sealed, and the suffix of the nonce.
pub open spec fn protected_packet(
    mode: VoiceAeadMode,
    key: Seq<u8>,
    packet: Seq<u8>,
    suffix: Seq<u8>,
) -> Result<Seq<u8>, Seq<char>> {
    match parsed_rtp_header(packet) {
        Ok(header) => {
            let readable = packet.take(header.authenticated_header_len as int);
            let message = packet.skip(header.authenticated_header_len as int);
            if message.len() > mode.max_message() {
                Err("failed to encrypt RTP payload"@)
            } else {
                Ok(readable + mode.sealed(key, suffix, readable, message) + suffix)
            }
        },
        Err(message) => Err(message),
    }
}

/// The profile of a packet's extension, which is in the last bytes of the readable header.
pub open spec fn extension_profile(packet: Seq<u8>, header: RtpHeader) -> Option<u16> {
    if has_extension(packet) && header.authenticated_header_len >= RTP_HEADER_MIN_LEN
        + RTP_HEADER_EXTENSION_BYTES {
        Some(be16(packet, header.authenticated_header_len - RTP_HEADER_EXTENSION_BYTES))
    } else {
        None
    }
}

/// What follows the opening of a packet: the body of the extension comes first, the media
/// payload after it, and padding, whose last byte counts it, at the end.
pub open spec fn unpacked_payload(
    packet: Seq<u8>,
    header: RtpHeader,
    opened: Seq<u8>,
) -> Result<DecryptedView, Seq<char>> {
    let body_len = header.encrypted_extension_body_len as int;
    let rest = opened.skip(body_len);
    if opened.len() < body_len {
        Err("RTP payload is shorter than its extension"@)
    } else if !header.has_padding {
        Ok(
            DecryptedView {
                encrypted_extension_body_len: header.encrypted_extension_body_len,
                extension_profile: extension_profile(packet, header),
                extension_body: opened.take(body_len),
                media_payload: rest,
            },
        )
    } else if rest.len() == 0 || rest.last() == 0 || rest.last() > rest.len() {
        Err("RTP padding is invalid"@)
    } else {
        Ok(
            DecryptedView {
                encrypted_extension_body_len: header.encrypted_extension_body_len,
                extension_profile: extension_profile(packet, header),
                extension_body: opened.take(body_len),
                media_payload: rest.take(rest.len() - rest.last()),
            },
        )
    }
}

/// What a protected packet holds, going by its header.
pub open spec fn unprotected_payload(
    mode: VoiceAeadMode,
    key: Seq<u8>,
    packet: Seq<u8>,
    header: RtpHeader,
) -> Result<DecryptedView, Seq<char>> {
    let readable_len = header.authenticated_header_len as int;
    let sealed_end = packet.len() - RTP_AEAD_NONCE_SUFFIX_BYTES;
    if packet.len() < RTP_HEADER_MIN_LEN || packet.len() < readable_len + RTP_AEAD_TAG_BYTES
        + RTP_AEAD_NONCE_SUFFIX_BYTES {
        Err("RTP packet is too short to decrypt"@)
    } else {
        let sealed = packet.subrange(readable_len, sealed_end);
        let opened = mode.opened(key, packet.skip(sealed_end), packet.take(readable_len), sealed);
        if sealed.len() > mode.max_message() + RTP_AEAD_TAG_BYTES || opened is None {
            Err("failed to decrypt RTP payload"@)
        } else {
            unpacked_payload(packet, header, opened->Some_0)
        }
    }
}

impl VoiceRtpEncryptor {
    pub closed spec fn mode(self) -> VoiceAeadMode {
        self.cipher.mode
    }

    pub closed spec fn key(self) -> Seq<u8> {
        self.cipher.key@
    }

    pub fn new(mode: &str, key: &[u8]) -> (made: Result<VoiceRtpEncryptor, String>)
        ensures
            match made {
                Ok(made) => packet_key_error(mode@, key@) is None && VoiceAeadMode::named(mode@)
                    == Some(made.mode()) && made.key() == key@,
                Err(message) => packet_key_error(mode@, key@) == Some(message@),
            },
    {
        match PacketKey::new(mode, key) {
            Ok(cipher) => Ok(VoiceRtpEncryptor { cipher }),
            Err(message) => Err(message),
        }
    }

    /// Protects a packet. Its header must be readable.
    pub fn encrypt_packet(&self, packet: &[u8], nonce_suffix: [u8; RTP_AEAD_NONCE_SUFFIX_BYTES]) -> (protected:
        Result<Vec<u8>, String>)
        ensures
            packet_result_view(protected) == protected_packet(
                self.mode(),
                self.key(),
                packet@,
                nonce_suffix@,
            ),
            // The header is read from the protected packet as from the packet itself, and
            // opening gives back what was protected.
            match protected {
                Ok(protected) => {
                    &&& protected@.len() == packet@.len() + RTP_AEAD_TAG_BYTES
                        + RTP_AEAD_NONCE_SUFFIX_BYTES
                    &&& parsed_rtp_header(protected@) == parsed_rtp_header(packet@)
                    &&& unprotected_payload(
                        self.mode(),
                        self.key(),
                        protected@,
                        parsed_rtp_header(packet@)->Ok_0,
                    ) == unpacked_payload(
                        protected@,
                        parsed_rtp_header(packet@)->Ok_0,
                        packet@.skip(parsed_rtp_header(packet@)->Ok_0.authenticated_header_len as int),
                    )
                },
                Err(_) => true,
            },
    {
        let header = match parse_rtp_header(packet) {
            Ok(header) => header,
            Err(message) => return Err(message),
        };
        proof {
            lemma_readable_len(packet@);
            law_header_lies_in_packet(packet@);
        }
        let readable_len: usize = header.authenticated_header_len;
        let readable = slice_subrange(packet, 0, readable_len);
        let message = slice_subrange(packet, readable_len, packet.len());
        assert(readable@ =~= packet@.take(readable_len as int));
        assert(message@ =~= packet@.skip(readable_len as int));
        let sealed = match self.cipher.mode.seal(&self.cipher.key, nonce_suffix, readable, message) {
            Some(sealed) => sealed,
            None => return Err("failed to encrypt RTP payload".to_owned()),
        };
        let mut protected: Vec<u8> = Vec::new();
        push_bytes(&mut protected, readable);
        push_bytes(&mut protected, sealed.as_slice());
        push_bytes(&mut protected, nonce_suffix.as_slice());
        proof {
            assert(protected@ =~= readable@ + sealed@ + nonce_suffix@);
            let sealed_end = protected@.len() - RTP_AEAD_NONCE_SUFFIX_BYTES;
            assert(protected@.take(readable_len as int) =~= readable@);
            assert(protected@.subrange(readable_len as int, sealed_end) =~= sealed@);
            assert(protected@.skip(sealed_end) =~= nonce_suffix@);
            lemma_header_survives(packet@, protected@);
        }
        Ok(protected)
    }
}

/// The readable header is short.
proof fn lemma_readable_len(packet: Seq<u8>)
    ensures
        rtp_authenticated_len(packet) <= 76,
{
    let first = packet[0];
    assert(first & 0x0f <= 15) by (bit_vector);
}

/// A packet that keeps the readable header of another, and is no shorter, has its header.
proof fn lemma_header_survives(packet: Seq<u8>, other: Seq<u8>)
    requires
        parsed_rtp_header(packet) is Ok,
        other.len() >= packet.len(),
        other.take(rtp_authenticated_len(packet)) == packet.take(rtp_authenticated_len(packet)),
    ensures
        parsed_rtp_header(other) == parsed_rtp_header(packet),
{
    let n = rtp_authenticated_len(packet);
    let first = packet[0];
    assert(first & 0x0f <= 15) by (bit_vector);
    assert forall|i: int| 0 <= i < n implies other[i] == packet[i] by {
        assert(other.take(n)[i] == packet.take(n)[i]);
    }
}

/// A voice packet that was protected holds its frame, and nothing else.
pub proof fn law_protected_voice_packet_holds_frame(
    sequence: u16,
    timestamp: u32,
    ssrc: u32,
    marker: bool,
    opus: Seq<u8>,
    protected: Seq<u8>,
)
    requires
        opus.len() > 0,
        ({
            let packet = voice_rtp_packet(sequence, timestamp, ssrc, marker, opus);
            &&& protected.len() >= packet.len()
            &&& parsed_rtp_header(protected) == parsed_rtp_header(packet)
            &&& protected[0] == packet[0]
        }),
    ensures
        ({
            let packet = voice_rtp_packet(sequence, timestamp, ssrc, marker, opus);
            let header = parsed_rtp_header(packet)->Ok_0;
            unpacked_payload(
                protected,
                header,
                packet.skip(header.authenticated_header_len as int),
            ) == Ok::<DecryptedView, Seq<char>>(
                DecryptedView {
                    encrypted_extension_body_len: 0,
                    extension_profile: None,
                    extension_body: Seq::empty(),
                    media_payload: opus,
                },
            )
        }),
{
    law_built_packet_is_read_back(sequence, timestamp, ssrc, marker, opus);
    let packet = voice_rtp_packet(sequence, timestamp, ssrc, marker, opus);
    assert(packet[0] == 0x80);
    assert(0x80u8 & 0x10 == 0) by (bit_vector);
    assert(opus.take(0) =~= Seq::empty());
    assert(opus.skip(0) =~= opus);
}

impl VoiceRtpDecryptor {
    pub closed spec fn mode(self) -> VoiceAeadMode {
        self.cipher.mode
    }

    pub closed spec fn key(self) -> Seq<u8> {
        self.cipher.key@
    }

    pub fn new(mode: &str, key: &[u8]) -> (made: Result<VoiceRtpDecryptor, String>)
        ensures
            match made {
                Ok(made) => packet_key_error(mode@, key@) is None && VoiceAeadMode::named(mode@)
                    == Some(made.mode()) && made.key() == key@,
                Err(message) => packet_key_error(mode@, key@) == Some(message@),
            },
    {
        match PacketKey::new(mode, key) {
            Ok(cipher) => Ok(VoiceRtpDecryptor { cipher }),
            Err(message) => Err(message),
        }
    }

    /// Opens a protected packet whose header was read.
    pub fn decrypt_packet(&self, packet: &[u8], header: &RtpHeader) -> (payload: Result<
        DecryptedRtpPayload,
        String,
    >)
        ensures
            payload_result_view(payload) == unprotected_payload(
                self.mode(),
                self.key(),
                packet@,
                *header,
            ),
    {
        let readable_len: usize = header.authenticated_header_len;
        let trailer: usize = RTP_AEAD_TAG_BYTES + RTP_AEAD_NONCE_SUFFIX_BYTES;
        if packet.len() < RTP_HEADER_MIN_LEN || packet.len() < trailer || packet.len() - trailer
            < readable_len {
            return Err("RTP packet is too short to decrypt".to_owned());
        }
        let sealed_end: usize = packet.len() - RTP_AEAD_NONCE_SUFFIX_BYTES;
        let readable = slice_subrange(packet, 0, readable_len);
        let sealed = slice_subrange(packet, readable_len, sealed_end);
        let suffix: [u8; RTP_AEAD_NONCE_SUFFIX_BYTES] = [
            packet[sealed_end],
            packet[sealed_end + 1],
            packet[sealed_end + 2],
            packet[sealed_end + 3],
        ];
        assert(readable@ =~= packet@.take(readable_len as int));
        assert(suffix@ =~= packet@.skip(sealed_end as int));
        match self.cipher.mode.open(&self.cipher.key, suffix, readable, sealed) {
            Some(opened) => unpack_opened_payload(packet, header, opened.as_slice()),
            None => Err("failed to decrypt RTP payload".to_owned()),
        }
    }
}

/// Takes an opened payload apart.
pub fn unpack_opened_payload(packet: &[u8], header: &RtpHeader, opened: &[u8]) -> (payload: Result<
    DecryptedRtpPayload,
    String,
>)
    requires
        RTP_HEADER_MIN_LEN <= packet@.len(),
        header.authenticated_header_len <= packet@.len(),
    ensures
        payload_result_view(payload) == unpacked_payload(packet@, *header, opened@),
{
    let body_len: usize = header.encrypted_extension_body_len;
    if opened.len() < body_len {
        return Err("RTP payload is shorter than its extension".to_owned());
    }
    let profile = if packet[0] & RTP_EXTENSION_BIT != 0 && header.authenticated_header_len
        >= RTP_HEADER_MIN_LEN + RTP_HEADER_EXTENSION_BYTES {
        Some(read_be16(packet, header.authenticated_header_len - RTP_HEADER_EXTENSION_BYTES))
    } else {
        None
    };
    let mut end: usize = opened.len();
    let ghost rest = opened@.skip(body_len as int);
    if header.has_padding {
        if end == body_len {
            return Err("RTP padding is invalid".to_owned());
        }
        let padding: usize = opened[end - 1] as usize;
        assert(rest.last() == opened@.last());
        if padding == 0 || padding > end - body_len {
            return Err("RTP padding is invalid".to_owned());
        }
        end -= padding;
    }
    let extension_body = copy_range(opened, 0, body_len);
    let media_payload = copy_range(opened, body_len, end);
    assert(extension_body@ =~= opened@.take(body_len as int));
    assert(media_payload@ =~= if header.has_padding {
        rest.take(rest.len() - rest.last())
    } else {
        rest
    });
    Ok(
        DecryptedRtpPayload {
            encrypted_extension_body_len: body_len,
            extension_profile: profile,
            extension_body,
            media_payload,
        },
    )
}

} // verus!
