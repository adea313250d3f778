use discord_core::voice::aead::{
    VoiceAeadMode, AEAD_AES256_GCM_RTPSIZE, AEAD_XCHACHA20_POLY1305_RTPSIZE,
    RTP_AEAD_NONCE_SUFFIX_BYTES,
};
use discord_core::voice::crypt::{unpack_opened_payload, VoiceRtpDecryptor, VoiceRtpEncryptor};
use discord_core::voice::dave::{DaveSession, VoiceDaveState, VoiceSpeakingState};
use discord_core::voice::media::{
    looks_like_dave_media_frame, voice_media_payload_counts_as_remote_activity,
    voice_playback_frame, voice_speaking_microphone_active, VoiceMediaPayload,
    VoicePlaybackFrame, DAVE_MAGIC_MARKER, DAVE_MIN_SUPPLEMENTAL_BYTES,
};
use discord_core::voice::outbound::{
    advance_voice_media_clock, VoiceDaveOutboundPayload, VoiceOutboundSendBlockReason,
    VoiceOutboundSendEvent, VoiceOutboundSendOutcome, VoiceOutboundSendState,
};
use discord_core::voice::pacing::DISCORD_TRAILING_SILENCE_FRAMES;
use discord_core::voice::rtp::{
    build_voice_rtp_packet, looks_like_rtcp_packet, parse_rtp_header, rtcp_sender_ssrc,
    RtpHeader, VoiceOutboundRtpState, DISCORD_OPUS_SILENCE_FRAME,
    DISCORD_OPUS_TIMESTAMP_INCREMENT, DISCORD_VOICE_PAYLOAD_TYPE, RTP_HEADER_MIN_LEN,
};
use discord_core::voice::session::VoiceGatewaySession;
use discord_core::voice::time::MonotonicTime;
use discord_core::ids::{ChannelId, GuildId, UserId};
use discord_core::payload::VoiceScope;

use aes_gcm::{
    aead::{Aead, KeyInit, Payload},
    Aes256Gcm, Nonce as AesGcmNonce,
};
use chacha20poly1305::{XChaCha20Poly1305, XNonce};

fn test_voice_gateway_session() -> VoiceGatewaySession {
    VoiceGatewaySession {
        connection_id: 0,
        scope: VoiceScope::Guild(GuildId::new(1)),
        channel_id: ChannelId::new(10),
        user_id: UserId::new(20),
        session_id: "voice-session".to_owned(),
        endpoint: "voice.example.com".to_owned(),
        token: "voice-token".to_owned(),
    }
}

fn fake_outbound_state(mode: &str, nonce_suffix: u32) -> VoiceOutboundSendState {
    match VoiceOutboundSendState::new(
        mode,
        &[9u8; 32],
        VoiceOutboundRtpState { sequence: 7, timestamp: 960, ssrc: 42 },
        nonce_suffix,
    ) {
        Ok(state) => state,
        Err(message) => panic!("fake outbound state should build: {}", message),
    }
}

fn decryptor(mode: &str, key: &[u8]) -> VoiceRtpDecryptor {
    match VoiceRtpDecryptor::new(mode, key) {
        Ok(decryptor) => decryptor,
        Err(message) => panic!("decryptor should build: {}", message),
    }
}

fn encryptor(mode: &str, key: &[u8]) -> VoiceRtpEncryptor {
    match VoiceRtpEncryptor::new(mode, key) {
        Ok(encryptor) => encryptor,
        Err(message) => panic!("encryptor should build: {}", message),
    }
}

fn assert_fake_packet(
    mode: &str,
    event: &VoiceOutboundSendEvent,
    sequence: u16,
    timestamp: u32,
    expected_payload: &[u8],
    nonce_suffix: [u8; RTP_AEAD_NONCE_SUFFIX_BYTES],
    marker: bool,
) {
    let VoiceOutboundSendEvent::Packet { bytes } = event else {
        panic!("expected fake packet event, got {:?}", event);
    };
    let packet_bytes = bytes.as_slice();
    let header = parse_rtp_header(packet_bytes).expect("fake RTP header should parse");
    let decrypted = decryptor(mode, &[9u8; 32])
        .decrypt_packet(packet_bytes, &header)
        .expect("fake RTP packet should decrypt");

    let actual_nonce_suffix = &packet_bytes[packet_bytes.len() - RTP_AEAD_NONCE_SUFFIX_BYTES..];
    assert_eq!(actual_nonce_suffix, nonce_suffix.as_slice());
    assert_eq!(header.marker, marker);
    assert_eq!(header.sequence, sequence);
    assert_eq!(header.timestamp, timestamp);
    assert_eq!(header.ssrc, 42);
    assert_eq!(decrypted.media_payload, expected_payload);
}

fn fake_packet_header(event: &VoiceOutboundSendEvent) -> RtpHeader {
    let VoiceOutboundSendEvent::Packet { bytes } = event else {
        panic!("expected fake packet event, got {:?}", event);
    };
    parse_rtp_header(bytes).expect("fake RTP header should parse")
}

fn encrypt_test_rtp_payload(
    mode: &str,
    key: &[u8],
    aad: &[u8],
    plaintext: &[u8],
    nonce_suffix: [u8; RTP_AEAD_NONCE_SUFFIX_BYTES],
) -> Vec<u8> {
    if mode == AEAD_AES256_GCM_RTPSIZE {
        let cipher = Aes256Gcm::new_from_slice(key).expect("test key is valid");
        let mut nonce = [0u8; 12];
        nonce[..RTP_AEAD_NONCE_SUFFIX_BYTES].copy_from_slice(&nonce_suffix);
        let nonce = AesGcmNonce::from(nonce);
        cipher
            .encrypt(&nonce, Payload { msg: plaintext, aad })
            .expect("test payload encrypts")
    } else {
        let cipher = XChaCha20Poly1305::new_from_slice(key).expect("test key is valid");
        let mut nonce = [0u8; 24];
        nonce[..RTP_AEAD_NONCE_SUFFIX_BYTES].copy_from_slice(&nonce_suffix);
        let nonce = XNonce::from(nonce);
        cipher
            .encrypt(&nonce, Payload { msg: plaintext, aad })
            .expect("test payload encrypts")
    }
}

#[test]
fn rtp_header_parses_minimal_and_extended_packets() {
    let packet = [
        0x80, 0x78, 0x12, 0x34, 0x01, 0x02, 0x03, 0x04, 0x05, 0x06, 0x07, 0x08,
    ];

    let header = parse_rtp_header(&packet).expect("RTP header should parse");

    assert_eq!(
        header,
        RtpHeader {
            has_padding: false,
            marker: false,
            payload_type: 0x78,
            sequence: 0x1234,
            timestamp: 0x01020304,
            ssrc: 0x05060708,
            authenticated_header_len: 12,
            encrypted_extension_body_len: 0,
            payload_offset: 12,
        }
    );

    let mut extended = vec![0x91, 0x78, 0, 1, 0, 0, 0, 1, 0, 0, 0, 1];
    extended.extend_from_slice(&0x11223344u32.to_be_bytes());
    extended.extend_from_slice(&0x1000u16.to_be_bytes());
    extended.extend_from_slice(&1u16.to_be_bytes());
    extended.extend_from_slice(&0x55667788u32.to_be_bytes());

    let header = parse_rtp_header(&extended).expect("extended RTP header should parse");

    assert_eq!(header.authenticated_header_len, 20);
    assert_eq!(header.encrypted_extension_body_len, 4);
    assert_eq!(header.payload_offset, 24);
}

#[test]
fn rtp_header_rejects_malformed_packets() {
    assert_eq!(
        parse_rtp_header(&[0; 11]).expect_err("short packet should fail"),
        "RTP packet is too short"
    );

    let packet = [0x40, 0x78, 0, 1, 0, 0, 0, 1, 0, 0, 0, 1];

    assert_eq!(
        parse_rtp_header(&packet).expect_err("wrong version should fail"),
        "RTP packet has unsupported version"
    );
}

#[test]
fn rtp_header_rejects_rtcp_reports_before_payload_type_masking() {
    let local_ssrc = 0x0000_f5e7u32;
    let mut receiver_report = vec![0x80, 0xc9, 0, 7];
    receiver_report.extend_from_slice(&local_ssrc.to_be_bytes());
    receiver_report.extend_from_slice(&[0, 0, 0, 0]);

    assert!(looks_like_rtcp_packet(&receiver_report));
    assert_eq!(rtcp_sender_ssrc(&receiver_report), Some(local_ssrc));
    assert_eq!(
        parse_rtp_header(&receiver_report).expect_err("RTCP should not parse as RTP"),
        "RTP parser received RTCP packet"
    );

    let sender_report = [0x80, 0xc8, 0, 12, 0, 0, 0xf5, 0xe7, 0, 0, 0, 0];
    assert!(looks_like_rtcp_packet(&sender_report));
    assert_eq!(
        parse_rtp_header(&sender_report).expect_err("RTCP should not parse as RTP"),
        "RTP parser received RTCP packet"
    );
}

#[test]
fn truncated_headers_are_refused() {
    let sources = [0x82, 0x78, 0, 1, 0, 0, 0, 1, 0, 0, 0, 1, 0, 0, 0, 2];
    assert_eq!(
        parse_rtp_header(&sources).expect_err("a source is missing"),
        "RTP packet is too short"
    );
    let extension = [0x90, 0x78, 0, 1, 0, 0, 0, 1, 0, 0, 0, 1, 0x10, 0, 0, 1];
    assert_eq!(
        parse_rtp_header(&extension).expect_err("the extension is missing"),
        "RTP packet is too short"
    );
    assert!(!looks_like_rtcp_packet(&[0x80, 0xc9]));
    assert_eq!(rtcp_sender_ssrc(&[0x80, 0xc9, 0, 7]), None);
}

#[test]
fn rtp_decrypts_aead_rtpsize_modes_and_strips_extension_body_and_padding() {
    let key = [7u8; 32];
    let nonce_suffix = [1, 2, 3, 4];
    let mut header = vec![0xb0, 0x78, 0, 7, 0, 0, 0, 8, 0, 0, 0, 9];
    header.extend_from_slice(&0x1000u16.to_be_bytes());
    header.extend_from_slice(&1u16.to_be_bytes());
    let plaintext = [
        b"ext!".as_slice(),
        b"opus-frame".as_slice(),
        [0, 0, 3].as_slice(),
    ]
    .concat();

    for mode in [AEAD_AES256_GCM_RTPSIZE, AEAD_XCHACHA20_POLY1305_RTPSIZE] {
        let mut packet = header.clone();
        packet.extend(encrypt_test_rtp_payload(mode, &key, &header, &plaintext, nonce_suffix));
        packet.extend_from_slice(&nonce_suffix);
        let rtp_header = parse_rtp_header(&packet).expect("RTP header should parse");

        assert!(rtp_header.has_padding);
        let decrypted = decryptor(mode, &key)
            .decrypt_packet(&packet, &rtp_header)
            .expect("RTP payload should decrypt");

        assert_eq!(decrypted.encrypted_extension_body_len, 4);
        assert_eq!(decrypted.extension_profile, Some(0x1000));
        assert_eq!(decrypted.extension_body, b"ext!");
        assert_eq!(decrypted.media_payload, b"opus-frame");
    }
}

#[test]
fn packets_that_cannot_be_opened_are_refused() {
    let packet = build_voice_rtp_packet(7, 960, 42, b"opus-frame").expect("packet should build");
    for mode in [AEAD_AES256_GCM_RTPSIZE, AEAD_XCHACHA20_POLY1305_RTPSIZE] {
        let mut protected = encryptor(mode, &[9u8; 32])
            .encrypt_packet(&packet, [0, 0, 0, 1])
            .expect("packet should encrypt");
        let header = parse_rtp_header(&protected).expect("header should parse");
        assert_eq!(
            decryptor(mode, &[8u8; 32]).decrypt_packet(&protected, &header).err().as_deref(),
            Some("failed to decrypt RTP payload")
        );
        let last = protected.len() - 1;
        protected[last] ^= 1;
        assert_eq!(
            decryptor(mode, &[9u8; 32]).decrypt_packet(&protected, &header).err().as_deref(),
            Some("failed to decrypt RTP payload")
        );
        assert_eq!(
            decryptor(mode, &[9u8; 32]).decrypt_packet(&protected[..31], &header).err().as_deref(),
            Some("RTP packet is too short to decrypt")
        );
    }
    assert_eq!(
        VoiceRtpEncryptor::new("xsalsa20_poly1305", &[9u8; 32]).err().as_deref(),
        Some("unsupported voice encryption mode")
    );
    assert_eq!(
        VoiceRtpDecryptor::new(AEAD_AES256_GCM_RTPSIZE, &[9u8; 31]).err().as_deref(),
        Some("voice encryption key must be 32 bytes")
    );
    assert_eq!(
        VoiceAeadMode::from_name(AEAD_AES256_GCM_RTPSIZE),
        Some(VoiceAeadMode::Aes256Gcm)
    );
    assert_eq!(
        encryptor(AEAD_AES256_GCM_RTPSIZE, &[9u8; 32])
            .encrypt_packet(&packet[..11], [0; 4])
            .err()
            .as_deref(),
        Some("RTP packet is too short")
    );
}

#[test]
fn opened_payloads_are_taken_apart() {
    let header = RtpHeader {
        has_padding: true,
        marker: false,
        payload_type: DISCORD_VOICE_PAYLOAD_TYPE,
        sequence: 7,
        timestamp: 8,
        ssrc: 9,
        authenticated_header_len: 12,
        encrypted_extension_body_len: 2,
        payload_offset: 14,
    };
    let packet = [0xa0, 0x78, 0, 7, 0, 0, 0, 8, 0, 0, 0, 9];
    let unpack = |header: &RtpHeader, opened: &[u8]| unpack_opened_payload(&packet, header, opened);

    let payload = unpack(&header, b"exopus\x00\x02").expect("padding should be stripped");
    assert_eq!(payload.extension_profile, None);
    assert_eq!(payload.extension_body, b"ex");
    assert_eq!(payload.media_payload, b"opus");
    for opened in [b"ex".as_slice(), b"exopus\x00".as_slice(), b"exop\x09".as_slice()] {
        assert_eq!(
            unpack(&header, opened).err().as_deref(),
            Some("RTP padding is invalid")
        );
    }
    let unpadded = RtpHeader { has_padding: false, ..header };
    assert_eq!(
        unpack(&unpadded, b"e").err().as_deref(),
        Some("RTP payload is shorter than its extension")
    );
    assert_eq!(
        unpack(&unpadded, b"exop\x09").expect("no padding is expected").media_payload,
        b"op\x09"
    );
}

#[test]
fn outbound_rtp_packet_builder_sets_header_and_advances_state() {
    let mut state = VoiceOutboundRtpState {
        sequence: u16::MAX,
        timestamp: u32::MAX - 100,
        ssrc: 0x01020304,
    };

    let packet = state
        .packetize(&DISCORD_OPUS_SILENCE_FRAME)
        .expect("RTP packet should build");
    let header = parse_rtp_header(&packet).expect("RTP header should parse");

    assert_eq!(packet[0], 0x80);
    assert_eq!(header.payload_type, DISCORD_VOICE_PAYLOAD_TYPE);
    assert_eq!(header.sequence, u16::MAX);
    assert_eq!(header.timestamp, u32::MAX - 100);
    assert_eq!(header.ssrc, 0x01020304);
    assert_eq!(header.payload_offset, RTP_HEADER_MIN_LEN);
    assert_eq!(&packet[header.payload_offset..], DISCORD_OPUS_SILENCE_FRAME);
    assert_eq!(state.sequence, 0);
    assert_eq!(
        state.timestamp,
        (u32::MAX - 100).wrapping_add(DISCORD_OPUS_TIMESTAMP_INCREMENT)
    );

    assert_eq!(
        build_voice_rtp_packet(1, 2, 3, &[]).expect_err("empty payload should fail"),
        "voice RTP packet requires a non-empty Opus payload"
    );
}

#[test]
fn outbound_rtp_encrypts_aead_rtpsize_modes_for_decrypt_round_trip() {
    let key = [9u8; 32];
    let nonce_suffix = [4, 3, 2, 1];
    let packet =
        build_voice_rtp_packet(7, 960, 42, b"opus-frame").expect("RTP packet should build");

    for mode in [AEAD_AES256_GCM_RTPSIZE, AEAD_XCHACHA20_POLY1305_RTPSIZE] {
        let encrypted = encryptor(mode, &key)
            .encrypt_packet(&packet, nonce_suffix)
            .expect("RTP payload should encrypt");
        let header = parse_rtp_header(&encrypted).expect("encrypted RTP header should parse");
        let decrypted = decryptor(mode, &key)
            .decrypt_packet(&encrypted, &header)
            .expect("RTP payload should decrypt");

        assert_eq!(
            &encrypted[encrypted.len() - RTP_AEAD_NONCE_SUFFIX_BYTES..],
            nonce_suffix
        );
        assert_eq!(header.sequence, 7);
        assert_eq!(header.timestamp, 960);
        assert_eq!(header.ssrc, 42);
        assert_eq!(decrypted.media_payload, b"opus-frame");
        assert_eq!(
            &encrypted[12..encrypted.len() - 4],
            encrypt_test_rtp_payload(mode, &key, &packet[..12], b"opus-frame", nonce_suffix)
        );
    }
}

#[test]
fn fake_outbound_noops_when_capture_gate_is_closed() {
    let mut state = fake_outbound_state(AEAD_AES256_GCM_RTPSIZE, 10);
    let rtp = state.rtp;

    assert_eq!(
        state.send_opus_frame(b"opus-frame").expect("send should no-op"),
        VoiceOutboundSendOutcome::Noop
    );
    assert!(state.events().is_empty());
    assert_eq!(state.rtp, rtp);
    assert_eq!(state.nonce_suffix, 10);

    state.set_capture_gate(true, true);
    assert_eq!(
        state.send_opus_frame(b"opus-frame").expect("muted send should no-op"),
        VoiceOutboundSendOutcome::Noop
    );
    assert!(state.events().is_empty());
    assert_eq!(state.rtp, rtp);
    assert_eq!(state.nonce_suffix, 10);
}

#[test]
fn fake_outbound_blocks_dave_active_plaintext_fallback() {
    let mut state = fake_outbound_state(AEAD_AES256_GCM_RTPSIZE, 10);
    state.set_capture_gate(true, false);
    state.set_dave_active(true);
    let rtp = state.rtp;

    assert_eq!(
        state.send_opus_frame(b"opus-frame").expect("DAVE block should be reported"),
        VoiceOutboundSendOutcome::Blocked(VoiceOutboundSendBlockReason::DaveOutboundUnsupported)
    );
    assert!(state.events().is_empty());
    assert_eq!(state.rtp, rtp);
    assert_eq!(state.nonce_suffix, 10);
}

#[test]
fn fake_outbound_uses_dave_outbound_policy_before_transport_encrypt() {
    let dave = VoiceDaveState::new(&test_voice_gateway_session());
    let mut state = fake_outbound_state(AEAD_AES256_GCM_RTPSIZE, 30);
    state.set_capture_gate(true, false);

    assert_eq!(
        state
            .send_opus_frame_with_dave_payload(dave.prepare_outbound_opus(b"opus-frame", None))
            .expect("DAVE inactive frame should send"),
        VoiceOutboundSendOutcome::Sent
    );
    assert_fake_packet(
        AEAD_AES256_GCM_RTPSIZE,
        &state.events()[1],
        7,
        960,
        b"opus-frame",
        30u32.to_be_bytes(),
        true,
    );

    let mut dave = VoiceDaveState::new(&test_voice_gateway_session());
    dave.reinit(1, Ok(())).expect("DAVE session should initialize");
    let mut blocked = fake_outbound_state(AEAD_AES256_GCM_RTPSIZE, 30);
    blocked.set_capture_gate(true, false);
    let rtp = blocked.rtp;

    assert_eq!(
        blocked
            .send_opus_frame_with_dave_payload(dave.prepare_outbound_opus(b"opus-frame", None))
            .expect("DAVE not-ready frame should block"),
        VoiceOutboundSendOutcome::Blocked(VoiceOutboundSendBlockReason::DaveOutboundNotReady)
    );
    assert!(blocked.events().is_empty());
    assert_eq!(blocked.rtp, rtp);
    assert_eq!(blocked.nonce_suffix, 30);
}

#[test]
fn fake_outbound_sends_encrypted_packets_without_live_io() {
    for mode in [AEAD_AES256_GCM_RTPSIZE, AEAD_XCHACHA20_POLY1305_RTPSIZE] {
        let mut state = fake_outbound_state(mode, 0x01020304);
        state.set_capture_gate(true, false);

        assert_eq!(
            state.send_opus_frame(b"opus-frame").expect("first frame should send"),
            VoiceOutboundSendOutcome::Sent
        );
        assert_eq!(state.events().len(), 2);
        assert_eq!(
            state.events()[0],
            VoiceOutboundSendEvent::Speaking { speaking: true, ssrc: 42 }
        );
        assert_fake_packet(
            mode,
            &state.events()[1],
            7,
            960,
            b"opus-frame",
            [1, 2, 3, 4],
            true,
        );
        assert_eq!(state.rtp.sequence, 8);
        assert_eq!(state.rtp.timestamp, 960);
        assert_eq!(state.nonce_suffix, 0x01020305);

        state.advance_media_clock_frames(1);
        assert_eq!(
            state.send_opus_frame(b"next-frame").expect("second frame should send"),
            VoiceOutboundSendOutcome::Sent
        );
        assert_eq!(state.events().len(), 3);
        assert_fake_packet(
            mode,
            &state.events()[2],
            8,
            1920,
            b"next-frame",
            [1, 2, 3, 5],
            false,
        );
        assert_eq!(state.rtp.sequence, 9);
        assert_eq!(state.rtp.timestamp, 1920);
        assert_eq!(state.nonce_suffix, 0x01020306);
    }
}

#[test]
fn fake_outbound_media_clock_and_talkspurt_marker_are_independent() {
    let mut state = fake_outbound_state(AEAD_AES256_GCM_RTPSIZE, 10);
    state.set_capture_gate(true, false);

    state.advance_media_clock_frames(10);
    assert_eq!(state.rtp.sequence, 7);
    assert_eq!(state.rtp.timestamp, 10_560);
    assert_eq!(state.nonce_suffix, 10);

    assert_eq!(
        state.send_opus_frame(b"first-talkspurt").expect("first talkspurt should send"),
        VoiceOutboundSendOutcome::Sent
    );
    let first_header = fake_packet_header(&state.events()[1]);
    assert!(first_header.marker);
    assert_eq!(first_header.timestamp, 10_560);
    assert_eq!(state.rtp.sequence, 8);
    assert_eq!(state.rtp.timestamp, 10_560);
    assert_eq!(state.nonce_suffix, 11);

    state.advance_media_clock_frames(1);
    assert_eq!(
        state.send_opus_frame(b"same-talkspurt").expect("continued talkspurt should send"),
        VoiceOutboundSendOutcome::Sent
    );
    let continued_header = fake_packet_header(&state.events()[2]);
    assert!(!continued_header.marker);
    assert_eq!(continued_header.timestamp, 11_520);

    assert_eq!(
        state.stop_speaking().expect("talkspurt should stop"),
        VoiceOutboundSendOutcome::Sent
    );
    state.advance_media_clock_frames(50);
    assert_eq!(
        state.send_opus_frame(b"next-talkspurt").expect("next talkspurt should send"),
        VoiceOutboundSendOutcome::Sent
    );
    let next_header = fake_packet_header(
        state.events().last().expect("next talkspurt should queue a packet"),
    );
    assert!(next_header.marker);
    assert_eq!(next_header.timestamp, 59_520);
}

#[test]
fn microphone_capture_time_advances_rtp_clock_across_missing_frames() {
    let mut state = fake_outbound_state(AEAD_AES256_GCM_RTPSIZE, 10);
    let started_at = MonotonicTime { nanos: 5_000_000_000 };
    let after = |millis: u64| MonotonicTime { nanos: started_at.nanos + millis * 1_000_000 };
    let mut previous_frame_at = None;

    advance_voice_media_clock(&mut state, &mut previous_frame_at, started_at);
    assert_eq!(state.rtp.timestamp, 1920);

    advance_voice_media_clock(&mut state, &mut previous_frame_at, after(20));
    assert_eq!(state.rtp.timestamp, 2880);

    advance_voice_media_clock(&mut state, &mut previous_frame_at, after(120));
    assert_eq!(state.rtp.timestamp, 7680);
    assert_eq!(state.rtp.sequence, 7);
    assert_eq!(state.nonce_suffix, 10);
}

#[test]
fn fake_outbound_stop_paces_finite_silence_then_speaking_off() {
    let mut state = fake_outbound_state(AEAD_AES256_GCM_RTPSIZE, 20);
    state.set_capture_gate(true, false);

    assert_eq!(
        state.send_opus_frame(b"opus-frame").expect("frame should send"),
        VoiceOutboundSendOutcome::Sent
    );

    for index in 0..DISCORD_TRAILING_SILENCE_FRAMES {
        state.advance_media_clock_frames(1);
        assert_eq!(
            state
                .send_trailing_silence_frame_with_dave_payload(
                    VoiceDaveOutboundPayload::Plain(DISCORD_OPUS_SILENCE_FRAME.to_vec()),
                    index + 1 == DISCORD_TRAILING_SILENCE_FRAMES,
                )
                .expect("one trailing silence frame should send"),
            VoiceOutboundSendOutcome::Sent
        );
        let expected_event_count =
            index + 3 + usize::from(index + 1 == DISCORD_TRAILING_SILENCE_FRAMES);
        assert_eq!(state.events().len(), expected_event_count);
        assert_fake_packet(
            AEAD_AES256_GCM_RTPSIZE,
            &state.events()[index + 2],
            8 + index as u16,
            1920 + index as u32 * DISCORD_OPUS_TIMESTAMP_INCREMENT,
            &DISCORD_OPUS_SILENCE_FRAME,
            (21 + index as u32).to_be_bytes(),
            false,
        );
    }
    assert_eq!(
        state.events()[DISCORD_TRAILING_SILENCE_FRAMES + 2],
        VoiceOutboundSendEvent::Speaking { speaking: false, ssrc: 42 }
    );
    assert_eq!(state.rtp.sequence, 13);
    assert_eq!(state.rtp.timestamp, 5760);
    assert_eq!(state.nonce_suffix, 26);
}

#[test]
fn fake_outbound_stop_sends_speaking_off_when_capture_gate_closes() {
    let mut state = fake_outbound_state(AEAD_AES256_GCM_RTPSIZE, 20);
    state.set_capture_gate(true, false);
    assert_eq!(
        state.send_opus_frame(b"opus-frame").expect("frame should send"),
        VoiceOutboundSendOutcome::Sent
    );
    let event_count = state.events().len();
    let rtp = state.rtp;
    let nonce_suffix = state.nonce_suffix;

    state.set_capture_gate(true, true);
    assert_eq!(
        state.stop_speaking().expect("muted stop should send speaking off"),
        VoiceOutboundSendOutcome::Sent
    );
    assert_eq!(state.events().len(), event_count + 1);
    assert_eq!(
        state.events()[event_count],
        VoiceOutboundSendEvent::Speaking { speaking: false, ssrc: 42 }
    );
    assert_eq!(state.rtp, rtp);
    assert_eq!(state.nonce_suffix, nonce_suffix);

    state.speaking = true;
    state.set_capture_gate(false, false);
    assert_eq!(
        state.stop_speaking().expect("disallowed stop should send speaking off"),
        VoiceOutboundSendOutcome::Sent
    );
    assert_eq!(state.events().len(), event_count + 2);
    assert_eq!(
        state.events()[event_count + 1],
        VoiceOutboundSendEvent::Speaking { speaking: false, ssrc: 42 }
    );
    assert_eq!(state.rtp, rtp);
    assert_eq!(state.nonce_suffix, nonce_suffix);
}

#[test]
fn fake_outbound_trailing_silence_uses_dave_policy() {
    let mut dave = VoiceDaveState::new(&test_voice_gateway_session());
    dave.reinit(1, Ok(())).expect("DAVE session should initialize");
    let mut state = fake_outbound_state(AEAD_AES256_GCM_RTPSIZE, 20);
    state.set_capture_gate(true, false);
    state.speaking = true;
    let rtp = state.rtp;

    assert_eq!(
        state
            .send_trailing_silence_frame_with_dave_payload(
                dave.prepare_outbound_opus(&DISCORD_OPUS_SILENCE_FRAME, None),
                false,
            )
            .expect("DAVE not-ready silence should still send speaking off"),
        VoiceOutboundSendOutcome::Sent
    );
    assert_eq!(
        state.events(),
        &[VoiceOutboundSendEvent::Speaking { speaking: false, ssrc: 42 }]
    );
    assert_eq!(state.rtp, rtp);
    assert_eq!(state.nonce_suffix, 20);
    assert!(!state.speaking);
}

#[test]
fn fake_outbound_nonce_exhaustion_fails_without_state_change() {
    let mut state = fake_outbound_state(AEAD_AES256_GCM_RTPSIZE, u32::MAX);
    state.set_capture_gate(true, false);
    let rtp = state.rtp;

    assert_eq!(
        state.send_opus_frame(b"opus-frame").expect_err("exhausted nonce should fail"),
        "voice RTP nonce suffix exhausted"
    );
    assert!(state.events().is_empty());
    assert_eq!(state.rtp, rtp);
    assert_eq!(state.nonce_suffix, u32::MAX);

    let mut stopping = fake_outbound_state(AEAD_AES256_GCM_RTPSIZE, u32::MAX - 2);
    stopping.set_capture_gate(true, false);
    stopping.speaking = true;
    let rtp = stopping.rtp;
    assert_eq!(
        stopping.stop_speaking().expect("stop should still clear speaking"),
        VoiceOutboundSendOutcome::Sent
    );
    assert_eq!(
        stopping.events(),
        &[VoiceOutboundSendEvent::Speaking { speaking: false, ssrc: 42 }]
    );
    assert_eq!(stopping.rtp, rtp);
    assert_eq!(stopping.nonce_suffix, u32::MAX - 2);
    assert!(!stopping.speaking);
}

#[test]
fn stopping_is_announced_once() {
    let mut state = fake_outbound_state(AEAD_XCHACHA20_POLY1305_RTPSIZE, 0);
    state.set_capture_gate(true, false);
    assert_eq!(state.stop_speaking(), Ok(VoiceOutboundSendOutcome::Noop));
    assert_eq!(
        state.send_opus_frame_with_dave_payload(VoiceDaveOutboundPayload::Encrypted(vec![1])),
        Ok(VoiceOutboundSendOutcome::Sent)
    );
    assert_eq!(
        state.send_opus_frame(&[]).err().as_deref(),
        Some("voice RTP packet requires a non-empty Opus payload")
    );
    assert_eq!(state.stop_speaking(), Ok(VoiceOutboundSendOutcome::Sent));
    assert_eq!(state.stop_speaking(), Ok(VoiceOutboundSendOutcome::Noop));
    assert_eq!(
        state.send_trailing_silence_frame_with_dave_payload(
            VoiceDaveOutboundPayload::Plain(vec![1]),
            true,
        ),
        Ok(VoiceOutboundSendOutcome::Noop)
    );
    assert_eq!(state.events().len(), 3);
}

#[test]
fn voice_dave_state_tracks_speaking_ssrc_mapping() {
    let mut state = VoiceDaveState::new(&test_voice_gateway_session());

    state.record_speaking_state(VoiceSpeakingState {
        user_id: Some(30),
        ssrc: Some(1234),
        speaking: Some(1),
    });

    assert_eq!(state.ssrc_user_ids.get(&1234), Some(&30));
    assert_eq!(state.user_id_for_ssrc(1234), Some(UserId::new(30)));
    assert_eq!(state.user_id_for_ssrc(9999), None);
    assert!(state.known_user_ids.contains(&30));
}

#[test]
fn voice_dave_active_drops_non_dave_payloads() {
    let mut state = VoiceDaveState::new(&test_voice_gateway_session());
    state.reinit(1, Ok(())).expect("DAVE session should initialize");

    assert_eq!(
        state.unwrap_media_payload_for_ssrc(1234, b"plain-opus", Err("not asked".to_owned())),
        VoiceMediaPayload::DaveUnexpectedPlain { payload_len: 10 }
    );
}

#[test]
fn incoming_frames_are_unwrapped_by_the_session() {
    let frame = [0, 1, 2, 3, 4, 5, 6, 7, 8, 0xfa, 0xfa];
    let mut state = VoiceDaveState::new(&test_voice_gateway_session());
    let unread = || Err("not asked".to_owned());
    assert_eq!(
        state.unwrap_media_payload_for_ssrc(7, b"opus", unread()),
        VoiceMediaPayload::Plain(b"opus".to_vec())
    );
    state.reinit(1, Ok(())).expect("DAVE session should initialize");
    assert_eq!(
        state.unwrap_media_payload_for_ssrc(7, &frame, unread()),
        VoiceMediaPayload::DaveMissingUser { payload_len: 11 }
    );
    state.record_speaking_state(VoiceSpeakingState {
        user_id: Some(30),
        ssrc: Some(7),
        speaking: None,
    });
    assert_eq!(
        state.unwrap_media_payload_for_ssrc(7, &frame, unread()),
        VoiceMediaPayload::DaveNotReady { user_id: 30, payload_len: 11 }
    );
    state.session = DaveSession::Ready;
    assert_eq!(
        state.unwrap_media_payload_for_ssrc(7, &frame, Ok(b"opus".to_vec())),
        VoiceMediaPayload::DaveDecrypted { user_id: 30, opus: b"opus".to_vec() }
    );
    assert_eq!(
        state.unwrap_media_payload_for_ssrc(7, &frame, Err("bad tag".to_owned())),
        VoiceMediaPayload::DaveDecryptFailed { user_id: 30, message: "bad tag".to_owned() }
    );
    assert_eq!(
        state.prepare_outbound_opus(b"opus", Some(b"sealed".to_vec())),
        VoiceDaveOutboundPayload::Encrypted(b"sealed".to_vec())
    );
}

#[test]
fn voice_dave_outbound_opus_fails_closed_unless_ready() {
    let mut state = VoiceDaveState::new(&test_voice_gateway_session());

    assert_eq!(
        state.prepare_outbound_opus(b"opus-frame", None),
        VoiceDaveOutboundPayload::Plain(b"opus-frame".to_vec())
    );

    state.protocol_version = Some(1);
    assert_eq!(
        state.prepare_outbound_opus(b"opus-frame", None),
        VoiceDaveOutboundPayload::Blocked(VoiceOutboundSendBlockReason::DaveOutboundMissingSession)
    );

    state.reinit(1, Ok(())).expect("DAVE session should initialize");
    assert_eq!(
        state.prepare_outbound_opus(b"opus-frame", None),
        VoiceDaveOutboundPayload::Blocked(VoiceOutboundSendBlockReason::DaveOutboundNotReady)
    );

    state.reinit(0, Ok(())).expect("DAVE should disable cleanly");
    assert_eq!(
        state.prepare_outbound_opus(b"opus-frame", None),
        VoiceDaveOutboundPayload::Plain(b"opus-frame".to_vec())
    );
}

#[test]
fn voice_speaking_uses_microphone_bit_only() {
    assert!(!voice_speaking_microphone_active(0));
    assert!(voice_speaking_microphone_active(1));
    assert!(!voice_speaking_microphone_active(2));
    assert!(voice_speaking_microphone_active(5));
}

#[test]
fn dave_media_detection_requires_magic_marker() {
    assert!(!looks_like_dave_media_frame(b"opus-frame"));

    let mut payload = vec![0u8; DAVE_MIN_SUPPLEMENTAL_BYTES];
    let marker_start = payload.len() - DAVE_MAGIC_MARKER.len();
    payload[marker_start..].copy_from_slice(&DAVE_MAGIC_MARKER);

    assert!(looks_like_dave_media_frame(&payload));
}

#[test]
fn voice_playback_frame_uses_only_playable_media_payloads() {
    let header = RtpHeader {
        has_padding: false,
        marker: false,
        payload_type: DISCORD_VOICE_PAYLOAD_TYPE,
        sequence: 7,
        timestamp: 8,
        ssrc: 9,
        authenticated_header_len: 12,
        encrypted_extension_body_len: 0,
        payload_offset: 12,
    };
    let mapped_user_id = UserId::new(41);

    assert_eq!(
        voice_playback_frame(
            &VoiceMediaPayload::Plain(b"opus".to_vec()),
            &header,
            Some(mapped_user_id),
        ),
        Some(VoicePlaybackFrame {
            ssrc: 9,
            user_id: Some(mapped_user_id),
            sequence: 7,
            timestamp: 8,
            opus: b"opus".to_vec(),
        })
    );
    assert_eq!(
        voice_playback_frame(
            &VoiceMediaPayload::Plain(b"unmapped-opus".to_vec()),
            &header,
            None,
        ),
        Some(VoicePlaybackFrame {
            ssrc: 9,
            user_id: None,
            sequence: 7,
            timestamp: 8,
            opus: b"unmapped-opus".to_vec(),
        })
    );
    assert_eq!(
        voice_playback_frame(
            &VoiceMediaPayload::DaveDecrypted { user_id: 42, opus: b"dave-opus".to_vec() },
            &header,
            Some(mapped_user_id),
        ),
        Some(VoicePlaybackFrame {
            ssrc: 9,
            user_id: Some(UserId::new(42)),
            sequence: 7,
            timestamp: 8,
            opus: b"dave-opus".to_vec(),
        })
    );
    for payload in [
        VoiceMediaPayload::DaveUnexpectedPlain { payload_len: 4 },
        VoiceMediaPayload::DaveMissingUser { payload_len: 4 },
        VoiceMediaPayload::DaveNotReady { user_id: 42, payload_len: 4 },
        VoiceMediaPayload::DaveDecryptFailed { user_id: 42, message: "failed".to_owned() },
    ] {
        assert_eq!(voice_playback_frame(&payload, &header, Some(mapped_user_id)), None);
    }
}

#[test]
fn remote_speaking_activity_ignores_silence_and_unplayable_media() {
    assert!(!voice_media_payload_counts_as_remote_activity(
        &VoiceMediaPayload::Plain(DISCORD_OPUS_SILENCE_FRAME.to_vec()),
    ));
    assert!(!voice_media_payload_counts_as_remote_activity(
        &VoiceMediaPayload::DaveDecrypted {
            user_id: 42,
            opus: DISCORD_OPUS_SILENCE_FRAME.to_vec(),
        },
    ));
    assert!(!voice_media_payload_counts_as_remote_activity(
        &VoiceMediaPayload::DaveUnexpectedPlain { payload_len: 4 },
    ));
    assert!(!voice_media_payload_counts_as_remote_activity(
        &VoiceMediaPayload::DaveMissingUser { payload_len: 4 },
    ));
    assert!(!voice_media_payload_counts_as_remote_activity(
        &VoiceMediaPayload::DaveNotReady { user_id: 42, payload_len: 4 },
    ));
    assert!(!voice_media_payload_counts_as_remote_activity(
        &VoiceMediaPayload::DaveDecryptFailed { user_id: 42, message: "failed".to_owned() },
    ));
    assert!(voice_media_payload_counts_as_remote_activity(
        &VoiceMediaPayload::Plain(b"opus".to_vec()),
    ));
    assert!(voice_media_payload_counts_as_remote_activity(
        &VoiceMediaPayload::DaveDecrypted { user_id: 42, opus: b"opus".to_vec() },
    ));
}
