use discord_core::event::{AppEvent, VoiceConnectionStatus};
use discord_core::ids::{ChannelId, GuildId, UserId};
use discord_core::payload::VoiceScope;
use discord_core::voice::gateway::{
    parse_udp_ping_response, udp_ping_request, voice_close_action, voice_gateway_url,
    VoiceCloseAction,
};
use discord_core::voice::pacing::{
    VoiceHeartbeatAckState, VoiceTrailingSilence, DISCORD_TRAILING_SILENCE_FRAMES,
};
use discord_core::voice::session::{
    audio_sources_apply_failed_event, ensure_stream_broadcast_available, VoiceAudioSources,
    VoiceConnectionEnd, VoiceGatewaySession, VoiceRuntimeEvent, VoiceSessionDescription,
    VoiceStateInfo,
};
use discord_core::voice::speaking::{VoiceSpeakingTracker, VOICE_REMOTE_SPEAKING_TTL_MILLIS};
use discord_core::voice::tasks::{
    AbortActions, AudioSourcesPlan, ManagedTask, MicrophonePlan, TransmitGateOutcome,
    TransmitStop, TransmitWait, VoiceCaptureGate, VoiceChildTasks, VoicePlaybackGate,
};
use discord_core::voice::time::MonotonicTime;

fn session(session_id: &str, token: &str) -> VoiceGatewaySession {
    VoiceGatewaySession {
        connection_id: 0,
        scope: VoiceScope::Guild(GuildId::new(1)),
        channel_id: ChannelId::new(10),
        user_id: UserId::new(20),
        session_id: session_id.to_owned(),
        endpoint: "voice.example.com".to_owned(),
        token: token.to_owned(),
    }
}

fn gate(capture_enabled: bool) -> VoiceCaptureGate {
    VoiceCaptureGate {
        transmit_epoch: 0,
        capture_enabled,
        transmit_enabled: capture_enabled,
        use_voice_activity: true,
        noise_suppression: false,
        microphone_buffer_ms: Some(40),
        microphone_sensitivity: -30,
        microphone_volume: 100,
    }
}

#[test]
fn voice_close_codes_follow_reconnect_policy() {
    assert_eq!(voice_close_action(4013), VoiceCloseAction::Resume);
    assert_eq!(voice_close_action(4015), VoiceCloseAction::Resume);
    assert_eq!(voice_close_action(4006), VoiceCloseAction::Reconnect);
    assert_eq!(voice_close_action(4009), VoiceCloseAction::Reconnect);
    for code in [4014, 4021, 4022] {
        assert_eq!(voice_close_action(code), VoiceCloseAction::Stop);
    }
}

#[test]
fn voice_debug_output_redacts_gateway_and_state_secrets() {
    let debug = session("secret-session", "secret-token").debug_text();

    assert!(debug.contains("<redacted>"));
    assert!(!debug.contains("secret-session"));
    assert!(!debug.contains("secret-token"));
    assert_eq!(
        debug,
        "VoiceGatewaySession { connection_id: 0, scope: Guild(1), channel_id: 10, user_id: 20, \
         session_id: \"<redacted>\", endpoint: \"voice.example.com\", token: \"<redacted>\" }"
    );

    let state = VoiceStateInfo {
        guild_id: Some(GuildId::new(1)),
        channel_id: Some(ChannelId::new(10)),
        user_id: UserId::new(10),
        session_id: Some("voice-session".to_owned()),
    };
    let debug = state.debug_text();

    assert!(debug.contains("<redacted>"));
    assert!(!debug.contains("voice-session"));
    assert_eq!(
        debug,
        "VoiceStateInfo { guild_id: Some(1), channel_id: Some(10), user_id: 10, \
         session_id: Some(\"<redacted>\") }"
    );
}

fn description() -> VoiceSessionDescription {
    VoiceSessionDescription {
        audio_codec: "opus".to_owned(),
        mode: "aead_xchacha20_poly1305_rtpsize".to_owned(),
        secret_key: vec![1, 2, 3],
        dave_protocol_version: Some(1),
        video_codec: None,
        media_session_id: "media-session".to_owned(),
        keyframe_interval: Some(1_000),
    }
}

#[test]
fn voice_session_description_reuses_only_the_same_transport_key_and_mode() {
    let current = description();

    for (next, expected) in [
        (
            VoiceSessionDescription { dave_protocol_version: Some(2), ..current.clone() },
            true,
        ),
        (
            VoiceSessionDescription { secret_key: vec![4, 5, 6], ..current.clone() },
            false,
        ),
        (
            VoiceSessionDescription {
                mode: "aead_aes256_gcm_rtpsize".to_owned(),
                ..current.clone()
            },
            false,
        ),
    ] {
        assert_eq!(
            current.uses_same_transport(&next),
            expected,
            "{}",
            next.debug_text()
        );
    }
}

#[test]
fn descriptions_are_logged_without_their_key() {
    let text = VoiceSessionDescription {
        video_codec: Some("H\"264".to_owned()),
        keyframe_interval: None,
        ..description()
    }
    .debug_text();
    assert_eq!(
        text,
        "VoiceSessionDescription { audio_codec: \"opus\", \
         mode: \"aead_xchacha20_poly1305_rtpsize\", secret_key: \"<redacted>\", \
         secret_key_len: 3, dave_protocol_version: Some(1), video_codec: Some(\"H\\\"264\"), \
         media_session_id: \"media-session\", keyframe_interval: None }"
    );
}

#[test]
fn sessions_compare_by_credentials() {
    let first = session("one", "token");
    let mut second = session("one", "token");
    second.connection_id = 5;
    assert!(first == second);
    assert!(first != session("two", "token"));
    assert!(first != session("one", "other"));

    assert_eq!(
        second.connection_established_event(),
        VoiceRuntimeEvent::ConnectionEstablished { connection_id: 5 }
    );
    let VoiceRuntimeEvent::ConnectionEnded {
        connection_id,
        scope,
        channel_id,
        session_id,
        endpoint,
        outcome,
    } = second.connection_ended_event(VoiceConnectionEnd::Stop)
    else {
        panic!("an end should be reported");
    };
    assert_eq!(outcome, VoiceConnectionEnd::Stop);
    assert!(second.matches_connection_end(connection_id, scope, channel_id, &session_id, &endpoint));
    assert!(!first.matches_connection_end(connection_id, scope, channel_id, &session_id, &endpoint));
    assert!(!second.matches_connection_end(connection_id, scope, channel_id, "two", &endpoint));
}

#[test]
fn sessions_report_under_their_scope() {
    let session = session("one", "token");
    assert_eq!(
        session.status_event(VoiceConnectionStatus::Connected, "ready".to_owned()),
        AppEvent::VoiceConnectionStatusChanged {
            scope: VoiceScope::Guild(GuildId::new(1)),
            channel_id: Some(ChannelId::new(10)),
            status: VoiceConnectionStatus::Connected,
            message: Some("ready".to_owned()),
        }
    );
    assert_eq!(
        session.speaking_event(UserId::new(30), true),
        AppEvent::VoiceSpeakingUpdate {
            scope: VoiceScope::Guild(GuildId::new(1)),
            channel_id: ChannelId::new(10),
            user_id: UserId::new(30),
            speaking: true,
        }
    );
    let sources = |input: &str| VoiceAudioSources { input: Some(input.to_owned()), output: None };
    assert_eq!(
        audio_sources_apply_failed_event(sources("new"), sources("old"), "busy".to_owned()),
        AppEvent::VoiceAudioSourcesApplyFailed {
            requested_input_source: Some("new".to_owned()),
            requested_output_source: None,
            active_input_source: Some("old".to_owned()),
            active_output_source: None,
            message: "busy".to_owned(),
        }
    );
}

#[test]
fn broadcasting_needs_its_feature() {
    assert_eq!(ensure_stream_broadcast_available(true), Ok(()));
    assert_eq!(
        ensure_stream_broadcast_available(false).err().as_deref(),
        Some("stream broadcasting requires the stream-broadcast feature")
    );
}

#[test]
fn voice_speaking_tracker_keeps_local_and_remote_activity_separate() {
    let remote_user = UserId::new(30);
    let local_user = UserId::new(20);
    let mut tracker = VoiceSpeakingTracker::new(local_user);
    let ttl = VOICE_REMOTE_SPEAKING_TTL_MILLIS * 1_000_000;
    let now = MonotonicTime { nanos: 7_000_000_000 };
    let after = |nanos: u64| MonotonicTime { nanos: now.nanos + nanos };

    assert_eq!(tracker.record_remote(local_user, true, now), None);
    assert!(tracker.remote_deadlines.is_empty());
    assert_eq!(tracker.record_remote(remote_user, true, now), Some(true));
    assert_eq!(tracker.record_remote(remote_user, true, after(ttl / 2)), None);
    assert!(tracker.expire_remote(after(ttl)).is_empty());
    assert_eq!(tracker.expire_remote(after(ttl + ttl / 2)), vec![remote_user]);
    assert_eq!(tracker.record_remote(remote_user, false, now), None);
    assert_eq!(tracker.record_remote(remote_user, true, now), Some(true));
    assert_eq!(tracker.record_remote(remote_user, false, now), Some(false));

    assert_eq!(tracker.record_local(true), Some(true));
    assert_eq!(tracker.record_local(true), None);
    assert_eq!(tracker.clear_all(), vec![local_user]);
}

#[test]
fn clearing_names_everybody_once() {
    let mut tracker = VoiceSpeakingTracker::new(UserId::new(20));
    let now = MonotonicTime { nanos: 0 };
    for user in [30, 40, 50] {
        assert_eq!(tracker.record_remote(UserId::new(user), true, now), Some(true));
    }
    tracker.record_local(true);
    let mut cleared = tracker.clear_all();
    assert_eq!(cleared.last(), Some(&UserId::new(20)));
    cleared.sort();
    assert_eq!(
        cleared,
        vec![UserId::new(20), UserId::new(30), UserId::new(40), UserId::new(50)]
    );
    assert!(tracker.clear_all().is_empty());
}

#[test]
fn trailing_silence_is_paced_and_can_be_cancelled() {
    let mut tail = VoiceTrailingSilence::default();

    tail.start(true);
    for index in 0..DISCORD_TRAILING_SILENCE_FRAMES {
        assert_eq!(
            tail.take_frame(),
            Some(index + 1 == DISCORD_TRAILING_SILENCE_FRAMES)
        );
    }
    assert_eq!(tail.take_frame(), None);

    tail.start(true);
    assert_eq!(tail.take_frame(), Some(false));
    tail.cancel();
    assert_eq!(tail.take_frame(), None);

    tail.start(false);
    assert_eq!(tail.take_frame(), None);
}

#[test]
fn one_heartbeat_is_awaited_at_a_time() {
    let mut heartbeat_ack = VoiceHeartbeatAckState::default();
    assert!(heartbeat_ack.mark_sent());
    assert!(!heartbeat_ack.mark_sent());
    heartbeat_ack.mark_acknowledged();
    assert!(heartbeat_ack.mark_sent());
    heartbeat_ack.reset();
    assert!(heartbeat_ack.mark_sent());
}

#[test]
fn voice_gateway_url_normalizes_endpoint() {
    assert_eq!(
        voice_gateway_url("voice.example.com:2048/").as_deref(),
        Ok("wss://voice.example.com:2048/?v=9")
    );
    assert_eq!(
        voice_gateway_url("wss://voice.example.com").as_deref(),
        Ok("wss://voice.example.com/?v=9")
    );
    assert_eq!(
        voice_gateway_url("https://voice.example.com").as_deref(),
        Ok("wss://voice.example.com/?v=9")
    );
    assert_eq!(
        voice_gateway_url("   /").expect_err("empty endpoint should be rejected"),
        "voice endpoint is empty"
    );
    assert_eq!(
        voice_gateway_url("\u{2003}voice.example.com//\n").as_deref(),
        Ok("wss://voice.example.com/?v=9")
    );
}

#[test]
fn udp_ping_uses_documented_magic_and_echoed_sequence() {
    let request = udp_ping_request(0x0102_0304);
    let response = [0x13, 0x37, 0xf0, 0x0d, 0x01, 0x02, 0x03, 0x04];

    assert_eq!(request, [0x13, 0x37, 0xca, 0xfe, 0x01, 0x02, 0x03, 0x04]);
    assert_eq!(parse_udp_ping_response(&response), Some(0x0102_0304));
    assert_eq!(parse_udp_ping_response(&request), None);
    assert_eq!(parse_udp_ping_response(&response[..7]), None);
}

#[test]
fn microphone_capture_requires_enabled_transmit_destination() {
    for (capture_enabled, has_destination) in [(false, false), (true, false), (false, true)] {
        let mut child_tasks = VoiceChildTasks::default();
        child_tasks.microphone_pcm = has_destination;
        let capture_gate = gate(capture_enabled);

        assert_eq!(child_tasks.transmit_gate_plan(capture_gate), MicrophonePlan::Keep);
        assert_eq!(
            child_tasks.set_voice_transmit_gate(capture_gate, Ok(())),
            TransmitGateOutcome { told: None, error: None }
        );
        assert!(!child_tasks.microphone_capture);
        assert!(child_tasks.microphone_buffer_ms.is_none());

        let sources = VoiceAudioSources {
            input: Some("selected microphone".to_owned()),
            output: None,
        };
        assert_eq!(
            child_tasks.audio_sources_plan(&sources, capture_gate),
            AudioSourcesPlan { start_microphone: false, start_output: false }
        );
        let outcome = child_tasks.set_voice_audio_sources(
            sources.clone(),
            capture_gate,
            Err("not asked".to_owned()),
            Err("not asked".to_owned()),
        );
        assert_eq!(outcome.active_sources, sources);
        assert_eq!(outcome.error, None);
        assert!(!child_tasks.microphone_capture);
        assert_eq!(child_tasks.microphone_pcm, has_destination);
    }
}

#[test]
fn captures_start_restart_and_stop() {
    let mut tasks = VoiceChildTasks::default();
    tasks.install_udp_transmit(gate(true));
    assert_eq!(tasks.microphone_plan(true, Some(40)), MicrophonePlan::Start);
    assert_eq!(
        tasks.set_microphone_capture_enabled(true, Some(40), Err("no device".to_owned())),
        Some("voice microphone capture unavailable: no device".to_owned())
    );
    assert!(!tasks.microphone_capture);
    assert_eq!(tasks.set_microphone_capture_enabled(true, Some(40), Ok(())), None);
    assert!(tasks.microphone_capture);
    assert_eq!(tasks.microphone_plan(true, Some(40)), MicrophonePlan::Keep);
    assert_eq!(tasks.microphone_plan(true, None), MicrophonePlan::Replace);
    assert_eq!(
        tasks.set_microphone_capture_enabled(true, None, Err("busy".to_owned())),
        Some(
            "voice microphone buffer change failed; previous capture remains active: busy"
                .to_owned()
        )
    );
    assert_eq!(tasks.microphone_buffer_ms, Some(40));
    assert_eq!(tasks.microphone_plan(false, None), MicrophonePlan::Stop);
    assert_eq!(tasks.set_microphone_capture_enabled(false, None, Ok(())), None);
    assert!(!tasks.microphone_capture);
}

#[test]
fn epochs_count_transmit_changes() {
    let mut tasks = VoiceChildTasks::default();
    tasks.install_udp_transmit(VoiceCaptureGate { transmit_epoch: u64::MAX, ..gate(true) });
    assert_eq!(tasks.transmit_gate_plan(gate(true)), MicrophonePlan::Start);
    let outcome = tasks.set_voice_transmit_gate(gate(true), Ok(()));
    assert_eq!(outcome.told.expect("a task is told").transmit_epoch, u64::MAX);
    assert!(tasks.microphone_capture);
    assert_eq!(tasks.microphone_buffer_ms, Some(40));
    assert_eq!(tasks.transmit_gate_told(gate(false)), Some(gate(false)));
    assert_eq!(tasks.transmit_gate_plan(gate(false)), MicrophonePlan::Stop);
    let outcome = tasks.set_voice_transmit_gate(gate(false), Ok(()));
    assert_eq!(outcome.told, Some(gate(false)));
    assert!(!tasks.microphone_capture);
    let outcome = tasks.set_voice_transmit_gate(
        VoiceCaptureGate { capture_enabled: true, ..gate(false) },
        Err("no device".to_owned()),
    );
    assert_eq!(
        outcome.error.as_deref(),
        Some("voice microphone capture unavailable: no device")
    );
    tasks.set_voice_transmit_gate(gate(false), Ok(()));
    let stop = tasks.stop_udp_transmit_gracefully();
    assert_eq!(
        stop,
        TransmitStop {
            wait: true,
            gate: Some(VoiceCaptureGate { transmit_epoch: 1, ..gate(false) }),
        }
    );
    assert_eq!(
        tasks.stop_udp_transmit_gracefully(),
        TransmitStop { wait: false, gate: None }
    );
    assert!(TransmitWait::TimedOut.needs_abort());
    assert!(!TransmitWait::Finished.needs_abort());
    assert!(!TransmitWait::Failed.needs_abort());
}

#[test]
fn device_errors_are_reported_together() {
    let mut tasks = VoiceChildTasks::default();
    tasks.install_udp_transmit(gate(true));
    tasks.replace_opus_decode(true, VoicePlaybackGate { enabled: true, volume: 80 });
    let sources = |name: &str| VoiceAudioSources {
        input: Some(format!("{} in", name)),
        output: Some(format!("{} out", name)),
    };
    let first = tasks.set_voice_audio_sources(sources("first"), gate(true), Ok(()), Ok(()));
    assert_eq!(first.active_sources, sources("first"));
    assert_eq!(first.error, None);
    assert!(tasks.microphone_capture);
    assert_eq!(
        tasks.audio_sources_plan(&sources("second"), gate(false)),
        AudioSourcesPlan { start_microphone: true, start_output: true }
    );
    let second = tasks.set_voice_audio_sources(
        sources("second"),
        gate(true),
        Err("gone".to_owned()),
        Err("busy".to_owned()),
    );
    assert_eq!(second.active_sources, sources("first"));
    assert_eq!(
        second.error.as_deref(),
        Some(
            "Could not switch voice input source. The previous source remains active: gone \
             Could not switch voice output source. The previous source remains active: busy"
        )
    );
}

#[test]
fn teardown_aborts_what_runs() {
    let mut tasks = VoiceChildTasks::default();
    assert!(!tasks.replace_heartbeat());
    assert!(tasks.replace_heartbeat());
    assert!(!tasks.replace_udp_ping());
    assert!(!tasks.replace_udp_receive());
    tasks.install_udp_transmit(gate(true));
    let replaced = tasks.replace_opus_decode(true, VoicePlaybackGate { enabled: true, volume: 80 });
    assert!(!replaced.detach_output);
    assert!(!replaced.abort_previous);
    let replaced = tasks.replace_opus_decode(false, VoicePlaybackGate { enabled: true, volume: 80 });
    assert!(replaced.detach_output);
    assert!(replaced.abort_previous);
    tasks.set_voice_playback_gate(VoicePlaybackGate { enabled: false, volume: 30 });
    assert_eq!(tasks.playback_enabled, Some(false));
    assert_eq!(tasks.playback_volume, Some(30));
    assert_eq!(tasks.heartbeat.label, "voice heartbeat task");
    assert_eq!(
        tasks.heartbeat.abort_log().as_deref(),
        Some("aborting voice heartbeat task")
    );

    assert_eq!(
        tasks.abort_all(),
        AbortActions {
            heartbeat: true,
            udp_ping: true,
            udp_receive: true,
            udp_transmit: true,
            gate: Some(VoiceCaptureGate {
                transmit_epoch: 1,
                capture_enabled: false,
                transmit_enabled: false,
                ..gate(true)
            }),
            opus_decode: true,
            detach_output: true,
        }
    );
    assert_eq!(
        tasks.abort_all(),
        AbortActions {
            heartbeat: false,
            udp_ping: false,
            udp_receive: false,
            udp_transmit: false,
            gate: None,
            opus_decode: false,
            detach_output: false,
        }
    );
    tasks.set_voice_playback_gate(VoicePlaybackGate { enabled: true, volume: 30 });
    assert_eq!(tasks.playback_enabled, None);
}

#[test]
fn outputs_are_replaced_only_where_something_is_decoded() {
    let mut tasks = VoiceChildTasks::default();
    assert_eq!(tasks.replace_voice_audio_output(Err("not asked".to_owned())), Ok(()));
    assert!(!tasks.audio_output);
    tasks.replace_opus_decode(false, VoicePlaybackGate { enabled: true, volume: 80 });
    assert_eq!(
        tasks.replace_voice_audio_output(Err("busy".to_owned())),
        Err("busy".to_owned())
    );
    assert!(!tasks.audio_output);
    assert_eq!(tasks.replace_voice_audio_output(Ok(())), Ok(()));
    assert!(tasks.audio_output);
}

#[test]
fn slots_log_under_their_label() {
    let mut slot = ManagedTask::new("voice UDP ping task");
    assert_eq!(slot.replace_log(), None);
    assert_eq!(slot.abort_log(), None);
    assert!(!slot.replace());
    assert_eq!(slot.replace_log().as_deref(), Some("aborting previous voice UDP ping task"));
    assert_eq!(slot.abort_log().as_deref(), Some("aborting voice UDP ping task"));
    assert!(slot.replace());
    assert!(slot.abort());
    assert!(!slot.abort());
    assert_eq!(slot.label, "voice UDP ping task");
    assert_eq!(slot.abort_log(), None);
}

#[test]
fn white_space_is_trimmed_as_unicode_counts_it() {
    for code in 0..=0x10_ffff_u32 {
        let Some(c) = char::from_u32(code) else {
            continue;
        };
        let expected = if c.is_whitespace() {
            "wss://host/?v=9".to_owned()
        } else {
            format!("wss://{}host/?v=9", c)
        };
        assert_eq!(voice_gateway_url(&format!("{}host", c)), Ok(expected), "{:x}", code);
    }
}

#[test]
fn copies_hold_what_was_copied() {
    let session = session("one", "token");
    assert!(session.clone() == session);
    assert_eq!(session.clone().debug_text(), session.debug_text());
    let event = session.connection_ended_event(VoiceConnectionEnd::Reconnect);
    assert_eq!(event.clone(), event);
    assert!(description().clone() == description());
}
