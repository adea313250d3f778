//! Voice sessions: what identifies a connection, what it reports, and what protects its media.
use crate::event::{AppEvent, VoiceConnectionStatus};
use crate::ids::{ChannelId, GuildId, UserId};
use crate::payload::VoiceScope;
use crate::text::{
    borrowed, debug_quoted, decimal, push_decimal, push_shown_number, push_shown_text, quoted,
    same_text, shown_number, shown_text, text_view,
};
use crate::voice::bytes::same_bytes;
use vstd::prelude::*;
use vstd::string::*;

verus! {

/// What becomes of a connection that ended.
#[derive(Clone, Copy, Debug, PartialEq, Eq, Structural)]
pub enum VoiceConnectionEnd {
    Reconnect,
    Stop,
}

/// What a connection reports to the runtime.
#[derive(Debug, PartialEq, Eq)]
pub enum VoiceRuntimeEvent {
    ConnectionEstablished { connection_id: u64 },
    ConnectionEnded {
        connection_id: u64,
        scope: VoiceScope,
        channel_id: ChannelId,
        session_id: String,
        endpoint: String,
        outcome: VoiceConnectionEnd,
    },
}

impl Clone for VoiceRuntimeEvent {
    fn clone(&self) -> (copy: Self)
        ensures
            copy == *self,
    {
        match self {
            VoiceRuntimeEvent::ConnectionEstablished { connection_id } => {
                VoiceRuntimeEvent::ConnectionEstablished { connection_id: *connection_id }
            },
            VoiceRuntimeEvent::ConnectionEnded {
                connection_id,
                scope,
                channel_id,
                session_id,
                endpoint,
                outcome,
            } => VoiceRuntimeEvent::ConnectionEnded {
                connection_id: *connection_id,
                scope: *scope,
                channel_id: *channel_id,
                session_id: session_id.clone(),
                endpoint: endpoint.clone(),
                outcome: *outcome,
            },
        }
    }
}

/// The audio devices in use, where they are not the default ones.
#[derive(Debug, PartialEq, Eq)]
pub struct VoiceAudioSources {
    pub input: Option<String>,
    pub output: Option<String>,
}

pub struct AudioSourcesView {
    pub input: Option<Seq<char>>,
    pub output: Option<Seq<char>>,
}

impl View for VoiceAudioSources {
    type V = AudioSourcesView;

    open spec fn view(&self) -> AudioSourcesView {
        AudioSourcesView { input: text_view(self.input), output: text_view(self.output) }
    }
}

impl Clone for VoiceAudioSources {
    fn clone(&self) -> (copy: Self)
        ensures
            copy@ == self@,
    {
        VoiceAudioSources { input: self.input.clone(), output: self.output.clone() }
    }
}

/// A connection to a voice gateway.
pub struct VoiceGatewaySession {
    pub connection_id: u64,
    pub scope: VoiceScope,
    pub channel_id: ChannelId,
    pub user_id: UserId,
    pub session_id: String,
    pub endpoint: String,
    pub token: String,
}

pub struct SessionView {
    pub connection_id: u64,
    pub scope: VoiceScope,
    pub channel_id: ChannelId,
    pub user_id: UserId,
    pub session_id: Seq<char>,
    pub endpoint: Seq<char>,
    pub token: Seq<char>,
}

impl View for VoiceGatewaySession {
    type V = SessionView;

    open spec fn view(&self) -> SessionView {
        SessionView {
            connection_id: self.connection_id,
            scope: self.scope,
            channel_id: self.channel_id,
            user_id: self.user_id,
            session_id: self.session_id@,
            endpoint: self.endpoint@,
            token: self.token@,
        }
    }
}

impl Clone for VoiceGatewaySession {
    fn clone(&self) -> (copy: Self)
        ensures
            copy@ == self@,
    {
        VoiceGatewaySession {
            connection_id: self.connection_id,
            scope: self.scope,
            channel_id: self.channel_id,
            user_id: self.user_id,
            session_id: self.session_id.clone(),
            endpoint: self.endpoint.clone(),
            token: self.token.clone(),
        }
    }
}

/// How a scope is shown.
pub open spec fn shown_scope(scope: VoiceScope) -> Seq<char> {
    match scope {
        VoiceScope::Guild(guild_id) => "Guild("@ + decimal(guild_id.value as nat) + ")"@,
        VoiceScope::Private(channel_id) => "Private("@ + decimal(channel_id.value as nat) + ")"@,
    }
}

fn push_shown_scope(out: &mut String, scope: VoiceScope)
    ensures
        final(out)@ == old(out)@ + shown_scope(scope),
{
    match scope {
        VoiceScope::Guild(guild_id) => {
            out.append("Guild(");
            push_decimal(out, guild_id.get());
        },
        VoiceScope::Private(channel_id) => {
            out.append("Private(");
            push_decimal(out, channel_id.get());
        },
    }
    out.append(")");
    assert(out@ =~= old(out)@ + shown_scope(scope));
}

impl SessionView {
    /// Two sessions are the same connection attempt or attempts with the same credentials.
    pub open spec fn same_credentials(self, other: SessionView) -> bool {
        &&& self.scope == other.scope
        &&& self.channel_id == other.channel_id
        &&& self.user_id == other.user_id
        &&& self.session_id == other.session_id
        &&& self.endpoint == other.endpoint
        &&& self.token == other.token
    }

    pub open spec fn matches_connection_end(
        self,
        connection_id: u64,
        scope: VoiceScope,
        channel_id: ChannelId,
        session_id: Seq<char>,
        endpoint: Seq<char>,
    ) -> bool {
        &&& self.connection_id == connection_id
        &&& self.scope == scope
        &&& self.channel_id == channel_id
        &&& self.session_id == session_id
        &&& self.endpoint == endpoint
    }

    /// How a session is shown: the session id and the token are left out.
    pub open spec fn debug_text(self) -> Seq<char> {
        "VoiceGatewaySession { connection_id: "@ + decimal(self.connection_id as nat)
            + ", scope: "@ + shown_scope(self.scope) + ", channel_id: "@ + decimal(
            self.channel_id.value as nat,
        ) + ", user_id: "@ + decimal(self.user_id.value as nat)
            + ", session_id: \"<redacted>\", endpoint: "@ + debug_quoted(self.endpoint)
            + ", token: \"<redacted>\" }"@
    }
}

impl PartialEq for VoiceGatewaySession {
    fn eq(&self, other: &Self) -> (same: bool) {
        self.scope == other.scope && self.channel_id == other.channel_id && self.user_id
            == other.user_id && same_text(&self.session_id, &other.session_id) && same_text(
            &self.endpoint,
            &other.endpoint,
        ) && same_text(&self.token, &other.token)
    }
}

impl vstd::std_specs::cmp::PartialEqSpecImpl for VoiceGatewaySession {
    open spec fn obeys_eq_spec() -> bool {
        true
    }

    open spec fn eq_spec(&self, other: &Self) -> bool {
        self@.same_credentials(other@)
    }
}

impl Eq for VoiceGatewaySession {

}

impl VoiceGatewaySession {
    pub fn connection_established_event(&self) -> (event: VoiceRuntimeEvent)
        ensures
            event == (VoiceRuntimeEvent::ConnectionEstablished {
                connection_id: self.connection_id,
            }),
    {
        VoiceRuntimeEvent::ConnectionEstablished { connection_id: self.connection_id }
    }

    /// Whether a reported end is the end of this connection, and not of an earlier one.
    pub fn matches_connection_end(
        &self,
        connection_id: u64,
        scope: VoiceScope,
        channel_id: ChannelId,
        session_id: &str,
        endpoint: &str,
    ) -> (matches: bool)
        ensures
            matches == self@.matches_connection_end(
                connection_id,
                scope,
                channel_id,
                session_id@,
                endpoint@,
            ),
    {
        self.connection_id == connection_id && self.scope == scope && self.channel_id == channel_id
            && same_text(&self.session_id, session_id) && same_text(&self.endpoint, endpoint)
    }

    pub fn connection_ended_event(&self, outcome: VoiceConnectionEnd) -> (event: VoiceRuntimeEvent)
        ensures
            event == (VoiceRuntimeEvent::ConnectionEnded {
                connection_id: self.connection_id,
                scope: self.scope,
                channel_id: self.channel_id,
                session_id: self.session_id,
                endpoint: self.endpoint,
                outcome,
            }),
    {
        VoiceRuntimeEvent::ConnectionEnded {
            connection_id: self.connection_id,
            scope: self.scope,
            channel_id: self.channel_id,
            session_id: self.session_id.clone(),
            endpoint: self.endpoint.clone(),
            outcome,
        }
    }

    /// What the interface is told of the connection's status.
    pub fn status_event(&self, status: VoiceConnectionStatus, message: String) -> (event: AppEvent)
        ensures
            event == (AppEvent::VoiceConnectionStatusChanged {
                scope: self.scope,
                channel_id: Some(self.channel_id),
                status,
                message: Some(message),
            }),
    {
        AppEvent::VoiceConnectionStatusChanged {
            scope: self.scope,
            channel_id: Some(self.channel_id),
            status,
            message: Some(message),
        }
    }

    /// What the interface is told of somebody who starts or stops speaking.
    pub fn speaking_event(&self, user_id: UserId, speaking: bool) -> (event: AppEvent)
        ensures
            event == (AppEvent::VoiceSpeakingUpdate {
                scope: self.scope,
                channel_id: self.channel_id,
                user_id,
                speaking,
            }),
    {
        AppEvent::VoiceSpeakingUpdate {
            scope: self.scope,
            channel_id: self.channel_id,
            user_id,
            speaking,
        }
    }

    /// The session as it may be logged.
    pub fn debug_text(&self) -> (text: String)
        ensures
            text@ == self@.debug_text(),
    {
        let mut text = "VoiceGatewaySession { connection_id: ".to_owned();
        push_decimal(&mut text, self.connection_id);
        text.append(", scope: ");
        push_shown_scope(&mut text, self.scope);
        text.append(", channel_id: ");
        push_decimal(&mut text, self.channel_id.get());
        text.append(", user_id: ");
        push_decimal(&mut text, self.user_id.get());
        text.append(", session_id: \"<redacted>\", endpoint: ");
        text.append(quoted(self.endpoint.as_str()).as_str());
        text.append(", token: \"<redacted>\" }");
        text
    }
}

/// What the interface is told where changed audio devices could not be used.
pub fn audio_sources_apply_failed_event(
    requested_sources: VoiceAudioSources,
    active_sources: VoiceAudioSources,
    message: String,
) -> (event: AppEvent)
    ensures
        event == (AppEvent::VoiceAudioSourcesApplyFailed {
            requested_input_source: requested_sources.input,
            requested_output_source: requested_sources.output,
            active_input_source: active_sources.input,
            active_output_source: active_sources.output,
            message,
        }),
{
    AppEvent::VoiceAudioSourcesApplyFailed {
        requested_input_source: requested_sources.input,
        requested_output_source: requested_sources.output,
        active_input_source: active_sources.input,
        active_output_source: active_sources.output,
        message,
    }
}

/// Somebody's voice state, as far as a connection is made from it.
pub struct VoiceStateInfo {
    pub guild_id: Option<GuildId>,
    pub channel_id: Option<ChannelId>,
    pub user_id: UserId,
    pub session_id: Option<String>,
}

/// How an optional secret is shown.
pub open spec fn shown_secret(present: bool) -> Seq<char> {
    if present {
        "Some(\"<redacted>\")"@
    } else {
        "None"@
    }
}

pub open spec fn voice_state_debug_text(
    guild_id: Option<GuildId>,
    channel_id: Option<ChannelId>,
    user_id: UserId,
    has_session: bool,
) -> Seq<char> {
    let guild = match guild_id {
        Some(guild_id) => Some(guild_id.value),
        None => None,
    };
    let channel = match channel_id {
        Some(channel_id) => Some(channel_id.value),
        None => None,
    };
    "VoiceStateInfo { guild_id: "@ + shown_number(guild) + ", channel_id: "@ + shown_number(channel)
        + ", user_id: "@ + decimal(user_id.value as nat) + ", session_id: "@ + shown_secret(
        has_session,
    ) + " }"@
}

impl VoiceStateInfo {
    /// The voice state as it may be logged.
    pub fn debug_text(&self) -> (text: String)
        ensures
            text@ == voice_state_debug_text(
                self.guild_id,
                self.channel_id,
                self.user_id,
                self.session_id is Some,
            ),
    {
        let guild = match self.guild_id {
            Some(guild_id) => Some(guild_id.value),
            None => None,
        };
        let channel = match self.channel_id {
            Some(channel_id) => Some(channel_id.value),
            None => None,
        };
        let mut text = "VoiceStateInfo { guild_id: ".to_owned();
        push_shown_number(&mut text, guild);
        text.append(", channel_id: ");
        push_shown_number(&mut text, channel);
        text.append(", user_id: ");
        push_decimal(&mut text, self.user_id.get());
        text.append(", session_id: ");
        text.append(
            if self.session_id.is_some() {
                "Some(\"<redacted>\")"
            } else {
                "None"
            },
        );
        text.append(" }");
        text
    }
}

/// How media is encoded and protected.
#[derive(PartialEq, Eq)]
pub struct VoiceSessionDescription {
    pub audio_codec: String,
    pub mode: String,
    pub secret_key: Vec<u8>,
    pub dave_protocol_version: Option<u64>,
    pub video_codec: Option<String>,
    pub media_session_id: String,
    pub keyframe_interval: Option<u64>,
}

pub struct DescriptionView {
    pub audio_codec: Seq<char>,
    pub mode: Seq<char>,
    pub secret_key: Seq<u8>,
    pub dave_protocol_version: Option<u64>,
    pub video_codec: Option<Seq<char>>,
    pub media_session_id: Seq<char>,
    pub keyframe_interval: Option<u64>,
}

impl View for VoiceSessionDescription {
    type V = DescriptionView;

    open spec fn view(&self) -> DescriptionView {
        DescriptionView {
            audio_codec: self.audio_codec@,
            mode: self.mode@,
            secret_key: self.secret_key@,
            dave_protocol_version: self.dave_protocol_version,
            video_codec: text_view(self.video_codec),
            media_session_id: self.media_session_id@,
            keyframe_interval: self.keyframe_interval,
        }
    }
}

impl Clone for VoiceSessionDescription {
    fn clone(&self) -> (copy: Self)
        ensures
            copy@ == self@,
    {
        let copy = VoiceSessionDescription {
            audio_codec: self.audio_codec.clone(),
            mode: self.mode.clone(),
            secret_key: self.secret_key.clone(),
            dave_protocol_version: self.dave_protocol_version,
            video_codec: self.video_codec.clone(),
            media_session_id: self.media_session_id.clone(),
            keyframe_interval: self.keyframe_interval,
        };
        assert(copy@.secret_key =~= self@.secret_key);
        copy
    }
}

impl DescriptionView {
    pub open spec fn uses_same_transport(self, other: DescriptionView) -> bool {
        self.mode == other.mode && self.secret_key == other.secret_key
    }

    /// How a description is shown: the key is left out but for its length.
    pub open spec fn debug_text(self) -> Seq<char> {
        "VoiceSessionDescription { audio_codec: "@ + debug_quoted(self.audio_codec) + ", mode: "@
            + debug_quoted(self.mode) + ", secret_key: \"<redacted>\", secret_key_len: "@ + decimal(
            self.secret_key.len(),
        ) + ", dave_protocol_version: "@ + shown_number(self.dave_protocol_version)
            + ", video_codec: "@ + shown_text(self.video_codec) + ", media_session_id: "@
            + debug_quoted(self.media_session_id) + ", keyframe_interval: "@ + shown_number(
            self.keyframe_interval,
        ) + " }"@
    }
}

impl VoiceSessionDescription {
    /// Whether media that is protected under one description is readable under the other.
    pub fn uses_same_transport(&self, other: &Self) -> (same: bool)
        ensures
            same == self@.uses_same_transport(other@),
    {
        same_text(&self.mode, &other.mode) && same_bytes(
            self.secret_key.as_slice(),
            other.secret_key.as_slice(),
        )
    }

    /// The description as it may be logged.
    pub fn debug_text(&self) -> (text: String)
        ensures
            text@ == self@.debug_text(),
    {
        let mut text = "VoiceSessionDescription { audio_codec: ".to_owned();
        text.append(quoted(self.audio_codec.as_str()).as_str());
        text.append(", mode: ");
        text.append(quoted(self.mode.as_str()).as_str());
        text.append(", secret_key: \"<redacted>\", secret_key_len: ");
        push_decimal(&mut text, self.secret_key.len() as u64);
        text.append(", dave_protocol_version: ");
        push_shown_number(&mut text, self.dave_protocol_version);
        text.append(", video_codec: ");
        push_shown_text(&mut text, borrowed(&self.video_codec));
        text.append(", media_session_id: ");
        text.append(quoted(self.media_session_id.as_str()).as_str());
        text.append(", keyframe_interval: ");
        push_shown_number(&mut text, self.keyframe_interval);
        text.append(" }");
        text
    }
}

/// The error where the client was built without broadcasting.
pub open spec fn broadcast_disabled_error() -> Seq<char> {
    "stream broadcasting requires the stream-broadcast feature"@
}

/// Whether streams can be broadcast: only where the client was built with broadcasting.
pub fn ensure_stream_broadcast_available(broadcast_built_in: bool) -> (available: Result<(), String>)
    ensures
        match available {
            Ok(_) => broadcast_built_in,
            Err(message) => !broadcast_built_in && message@ == broadcast_disabled_error(),
        },
{
    if broadcast_built_in {
        Ok(())
    } else {
        Err("stream broadcasting requires the stream-broadcast feature".to_owned())
    }
}

/// What is logged of a session depends neither on its session id nor on its token.
pub proof fn law_session_log_holds_no_secrets(a: SessionView, b: SessionView)
    requires
        a.connection_id == b.connection_id,
        a.scope == b.scope,
        a.channel_id == b.channel_id,
        a.user_id == b.user_id,
        a.endpoint == b.endpoint,
    ensures
        a.debug_text() == b.debug_text(),
{
}

/// What is logged of a description depends on its key only by the key's length.
pub proof fn law_description_log_holds_no_key(description: DescriptionView, key: Seq<u8>)
    requires
        key.len() == description.secret_key.len(),
    ensures
        (DescriptionView { secret_key: key, ..description }).debug_text()
            == description.debug_text(),
{
}

/// Sessions are compared by their credentials, whatever the number of the connection; it is
/// the number that tells a late end of an earlier connection apart.
pub proof fn law_sessions_compare_by_credentials(session: SessionView, connection_id: u64)
    ensures
        session.same_credentials(SessionView { connection_id, ..session }),
        session.matches_connection_end(
            connection_id,
            session.scope,
            session.channel_id,
            session.session_id,
            session.endpoint,
        ) <==> connection_id == session.connection_id,
{
}

/// A transport is reused exactly where neither the mode nor the key changes; nothing else
/// matters.
pub proof fn law_transport_is_mode_and_key(a: DescriptionView, b: DescriptionView)
    ensures
        a.uses_same_transport(a),
        a.uses_same_transport(b) == b.uses_same_transport(a),
        a.uses_same_transport(
            DescriptionView { mode: a.mode, secret_key: a.secret_key, ..b },
        ),
{
}

} // verus!
