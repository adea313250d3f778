//! Events that the client reports to its interface.
use crate::ids::{ChannelId, UserId};
use crate::message::{MessageInfo, MessageView};
use crate::payload::VoiceScope;
use vstd::prelude::*;

verus! {

/// How a voice connection is doing.
#[derive(Clone, Copy, Debug, PartialEq, Eq, Structural)]
pub enum VoiceConnectionStatus {
    Connecting,
    Connected,
    Reconnecting,
    Disconnected,
    Failed,
}

#[allow(inconsistent_fields)]
#[derive(Debug, PartialEq, Eq)]
pub enum AppEvent {
    MessageCreate { message: MessageInfo },
    GatewayError { message: String },
    VoiceConnectionStatusChanged {
        scope: VoiceScope,
        channel_id: Option<ChannelId>,
        status: VoiceConnectionStatus,
        message: Option<String>,
    },
    VoiceSpeakingUpdate {
        scope: VoiceScope,
        channel_id: ChannelId,
        user_id: UserId,
        speaking: bool,
    },
    VoiceAudioSourcesApplyFailed {
        requested_input_source: Option<String>,
        requested_output_source: Option<String>,
        active_input_source: Option<String>,
        active_output_source: Option<String>,
        message: String,
    },
    StreamPlaybackWindowReady { scope: VoiceScope, channel_id: ChannelId, user_id: UserId },
    StreamPlaybackEnded {
        scope: VoiceScope,
        channel_id: ChannelId,
        user_id: UserId,
        reconnecting: bool,
    },
    StreamBroadcastStarted { scope: VoiceScope, channel_id: ChannelId },
    StreamBroadcastAudioUnavailable { message: String },
    StreamBroadcastEnded { scope: VoiceScope, channel_id: ChannelId },
}

impl AppEvent {
    /// The message that the event reports as new.
    pub open spec fn new_message(self) -> Option<MessageView> {
        match self {
            AppEvent::MessageCreate { message } => Some(message@),
            _ => None,
        }
    }
}

} // verus!
