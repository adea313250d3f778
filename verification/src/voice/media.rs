//! Incoming media: what can be played, and what counts as somebody speaking.
use crate::ids::UserId;
use crate::voice::bytes::{copy_range, same_bytes};
use crate::voice::rtp::{RtpHeader, DISCORD_OPUS_SILENCE_FRAME};
use vstd::prelude::*;

verus! {

/// The fewest bytes that end-to-end encryption adds to a frame.
pub const DAVE_MIN_SUPPLEMENTAL_BYTES: usize = 11;

/// The bytes that an end-to-end encrypted frame ends in.
pub const DAVE_MAGIC_MARKER: [u8; 2] = [0xfa, 0xfa];

/// Speaking flag of the microphone.
pub const SPEAKING_MICROPHONE: u64 = 1;

/// Whether the speaking flags are those of somebody whose microphone is on. Other sources of
/// sound do not count.
pub fn voice_speaking_microphone_active(flags: u64) -> (active: bool)
    ensures
        active == (flags & SPEAKING_MICROPHONE != 0),
{
    flags & SPEAKING_MICROPHONE != 0
}

pub open spec fn spec_looks_like_dave(payload: Seq<u8>) -> bool {
    &&& payload.len() >= DAVE_MIN_SUPPLEMENTAL_BYTES
    &&& payload[payload.len() - 2] == 0xfa
    &&& payload[payload.len() - 1] == 0xfa
}

/// Whether a frame looks like one that is end-to-end encrypted.
pub fn looks_like_dave_media_frame(payload: &[u8]) -> (dave: bool)
    ensures
        dave == spec_looks_like_dave(payload@),
{
    payload.len() >= DAVE_MIN_SUPPLEMENTAL_BYTES && payload[payload.len() - 2]
        == DAVE_MAGIC_MARKER[0] && payload[payload.len() - 1] == DAVE_MAGIC_MARKER[1]
}

/// An incoming frame after end-to-end encryption has had its say.
#[derive(Debug, PartialEq, Eq)]
pub enum VoiceMediaPayload {
    Plain(Vec<u8>),
    DaveDecrypted { user_id: u64, opus: Vec<u8> },
    DaveUnexpectedPlain { payload_len: usize },
    DaveMissingUser { payload_len: usize },
    DaveNotReady { user_id: u64, payload_len: usize },
    DaveDecryptFailed { user_id: u64, message: String },
}

pub enum MediaView {
    Plain(Seq<u8>),
    DaveDecrypted { user_id: u64, opus: Seq<u8> },
    DaveUnexpectedPlain { payload_len: usize },
    DaveMissingUser { payload_len: usize },
    DaveNotReady { user_id: u64, payload_len: usize },
    DaveDecryptFailed { user_id: u64, message: Seq<char> },
}

impl View for VoiceMediaPayload {
    type V = MediaView;

    open spec fn view(&self) -> MediaView {
        match *self {
            VoiceMediaPayload::Plain(opus) => MediaView::Plain(opus@),
            VoiceMediaPayload::DaveDecrypted { user_id, opus } => MediaView::DaveDecrypted {
                user_id,
                opus: opus@,
            },
            VoiceMediaPayload::DaveUnexpectedPlain { payload_len } => {
                MediaView::DaveUnexpectedPlain { payload_len }
            },
            VoiceMediaPayload::DaveMissingUser { payload_len } => MediaView::DaveMissingUser {
                payload_len,
            },
            VoiceMediaPayload::DaveNotReady { user_id, payload_len } => MediaView::DaveNotReady {
                user_id,
                payload_len,
            },
            VoiceMediaPayload::DaveDecryptFailed { user_id, message } => {
                MediaView::DaveDecryptFailed { user_id, message: message@ }
            },
        }
    }
}

impl MediaView {
    /// The frame to play, for a packet with `header` of a source that is mapped to `mapped`.
    pub open spec fn playback(self, header: RtpHeader, mapped: Option<UserId>) -> Option<
        PlaybackFrameView,
    > {
        match self {
            MediaView::Plain(opus) => Some(
                PlaybackFrameView {
                    ssrc: header.ssrc,
                    user_id: mapped,
                    sequence: header.sequence,
                    timestamp: header.timestamp,
                    opus,
                },
            ),
            MediaView::DaveDecrypted { user_id, opus } => Some(
                PlaybackFrameView {
                    ssrc: header.ssrc,
                    user_id: Some(UserId { value: user_id }),
                    sequence: header.sequence,
                    timestamp: header.timestamp,
                    opus,
                },
            ),
            _ => None,
        }
    }

    /// Whether the frame shows that somebody speaks.
    pub open spec fn counts_as_activity(self) -> bool {
        match self {
            MediaView::Plain(opus) => opus != seq![0xf8u8, 0xffu8, 0xfeu8],
            MediaView::DaveDecrypted { user_id, opus } => opus != seq![0xf8u8, 0xffu8, 0xfeu8],
            _ => false,
        }
    }
}

impl VoiceMediaPayload {
    /// The frame that can be played.
    pub open spec fn playable(self) -> Option<Seq<u8>> {
        match self {
            VoiceMediaPayload::Plain(opus) => Some(opus@),
            VoiceMediaPayload::DaveDecrypted { user_id, opus } => Some(opus@),
            _ => None,
        }
    }
}

/// A frame on its way to the speakers.
#[derive(Debug, PartialEq, Eq)]
pub struct VoicePlaybackFrame {
    pub ssrc: u32,
    pub user_id: Option<UserId>,
    pub sequence: u16,
    pub timestamp: u32,
    pub opus: Vec<u8>,
}

pub struct PlaybackFrameView {
    pub ssrc: u32,
    pub user_id: Option<UserId>,
    pub sequence: u16,
    pub timestamp: u32,
    pub opus: Seq<u8>,
}

impl View for VoicePlaybackFrame {
    type V = PlaybackFrameView;

    open spec fn view(&self) -> PlaybackFrameView {
        PlaybackFrameView {
            ssrc: self.ssrc,
            user_id: self.user_id,
            sequence: self.sequence,
            timestamp: self.timestamp,
            opus: self.opus@,
        }
    }
}

pub open spec fn frame_view(frame: Option<VoicePlaybackFrame>) -> Option<PlaybackFrameView> {
    match frame {
        Some(frame) => Some(frame@),
        None => None,
    }
}

/// Whose frame it is: decryption knows, else whoever the source is mapped to.
pub open spec fn frame_user(payload: VoiceMediaPayload, mapped: Option<UserId>) -> Option<UserId> {
    match payload {
        VoiceMediaPayload::DaveDecrypted { user_id, opus } => Some(UserId { value: user_id }),
        _ => mapped,
    }
}

/// The frame to play, where the payload can be played.
pub fn voice_playback_frame(
    payload: &VoiceMediaPayload,
    header: &RtpHeader,
    mapped_user_id: Option<UserId>,
) -> (frame: Option<VoicePlaybackFrame>)
    ensures
        frame_view(frame) == match payload.playable() {
            Some(opus) => Some(
                PlaybackFrameView {
                    ssrc: header.ssrc,
                    user_id: frame_user(*payload, mapped_user_id),
                    sequence: header.sequence,
                    timestamp: header.timestamp,
                    opus,
                },
            ),
            None => None,
        },
        frame_view(frame) == payload@.playback(*header, mapped_user_id),
{
    let (user_id, opus) = match payload {
        VoiceMediaPayload::Plain(opus) => (mapped_user_id, opus),
        VoiceMediaPayload::DaveDecrypted { user_id, opus } => (Some(UserId::new(*user_id)), opus),
        _ => return None,
    };
    let copy = copy_range(opus.as_slice(), 0, opus.len());
    assert(copy@ =~= opus@);
    Some(
        VoicePlaybackFrame {
            ssrc: header.ssrc,
            user_id,
            sequence: header.sequence,
            timestamp: header.timestamp,
            opus: copy,
        },
    )
}

/// Whether a frame shows that somebody speaks: it can be played, and it is not silence.
pub fn voice_media_payload_counts_as_remote_activity(payload: &VoiceMediaPayload) -> (counts: bool)
    ensures
        counts == match payload.playable() {
            Some(opus) => opus != seq![0xf8u8, 0xffu8, 0xfeu8],
            None => false,
        },
        counts == payload@.counts_as_activity(),
{
    let opus = match payload {
        VoiceMediaPayload::Plain(opus) => opus,
        VoiceMediaPayload::DaveDecrypted { user_id: _, opus } => opus,
        _ => return false,
    };
    let silence = DISCORD_OPUS_SILENCE_FRAME;
    assert(silence@ =~= seq![0xf8u8, 0xffu8, 0xfeu8]);
    !same_bytes(opus.as_slice(), silence.as_slice())
}

} // verus!
