//! What becomes of incoming frames.
use crate::ids::UserId;
use crate::voice::dave::{DaveSession, DaveView, VoiceSpeakingState};
use crate::voice::media::{spec_looks_like_dave, MediaView};
use crate::voice::outbound::VoiceOutboundSendBlockReason;
use crate::voice::rtp::RtpHeader;
use vstd::prelude::*;

verus! {

/// Any frame, of any length, followed by what encryption adds is recognised: at least eleven
/// bytes, of which the last two are the marker.
pub proof fn law_encrypted_frames_are_recognised(frame: Seq<u8>, added: Seq<u8>)
    requires
        added.len() >= 11,
        added[added.len() - 2] == 0xfa,
        added[added.len() - 1] == 0xfa,
    ensures
        spec_looks_like_dave(frame + added),
{
}

/// Bytes before a recognised frame leave it recognised; a frame that is too short for what
/// encryption adds, or that does not end in the marker, is not recognised.
pub proof fn law_recognition_is_by_the_end(before: Seq<u8>, payload: Seq<u8>)
    ensures
        spec_looks_like_dave(payload) ==> spec_looks_like_dave(before + payload),
        payload.len() < 11 ==> !spec_looks_like_dave(payload),
        payload.len() >= 2 && (payload[payload.len() - 2] != 0xfa || payload[payload.len() - 1]
            != 0xfa) ==> !spec_looks_like_dave(payload),
{
    if spec_looks_like_dave(payload) {
        let n = before.len() + payload.len();
        assert((before + payload)[n - 1] == payload[payload.len() - 1]);
        assert((before + payload)[n - 2] == payload[payload.len() - 2]);
    }
}

/// With encryption on, every encrypted frame of a mapped source is handed on as the session read
/// it, whatever its length, once the session is ready.
pub proof fn law_encrypted_frames_are_unwrapped(
    state: DaveView,
    ssrc: u32,
    frame: Seq<u8>,
    added: Seq<u8>,
    decrypted: Result<Seq<u8>, Seq<char>>,
)
    requires
        state.protocol_version is Some,
        state.ssrc_user_ids.contains_key(ssrc),
        added.len() >= 11,
        added[added.len() - 2] == 0xfa,
        added[added.len() - 1] == 0xfa,
    ensures
        ({
            let user_id = state.ssrc_user_ids[ssrc];
            let unwrapped = state.unwrapped(ssrc, frame + added, decrypted);
            &&& state.session == DaveSession::Ready && decrypted is Ok ==> unwrapped
                == (MediaView::DaveDecrypted { user_id, opus: decrypted->Ok_0 })
            &&& state.session == DaveSession::Ready && decrypted is Err ==> unwrapped
                == (MediaView::DaveDecryptFailed { user_id, message: decrypted->Err_0 })
            &&& state.session != DaveSession::Ready ==> unwrapped is DaveNotReady
        }),
{
    law_encrypted_frames_are_recognised(frame, added);
}

/// With encryption off a frame is handed on as it came. With it on a frame in the clear is never
/// handed on, and neither is one of a source that is mapped to nobody.
pub proof fn law_frames_in_the_clear(
    state: DaveView,
    ssrc: u32,
    payload: Seq<u8>,
    decrypted: Result<Seq<u8>, Seq<char>>,
)
    ensures
        ({
            let unwrapped = state.unwrapped(ssrc, payload, decrypted);
            let marked = payload.len() >= 11 && payload[payload.len() - 2] == 0xfa
                && payload[payload.len() - 1] == 0xfa;
            &&& state.protocol_version is None ==> unwrapped == MediaView::Plain(payload)
            &&& state.protocol_version is Some ==> !(unwrapped is Plain)
            &&& state.protocol_version is Some && !marked ==> unwrapped
                == (MediaView::DaveUnexpectedPlain { payload_len: payload.len() as usize })
            &&& state.protocol_version is Some && marked && !state.ssrc_user_ids.contains_key(ssrc)
                ==> unwrapped == (MediaView::DaveMissingUser {
                payload_len: payload.len() as usize,
            })
        }),
{
}

/// A frame is played exactly where it came in the clear with encryption off or was decrypted: as
/// it is, under the numbers of its packet, as the user's whom decryption knows, else of whoever
/// the source is mapped to.
pub proof fn law_played_frames(media: MediaView, header: RtpHeader, mapped: Option<UserId>)
    ensures
        ({
            let played = media.playback(header, mapped);
            &&& played is Some <==> media is Plain || media is DaveDecrypted
            &&& played is Some ==> {
                let frame = played->Some_0;
                &&& frame.ssrc == header.ssrc
                &&& frame.sequence == header.sequence
                &&& frame.timestamp == header.timestamp
                &&& media is Plain ==> frame.opus == media->Plain_0 && frame.user_id == mapped
                &&& media is DaveDecrypted ==> frame.opus == media->DaveDecrypted_opus
                    && frame.user_id == Some(UserId { value: media->DaveDecrypted_user_id })
            }
        }),
{
}

/// Whatever is played shows that somebody speaks, unless it is the frame of silence; nothing else
/// does.
pub proof fn law_activity(media: MediaView, header: RtpHeader, mapped: Option<UserId>)
    ensures
        media.counts_as_activity() <==> media.playback(header, mapped) is Some && media.playback(
            header,
            mapped,
        )->Some_0.opus != seq![0xf8u8, 0xffu8, 0xfeu8],
{
}

/// A report maps its source to its user, who is known from then on; it changes no other source,
/// and without a user it changes nothing.
pub proof fn law_sources_are_mapped(
    state: DaveView,
    report: VoiceSpeakingState,
    ssrc: u32,
    user_id: u64,
)
    ensures
        ({
            let after = state.after_speaking_state(report);
            &&& report.user_id is None ==> after == state
            &&& report.user_id is Some && report.ssrc == Some(ssrc)
                ==> after.ssrc_user_ids.contains_key(ssrc) && after.ssrc_user_ids[ssrc]
                == report.user_id->Some_0
            &&& report.ssrc != Some(ssrc) ==> after.ssrc_user_ids.get(ssrc)
                == state.ssrc_user_ids.get(ssrc)
            &&& after.known_user_ids.contains(user_id) <==> state.known_user_ids.contains(user_id)
                || report.user_id == Some(user_id)
            &&& after.protocol_version == state.protocol_version
            &&& after.session == state.session
        }),
{
}

/// Version zero turns encryption off. Any other turns it on, with a session that is not ready
/// yet, or without one where it could not be made.
pub proof fn law_encryption_is_set_up(state: DaveView, protocol_version: u16, created: bool)
    ensures
        ({
            let after = state.after_reinit(protocol_version, created);
            &&& protocol_version == 0 ==> after.protocol_version is None && after.session
                == DaveSession::Absent
            &&& protocol_version > 0 ==> after.protocol_version == Some(protocol_version)
            &&& protocol_version > 0 && created ==> after.session == DaveSession::Pending
            &&& protocol_version > 0 && !created ==> after.session == DaveSession::Absent
            &&& after.ssrc_user_ids == state.ssrc_user_ids
            &&& after.known_user_ids == state.known_user_ids
        }),
{
}

/// With encryption off a frame leaves as it is; with a ready session as the session encrypted it;
/// otherwise not at all.
pub proof fn law_outgoing_frames(state: DaveView, opus: Seq<u8>, encrypted: Option<Seq<u8>>)
    ensures
        state.protocol_version is None ==> state.outbound(opus, encrypted) == Ok::<
            Seq<u8>,
            VoiceOutboundSendBlockReason,
        >(opus),
        state.protocol_version is Some && state.session == DaveSession::Ready && encrypted is Some
            ==> state.outbound(opus, encrypted) == Ok::<
            Seq<u8>,
            VoiceOutboundSendBlockReason,
        >(encrypted->Some_0),
        state.protocol_version is Some && (state.session != DaveSession::Ready || encrypted is None)
            ==> state.outbound(opus, encrypted) is Err,
{
}

} // verus!
