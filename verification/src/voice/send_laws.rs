//! What sending a frame does.
use crate::voice::bytes::{be16_bytes, be32_bytes};
use crate::voice::outbound::{
    frames_between, OutboundView, SendEventView, VoiceOutboundSendBlockReason,
    VoiceOutboundSendOutcome,
};
use crate::voice::packet_laws::law_packets_are_protected;
use crate::voice::rtp::{
    law_built_packet_is_read_back, voice_rtp_packet, VoiceOutboundRtpState,
};
use crate::voice::time::MonotonicTime;
use vstd::prelude::*;

verus! {

/// A frame of a size that the ciphers take.
pub open spec fn is_sendable(opus: Seq<u8>) -> bool {
    0 < opus.len() <= 0x10_0000_0000
}

/// The fixed header of a voice packet. The marker is the top bit of its second byte.
pub open spec fn voice_header(state: OutboundView, marker: bool) -> Seq<u8> {
    seq![0x80u8, (if marker {
        0xf8u8
    } else {
        0x78u8
    })] + be16_bytes(state.rtp.sequence) + be32_bytes(state.rtp.timestamp) + be32_bytes(
        state.rtp.ssrc,
    )
}

/// The packet of a sent frame: the fixed header, the frame sealed under it, and the nonce's suffix.
pub open spec fn sent_packet(state: OutboundView, opus: Seq<u8>, marker: bool) -> Seq<u8> {
    voice_header(state, marker) + state.mode.sealed(
        state.key,
        be32_bytes(state.nonce_suffix),
        voice_header(state, marker),
        opus,
    ) + be32_bytes(state.nonce_suffix)
}

/// The state after a frame was sent: the start of speech is announced where nobody spoke, the
/// packet follows, and the next packet gets the next number and the next nonce.
pub open spec fn after_sending(state: OutboundView, opus: Seq<u8>, marker: bool) -> OutboundView {
    let start = SendEventView::Speaking { speaking: true, ssrc: state.rtp.ssrc };
    let packet = SendEventView::Packet { bytes: sent_packet(state, opus, marker) };
    let sequence = if state.rtp.sequence == 0xffff {
        0u16
    } else {
        (state.rtp.sequence + 1) as u16
    };
    OutboundView {
        rtp: VoiceOutboundRtpState { sequence, ..state.rtp },
        nonce_suffix: (state.nonce_suffix + 1) as u32,
        speaking: true,
        events: if state.speaking {
            state.events + seq![packet]
        } else {
            state.events + seq![start, packet]
        },
        ..state
    }
}

proof fn lemma_frame_is_sent(state: OutboundView, opus: Seq<u8>, marker: bool)
    requires
        is_sendable(opus),
        state.nonce_suffix < 0xffff_ffff,
    ensures
        state.after_frame(opus, marker).answer == Ok::<VoiceOutboundSendOutcome, Seq<char>>(
            VoiceOutboundSendOutcome::Sent,
        ),
        state.after_frame(opus, marker).after == after_sending(state, opus, marker),
{
    let rtp = state.rtp;
    let packet = voice_rtp_packet(rtp.sequence, rtp.timestamp, rtp.ssrc, marker, opus);
    law_built_packet_is_read_back(rtp.sequence, rtp.timestamp, rtp.ssrc, marker, opus);
    law_packets_are_protected(state.mode, state.key, packet, be32_bytes(state.nonce_suffix));
    assert(packet.take(12) =~= voice_header(state, marker));
    assert(packet.skip(12) =~= opus);
    let bytes = sent_packet(state, opus, marker);
    assert(state.next_packet(opus, marker) == Ok::<Seq<u8>, Seq<char>>(bytes));
    let start = SendEventView::Speaking { speaking: true, ssrc: rtp.ssrc };
    let event = SendEventView::Packet { bytes };
    assert(state.events.push(event) =~= state.events + seq![event]);
    assert(state.events.push(start).push(event) =~= state.events + seq![start, event]);
}

/// While capture is allowed and not muted, and nonces are left, every frame of a size that the
/// ciphers take is sent, with the marker on the first frame after a silence; in the clear only
/// while end-to-end encryption is off.
pub proof fn law_frames_are_sent(state: OutboundView, opus: Seq<u8>)
    requires
        is_sendable(opus),
        state.nonce_suffix < 0xffff_ffff,
        state.capture_allowed,
        !state.muted,
    ensures
        !state.dave_active ==> {
            &&& state.after_opus_frame(opus).answer == Ok::<VoiceOutboundSendOutcome, Seq<char>>(
                VoiceOutboundSendOutcome::Sent,
            )
            &&& state.after_opus_frame(opus).after == after_sending(state, opus, !state.speaking)
        },
        state.dave_active ==> {
            &&& state.after_opus_frame(opus).answer == Ok::<VoiceOutboundSendOutcome, Seq<char>>(
                VoiceOutboundSendOutcome::Blocked(
                    VoiceOutboundSendBlockReason::DaveOutboundUnsupported,
                ),
            )
            &&& state.after_opus_frame(opus).after == state
        },
        ({
            let step = state.after_payload(Ok(opus));
            &&& step.answer == Ok::<VoiceOutboundSendOutcome, Seq<char>>(
                VoiceOutboundSendOutcome::Sent,
            )
            &&& step.after == after_sending(state, opus, !state.speaking)
        }),
{
    lemma_frame_is_sent(state, opus, !state.speaking);
}

/// A frame that end-to-end encryption holds back is reported with the reason; while capture is
/// not allowed or muted nothing is reported at all. Neither changes anything.
pub proof fn law_frames_are_held_back(
    state: OutboundView,
    opus: Seq<u8>,
    reason: VoiceOutboundSendBlockReason,
)
    ensures
        state.capture_allowed && !state.muted ==> state.after_payload(Err(reason)).answer == Ok::<
            VoiceOutboundSendOutcome,
            Seq<char>,
        >(VoiceOutboundSendOutcome::Blocked(reason)),
        state.after_payload(Err(reason)).after == state,
        !state.capture_allowed || state.muted ==> {
            &&& state.after_payload(Ok(opus)).answer == Ok::<VoiceOutboundSendOutcome, Seq<char>>(
                VoiceOutboundSendOutcome::Noop,
            )
            &&& state.after_payload(Ok(opus)).after == state
            &&& state.after_opus_frame(opus).answer == Ok::<VoiceOutboundSendOutcome, Seq<char>>(
                VoiceOutboundSendOutcome::Noop,
            )
            &&& state.after_opus_frame(opus).after == state
        },
{
}

/// While somebody speaks each frame of the silence after speech is sent without the marker; after
/// the last one, and instead of one that is held back, the end of speech is announced. Without
/// speech nothing happens.
pub proof fn law_silence_is_sent(
    state: OutboundView,
    opus: Seq<u8>,
    reason: VoiceOutboundSendBlockReason,
    last: bool,
)
    requires
        is_sendable(opus),
        state.nonce_suffix < 0xffff_ffff,
    ensures
        ({
            let end = SendEventView::Speaking { speaking: false, ssrc: state.rtp.ssrc };
            let step = state.after_trailing_silence(Ok(opus), last);
            let held = state.after_trailing_silence(Err(reason), last);
            let open = state.capture_allowed && !state.muted;
            let sent = after_sending(state, opus, false);
            let stopped = OutboundView {
                speaking: false,
                events: state.events.push(end),
                ..state
            };
            &&& !state.speaking ==> step.after == state && held.after == state
            &&& state.speaking && open && !last ==> step.after == sent
            &&& state.speaking && open && last ==> step.after == OutboundView {
                speaking: false,
                events: sent.events.push(end),
                ..sent
            }
            &&& state.speaking && !open ==> step.after == stopped
            &&& state.speaking ==> held.after == stopped
            &&& state.speaking ==> step.answer == Ok::<VoiceOutboundSendOutcome, Seq<char>>(
                VoiceOutboundSendOutcome::Sent,
            )
        }),
{
    lemma_frame_is_sent(state, opus, false);
}

/// The end of speech is announced where somebody spoke, and changes nothing but that.
pub proof fn law_stops_are_announced(state: OutboundView)
    ensures
        state.speaking ==> state.after_stop().after == (OutboundView {
            speaking: false,
            events: state.events.push(
                SendEventView::Speaking { speaking: false, ssrc: state.rtp.ssrc },
            ),
            ..state
        }),
        !state.speaking ==> state.after_stop().after == state,
{
}

/// Frames that follow each other by a whole number of frame times are that many frames apart. Any
/// other gap is counted to within half a frame, and no gap as less than one frame.
pub proof fn law_gaps_are_counted(previous: MonotonicTime, now: MonotonicTime, n: int)
    requires
        previous.nanos <= now.nanos,
    ensures
        frames_between(None, now) == 1,
        n >= 1 && now.nanos - previous.nanos == n * 20_000_000 ==> frames_between(
            Some(previous),
            now,
        ) == n,
        frames_between(Some(previous), now) >= 1,
        now.nanos - previous.nanos >= 20_000_000 ==> {
            let counted = frames_between(Some(previous), now) * 20_000_000;
            counted - 10_000_000 <= now.nanos - previous.nanos < counted + 10_000_000
        },
{
}

} // verus!
