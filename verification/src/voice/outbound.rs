//! Sending voice: speaking announcements and protected packets.
use crate::voice::aead::VoiceAeadMode;
use crate::voice::bytes::{be32_array, be32_bytes, lemma_be32_bytes_injective};
use crate::voice::crypt::{packet_key_error, protected_packet, VoiceRtpEncryptor};
use crate::voice::rtp::{
    build_marked_voice_rtp_packet, clock_after, empty_opus_error, next_sequence, result_view,
    voice_rtp_packet, VoiceOutboundRtpState, DISCORD_OPUS_TIMESTAMP_INCREMENT,
};
use crate::voice::time::{MonotonicTime, NANOS_PER_MILLI};
use vstd::prelude::*;

verus! {

/// How long a frame lasts.
pub const DISCORD_OPUS_FRAME_MILLIS: u64 = 20;

/// Why a frame must not be sent.
#[derive(Clone, Copy, Debug, PartialEq, Eq, Structural)]
pub enum VoiceOutboundSendBlockReason {
    DaveOutboundUnsupported,
    DaveOutboundMissingSession,
    DaveOutboundNotReady,
}

#[derive(Clone, Copy, Debug, PartialEq, Eq, Structural)]
pub enum VoiceOutboundSendOutcome {
    Noop,
    Blocked(VoiceOutboundSendBlockReason),
    Sent,
}

/// What is to be sent.
#[derive(Debug, PartialEq, Eq)]
pub enum VoiceOutboundSendEvent {
    Speaking { speaking: bool, ssrc: u32 },
    Packet { bytes: Vec<u8> },
}

pub enum SendEventView {
    Speaking { speaking: bool, ssrc: u32 },
    Packet { bytes: Seq<u8> },
}

impl View for VoiceOutboundSendEvent {
    type V = SendEventView;

    open spec fn view(&self) -> SendEventView {
        match *self {
            VoiceOutboundSendEvent::Speaking { speaking, ssrc } => SendEventView::Speaking {
                speaking,
                ssrc,
            },
            VoiceOutboundSendEvent::Packet { bytes } => SendEventView::Packet { bytes: bytes@ },
        }
    }
}

pub open spec fn send_event_views(events: Seq<VoiceOutboundSendEvent>) -> Seq<SendEventView> {
    events.map_values(|event: VoiceOutboundSendEvent| event@)
}

/// A frame after end-to-end encryption has had its say.
#[derive(Debug, PartialEq, Eq)]
pub enum VoiceDaveOutboundPayload {
    /// End-to-end encryption is off.
    Plain(Vec<u8>),
    Encrypted(Vec<u8>),
    Blocked(VoiceOutboundSendBlockReason),
}

impl VoiceDaveOutboundPayload {
    /// The bytes to send, or why there are none.
    pub open spec fn frame(self) -> Result<Seq<u8>, VoiceOutboundSendBlockReason> {
        match self {
            VoiceDaveOutboundPayload::Plain(bytes) => Ok(bytes@),
            VoiceDaveOutboundPayload::Encrypted(bytes) => Ok(bytes@),
            VoiceDaveOutboundPayload::Blocked(reason) => Err(reason),
        }
    }
}

pub struct VoiceOutboundSendState {
    pub encryptor: VoiceRtpEncryptor,
    pub rtp: VoiceOutboundRtpState,
    /// What tells the nonce of the next packet from all others under the key.
    pub nonce_suffix: u32,
    pub capture_allowed: bool,
    pub muted: bool,
    pub dave_active: bool,
    pub speaking: bool,
    pub events: Vec<VoiceOutboundSendEvent>,
}

pub struct OutboundView {
    pub mode: VoiceAeadMode,
    pub key: Seq<u8>,
    pub rtp: VoiceOutboundRtpState,
    pub nonce_suffix: u32,
    pub capture_allowed: bool,
    pub muted: bool,
    pub dave_active: bool,
    pub speaking: bool,
    pub events: Seq<SendEventView>,
}

impl View for VoiceOutboundSendState {
    type V = OutboundView;

    open spec fn view(&self) -> OutboundView {
        OutboundView {
            mode: self.encryptor.mode(),
            key: self.encryptor.key(),
            rtp: self.rtp,
            nonce_suffix: self.nonce_suffix,
            capture_allowed: self.capture_allowed,
            muted: self.muted,
            dave_active: self.dave_active,
            speaking: self.speaking,
            events: send_event_views(self.events@),
        }
    }
}

/// What a step answers, and the state after it.
pub struct SendStep {
    pub answer: Result<VoiceOutboundSendOutcome, Seq<char>>,
    pub after: OutboundView,
}

impl OutboundView {
    pub open spec fn gate_open(self) -> bool {
        self.capture_allowed && !self.muted
    }

    /// The bytes of the next packet, or why there is none.
    pub open spec fn next_packet(self, opus: Seq<u8>, marker: bool) -> Result<Seq<u8>, Seq<char>> {
        if self.nonce_suffix == u32::MAX {
            Err("voice RTP nonce suffix exhausted"@)
        } else if opus.len() == 0 {
            Err(empty_opus_error())
        } else {
            protected_packet(
                self.mode,
                self.key,
                voice_rtp_packet(
                    self.rtp.sequence,
                    self.rtp.timestamp,
                    self.rtp.ssrc,
                    marker,
                    opus,
                ),
                be32_bytes(self.nonce_suffix),
            )
        }
    }

    /// A frame is announced where nobody was speaking, and its packet uses up a number and a
    /// nonce. A frame that cannot be sent changes nothing. The media clock stands still.
    pub open spec fn after_frame(self, opus: Seq<u8>, marker: bool) -> SendStep {
        match self.next_packet(opus, marker) {
            Ok(bytes) => SendStep {
                answer: Ok(VoiceOutboundSendOutcome::Sent),
                after: OutboundView {
                    rtp: VoiceOutboundRtpState {
                        sequence: next_sequence(self.rtp.sequence),
                        ..self.rtp
                    },
                    nonce_suffix: (self.nonce_suffix + 1) as u32,
                    speaking: true,
                    events: (if self.speaking {
                        self.events
                    } else {
                        self.events.push(
                            SendEventView::Speaking { speaking: true, ssrc: self.rtp.ssrc },
                        )
                    }).push(SendEventView::Packet { bytes }),
                    ..self
                },
            },
            Err(message) => SendStep { answer: Err(message), after: self },
        }
    }

    /// The end of speaking is announced once.
    pub open spec fn after_stop(self) -> SendStep {
        if self.speaking {
            SendStep {
                answer: Ok(VoiceOutboundSendOutcome::Sent),
                after: OutboundView {
                    speaking: false,
                    events: self.events.push(
                        SendEventView::Speaking { speaking: false, ssrc: self.rtp.ssrc },
                    ),
                    ..self
                },
            }
        } else {
            SendStep { answer: Ok(VoiceOutboundSendOutcome::Noop), after: self }
        }
    }

    /// Frames are sent only while capture is open, and never in the clear while end-to-end
    /// encryption is on. The first frame after a silence carries the marker.
    pub open spec fn after_opus_frame(self, opus: Seq<u8>) -> SendStep {
        if !self.gate_open() {
            SendStep { answer: Ok(VoiceOutboundSendOutcome::Noop), after: self }
        } else if self.dave_active {
            SendStep {
                answer: Ok(
                    VoiceOutboundSendOutcome::Blocked(
                        VoiceOutboundSendBlockReason::DaveOutboundUnsupported,
                    ),
                ),
                after: self,
            }
        } else {
            self.after_frame(opus, !self.speaking)
        }
    }

    pub open spec fn after_payload(
        self,
        frame: Result<Seq<u8>, VoiceOutboundSendBlockReason>,
    ) -> SendStep {
        if !self.gate_open() {
            SendStep { answer: Ok(VoiceOutboundSendOutcome::Noop), after: self }
        } else {
            match frame {
                Ok(opus) => self.after_frame(opus, !self.speaking),
                Err(reason) => SendStep {
                    answer: Ok(VoiceOutboundSendOutcome::Blocked(reason)),
                    after: self,
                },
            }
        }
    }

    /// One frame of the silence after speech. The last one ends the speaking, and so does a
    /// frame that must not be sent.
    pub open spec fn after_trailing_silence(
        self,
        frame: Result<Seq<u8>, VoiceOutboundSendBlockReason>,
        last: bool,
    ) -> SendStep {
        if !self.speaking {
            SendStep { answer: Ok(VoiceOutboundSendOutcome::Noop), after: self }
        } else if !self.gate_open() || frame is Err {
            self.after_stop()
        } else {
            let sent = self.after_frame(frame->Ok_0, false);
            if last && sent.answer is Ok {
                sent.after.after_stop()
            } else {
                sent
            }
        }
    }
}

impl VoiceOutboundSendState {
    /// A state that has sent nothing, with capture closed.
    pub fn new(mode: &str, key: &[u8], rtp: VoiceOutboundRtpState, nonce_suffix: u32) -> (made:
        Result<VoiceOutboundSendState, String>)
        ensures
            match made {
                Ok(made) => {
                    &&& packet_key_error(mode@, key@) is None
                    &&& VoiceAeadMode::named(mode@) == Some(made@.mode)
                    &&& made@ == (OutboundView {
                        mode: made@.mode,
                        key: key@,
                        rtp,
                        nonce_suffix,
                        capture_allowed: false,
                        muted: false,
                        dave_active: false,
                        speaking: false,
                        events: Seq::empty(),
                    })
                },
                Err(message) => packet_key_error(mode@, key@) == Some(message@),
            },
    {
        match VoiceRtpEncryptor::new(mode, key) {
            Ok(encryptor) => {
                let made = VoiceOutboundSendState {
                    encryptor,
                    rtp,
                    nonce_suffix,
                    capture_allowed: false,
                    muted: false,
                    dave_active: false,
                    speaking: false,
                    events: Vec::new(),
                };
                assert(made@.events =~= Seq::empty());
                Ok(made)
            },
            Err(message) => Err(message),
        }
    }

    /// What is to be sent, in order.
    pub fn events(&self) -> (events: &[VoiceOutboundSendEvent])
        ensures
            send_event_views(events@) == self@.events,
    {
        self.events.as_slice()
    }

    pub fn set_capture_gate(&mut self, capture_allowed: bool, muted: bool)
        ensures
            final(self)@ == (OutboundView { capture_allowed, muted, ..old(self)@ }),
    {
        self.capture_allowed = capture_allowed;
        self.muted = muted;
    }

    pub fn set_dave_active(&mut self, dave_active: bool)
        ensures
            final(self)@ == (OutboundView { dave_active, ..old(self)@ }),
    {
        self.dave_active = dave_active;
    }

    /// Moves the media clock on, whether frames were sent or not.
    pub fn advance_media_clock_frames(&mut self, frames: u32)
        ensures
            final(self)@ == (OutboundView {
                rtp: VoiceOutboundRtpState {
                    timestamp: clock_after(old(self)@.rtp.timestamp, frames as int),
                    ..old(self)@.rtp
                },
                ..old(self)@
            }),
    {
        let step: u64 = frames as u64 * DISCORD_OPUS_TIMESTAMP_INCREMENT as u64;
        let moved: u64 = self.rtp.timestamp as u64 + step;
        self.rtp.timestamp = (moved % 0x1_0000_0000) as u32;
    }

    fn send_frame(&mut self, opus: &[u8], marker: bool) -> (outcome: Result<
        VoiceOutboundSendOutcome,
        String,
    >)
        ensures
            result_view(outcome) == old(self)@.after_frame(opus@, marker).answer,
            final(self)@ == old(self)@.after_frame(opus@, marker).after,
    {
        if self.nonce_suffix == u32::MAX {
            return Err("voice RTP nonce suffix exhausted".to_owned());
        }
        let packet = match build_marked_voice_rtp_packet(
            self.rtp.sequence,
            self.rtp.timestamp,
            self.rtp.ssrc,
            marker,
            opus,
        ) {
            Ok(packet) => packet,
            Err(message) => return Err(message),
        };
        let bytes = match self.encryptor.encrypt_packet(
            packet.as_slice(),
            be32_array(self.nonce_suffix),
        ) {
            Ok(bytes) => bytes,
            Err(message) => return Err(message),
        };
        let ghost before = self@;
        if !self.speaking {
            let event = VoiceOutboundSendEvent::Speaking { speaking: true, ssrc: self.rtp.ssrc };
            self.events.push(event);
            self.speaking = true;
            assert(self@.events =~= before.events.push(event@));
        }
        let ghost announced = self@.events;
        let event = VoiceOutboundSendEvent::Packet { bytes };
        self.events.push(event);
        assert(self@.events =~= announced.push(event@));
        self.rtp.sequence = self.rtp.sequence.wrapping_add(1);
        self.nonce_suffix = self.nonce_suffix + 1;
        Ok(VoiceOutboundSendOutcome::Sent)
    }

    /// Sends a frame without end-to-end encryption.
    pub fn send_opus_frame(&mut self, opus: &[u8]) -> (outcome: Result<
        VoiceOutboundSendOutcome,
        String,
    >)
        ensures
            result_view(outcome) == old(self)@.after_opus_frame(opus@).answer,
            final(self)@ == old(self)@.after_opus_frame(opus@).after,
    {
        if !self.capture_allowed || self.muted {
            return Ok(VoiceOutboundSendOutcome::Noop);
        }
        if self.dave_active {
            return Ok(
                VoiceOutboundSendOutcome::Blocked(
                    VoiceOutboundSendBlockReason::DaveOutboundUnsupported,
                ),
            );
        }
        self.send_frame(opus, !self.speaking)
    }

    /// Sends a frame that end-to-end encryption has passed on.
    pub fn send_opus_frame_with_dave_payload(&mut self, payload: VoiceDaveOutboundPayload) -> (outcome:
        Result<VoiceOutboundSendOutcome, String>)
        ensures
            result_view(outcome) == old(self)@.after_payload(payload.frame()).answer,
            final(self)@ == old(self)@.after_payload(payload.frame()).after,
    {
        if !self.capture_allowed || self.muted {
            return Ok(VoiceOutboundSendOutcome::Noop);
        }
        match payload {
            VoiceDaveOutboundPayload::Plain(opus) => self.send_frame(
                opus.as_slice(),
                !self.speaking,
            ),
            VoiceDaveOutboundPayload::Encrypted(opus) => self.send_frame(
                opus.as_slice(),
                !self.speaking,
            ),
            VoiceDaveOutboundPayload::Blocked(reason) => Ok(
                VoiceOutboundSendOutcome::Blocked(reason),
            ),
        }
    }

    /// Sends one frame of the silence after speech.
    pub fn send_trailing_silence_frame_with_dave_payload(
        &mut self,
        payload: VoiceDaveOutboundPayload,
        last: bool,
    ) -> (outcome: Result<VoiceOutboundSendOutcome, String>)
        ensures
            result_view(outcome) == old(self)@.after_trailing_silence(payload.frame(), last).answer,
            final(self)@ == old(self)@.after_trailing_silence(payload.frame(), last).after,
    {
        if !self.speaking {
            return Ok(VoiceOutboundSendOutcome::Noop);
        }
        if !self.capture_allowed || self.muted {
            return self.stop_speaking();
        }
        let sent = match payload {
            VoiceDaveOutboundPayload::Plain(opus) => self.send_frame(opus.as_slice(), false),
            VoiceDaveOutboundPayload::Encrypted(opus) => self.send_frame(opus.as_slice(), false),
            VoiceDaveOutboundPayload::Blocked(_) => return self.stop_speaking(),
        };
        if last && sent.is_ok() {
            return self.stop_speaking();
        }
        sent
    }

    /// Announces the end of speaking, whether capture is open or not.
    pub fn stop_speaking(&mut self) -> (outcome: Result<VoiceOutboundSendOutcome, String>)
        ensures
            result_view(outcome) == old(self)@.after_stop().answer,
            final(self)@ == old(self)@.after_stop().after,
    {
        if !self.speaking {
            return Ok(VoiceOutboundSendOutcome::Noop);
        }
        let ghost before = self@;
        let event = VoiceOutboundSendEvent::Speaking { speaking: false, ssrc: self.rtp.ssrc };
        self.events.push(event);
        self.speaking = false;
        assert(self@.events =~= before.events.push(event@));
        Ok(VoiceOutboundSendOutcome::Sent)
    }
}

/// How many frames have passed between two captured frames: the elapsed time in frames, to the
/// nearest, and at least one. Before the first frame it is one.
pub open spec fn frames_between(previous: Option<MonotonicTime>, now: MonotonicTime) -> int {
    match previous {
        Some(previous) => {
            let elapsed = if now.nanos >= previous.nanos {
                now.nanos - previous.nanos
            } else {
                0
            };
            let frame = DISCORD_OPUS_FRAME_MILLIS * NANOS_PER_MILLI;
            let frames = (elapsed + frame / 2) / frame;
            if frames < 1 {
                1
            } else {
                frames
            }
        },
        None => 1,
    }
}

/// Moves the media clock on by the frames since the last captured one, so that frames that were
/// missed leave their gap.
pub fn advance_voice_media_clock(
    state: &mut VoiceOutboundSendState,
    previous_frame_at: &mut Option<MonotonicTime>,
    captured_at: MonotonicTime,
)
    ensures
        *final(previous_frame_at) == Some(captured_at),
        final(state)@ == (OutboundView {
            rtp: VoiceOutboundRtpState {
                timestamp: clock_after(
                    old(state)@.rtp.timestamp,
                    frames_between(*old(previous_frame_at), captured_at),
                ),
                ..old(state)@.rtp
            },
            ..old(state)@
        }),
{
    let frame: u64 = DISCORD_OPUS_FRAME_MILLIS * NANOS_PER_MILLI;
    let frames: u64 = match *previous_frame_at {
        Some(previous) => {
            let elapsed: u64 = captured_at.nanos.saturating_sub(previous.nanos);
            let whole: u64 = elapsed / frame;
            let part: u64 = elapsed % frame;
            let rounded: u64 = if part >= frame / 2 {
                whole + 1
            } else {
                whole
            };
            assert(rounded == (elapsed + frame / 2) / frame as int) by (nonlinear_arith)
                requires
                    frame == 20_000_000,
                    whole == elapsed / frame,
                    part == elapsed % frame,
                    rounded == if part >= frame / 2 {
                        whole + 1
                    } else {
                        whole as int
                    },
            ;
            if rounded < 1 {
                1
            } else {
                rounded
            }
        },
        None => 1,
    };
    *previous_frame_at = Some(captured_at);
    let ghost before = state@.rtp.timestamp as int;
    let turn: u64 = frames % 0x1_0000_0000;
    state.advance_media_clock_frames(turn as u32);
    proof {
        lemma_clock_wraps(before, frames as int);
    }
}

/// Whole turns of the frame count leave the media clock where it is.
proof fn lemma_clock_wraps(timestamp: int, frames: int)
    ensures
        (timestamp + frames * DISCORD_OPUS_TIMESTAMP_INCREMENT) % 0x1_0000_0000 == (timestamp + (
        frames % 0x1_0000_0000) * DISCORD_OPUS_TIMESTAMP_INCREMENT) % 0x1_0000_0000,
{
    let turns = frames / 0x1_0000_0000;
    let rest = frames % 0x1_0000_0000;
    vstd::arithmetic::div_mod::lemma_mod_multiples_vanish(
        turns * DISCORD_OPUS_TIMESTAMP_INCREMENT,
        timestamp + rest * DISCORD_OPUS_TIMESTAMP_INCREMENT,
        0x1_0000_0000,
    );
    assert(timestamp + frames * DISCORD_OPUS_TIMESTAMP_INCREMENT == 0x1_0000_0000 * (turns
        * DISCORD_OPUS_TIMESTAMP_INCREMENT) + (timestamp + rest
        * DISCORD_OPUS_TIMESTAMP_INCREMENT)) by (nonlinear_arith)
        requires
            frames == turns * 0x1_0000_0000 + rest,
    ;
}

/// A frame that is refused, blocked or not wanted leaves everything as it is.
pub proof fn law_unsent_frame_changes_nothing(
    state: OutboundView,
    opus: Seq<u8>,
    frame: Result<Seq<u8>, VoiceOutboundSendBlockReason>,
)
    ensures
        state.after_opus_frame(opus).answer != Ok::<VoiceOutboundSendOutcome, Seq<char>>(
            VoiceOutboundSendOutcome::Sent,
        ) ==> state.after_opus_frame(opus).after == state,
        state.after_payload(frame).answer != Ok::<VoiceOutboundSendOutcome, Seq<char>>(
            VoiceOutboundSendOutcome::Sent,
        ) ==> state.after_payload(frame).after == state,
{
}

/// Nothing is sent while capture is closed, and nothing in the clear while end-to-end
/// encryption is on.
pub proof fn law_gate_and_encryption_hold_frames_back(state: OutboundView, opus: Seq<u8>)
    ensures
        !state.gate_open() || state.dave_active ==> state.after_opus_frame(opus).after == state,
        !state.gate_open() ==> state.after_opus_frame(opus).answer == Ok::<
            VoiceOutboundSendOutcome,
            Seq<char>,
        >(VoiceOutboundSendOutcome::Noop),
{
}

/// Every packet ends in the suffix of its own nonce, and the next one in the next: no two
/// packets under a key share a nonce.
pub proof fn law_nonce_is_never_reused(state: OutboundView, opus: Seq<u8>, marker: bool)
    ensures
        ({
            let step = state.after_frame(opus, marker);
            match step.answer {
                Ok(_) => {
                    &&& step.after.nonce_suffix == state.nonce_suffix + 1
                    &&& step.after.events.len() > state.events.len()
                    &&& match step.after.events.last() {
                        SendEventView::Packet { bytes } => bytes.len() >= 4 && bytes.skip(
                            bytes.len() - 4,
                        ) == be32_bytes(state.nonce_suffix),
                        _ => false,
                    }
                },
                Err(_) => step.after.nonce_suffix == state.nonce_suffix && step.after.events
                    == state.events,
            }
        }),
{
    if let Ok(bytes) = state.next_packet(opus, marker) {
        assert(bytes.skip(bytes.len() - 4) =~= be32_bytes(state.nonce_suffix));
    }
}

/// Packets of different nonces end in different bytes.
pub proof fn law_nonces_tell_packets_apart(a: u32, b: u32)
    requires
        a != b,
    ensures
        be32_bytes(a) != be32_bytes(b),
{
    if be32_bytes(a) == be32_bytes(b) {
        lemma_be32_bytes_injective(a, b);
    }
}

/// With the last nonce used up nothing is sent any more, but the end of speaking is still
/// announced.
pub proof fn law_exhausted_nonce_sends_nothing(state: OutboundView, opus: Seq<u8>)
    requires
        state.nonce_suffix == u32::MAX,
    ensures
        state.gate_open() && !state.dave_active ==> state.after_opus_frame(opus).answer == Err::<
            VoiceOutboundSendOutcome,
            Seq<char>,
        >("voice RTP nonce suffix exhausted"@),
        state.after_opus_frame(opus).after == state,
        state.speaking ==> state.after_stop().answer == Ok::<VoiceOutboundSendOutcome, Seq<char>>(
            VoiceOutboundSendOutcome::Sent,
        ) && !state.after_stop().after.speaking,
{
}

/// Sending moves the packet number and never the media clock.
pub proof fn law_sending_leaves_media_clock(
    state: OutboundView,
    opus: Seq<u8>,
    frame: Result<Seq<u8>, VoiceOutboundSendBlockReason>,
    last: bool,
)
    ensures
        state.after_opus_frame(opus).after.rtp.timestamp == state.rtp.timestamp,
        state.after_payload(frame).after.rtp.timestamp == state.rtp.timestamp,
        state.after_trailing_silence(frame, last).after.rtp.timestamp == state.rtp.timestamp,
        state.after_stop().after.rtp == state.rtp,
{
}

/// Stopping twice announces the end once.
pub proof fn law_stop_is_announced_once(state: OutboundView)
    ensures
        !state.after_stop().after.speaking,
        state.after_stop().after.after_stop().after == state.after_stop().after,
        state.after_stop().after.after_stop().answer == Ok::<VoiceOutboundSendOutcome, Seq<char>>(
            VoiceOutboundSendOutcome::Noop,
        ),
{
}

/// The last frame of silence, and a frame that must not be sent, end the speaking.
pub proof fn law_silence_ends_speaking(
    state: OutboundView,
    frame: Result<Seq<u8>, VoiceOutboundSendBlockReason>,
    last: bool,
)
    requires
        last || frame is Err || !state.gate_open(),
    ensures
        ({
            let step = state.after_trailing_silence(frame, last);
            step.answer is Ok ==> !step.after.speaking
        }),
{
}

} // verus!
