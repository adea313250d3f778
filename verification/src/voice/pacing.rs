//! What a connection owes: the silence after speech, and one heartbeat at a time.
use vstd::prelude::*;

verus! {

/// How many frames of silence follow speech.
pub const DISCORD_TRAILING_SILENCE_FRAMES: usize = 5;

/// The frames of silence that are still owed after speech.
#[derive(Clone, Copy, Debug, PartialEq, Eq, Structural)]
pub struct VoiceTrailingSilence {
    pub remaining_frames: usize,
}

impl Default for VoiceTrailingSilence {
    fn default() -> (tail: Self)
        ensures
            tail.remaining_frames == 0,
    {
        VoiceTrailingSilence { remaining_frames: 0 }
    }
}

impl VoiceTrailingSilence {
    pub open spec fn started(self, speaking: bool) -> VoiceTrailingSilence {
        if speaking && self.remaining_frames == 0 {
            VoiceTrailingSilence { remaining_frames: DISCORD_TRAILING_SILENCE_FRAMES }
        } else {
            self
        }
    }

    pub open spec fn after_frame(self) -> VoiceTrailingSilence {
        if self.remaining_frames == 0 {
            self
        } else {
            VoiceTrailingSilence { remaining_frames: (self.remaining_frames - 1) as usize }
        }
    }

    /// The next frame: whether it is the last one, where one is owed.
    pub open spec fn next_frame(self) -> Option<bool> {
        if self.remaining_frames == 0 {
            None
        } else {
            Some(self.remaining_frames == 1)
        }
    }

    /// Begins the silence after speech, unless it has begun.
    pub fn start(&mut self, speaking: bool)
        ensures
            *final(self) == old(self).started(speaking),
    {
        if speaking && self.remaining_frames == 0 {
            self.remaining_frames = DISCORD_TRAILING_SILENCE_FRAMES;
        }
    }

    /// Drops what is owed: somebody speaks again.
    pub fn cancel(&mut self)
        ensures
            final(self).remaining_frames == 0,
    {
        self.remaining_frames = 0;
    }

    /// Takes a frame: whether it is the last one, where one is owed.
    pub fn take_frame(&mut self) -> (last: Option<bool>)
        ensures
            last == old(self).next_frame(),
            *final(self) == old(self).after_frame(),
    {
        if self.remaining_frames == 0 {
            return None;
        }
        self.remaining_frames -= 1;
        Some(self.remaining_frames == 0)
    }
}

/// The silence after `n` frames were taken.
pub open spec fn after_frames(tail: VoiceTrailingSilence, n: nat) -> VoiceTrailingSilence
    decreases n,
{
    if n == 0 {
        tail
    } else {
        after_frames(tail, (n - 1) as nat).after_frame()
    }
}

/// Taking frames counts down to zero.
proof fn lemma_after_frames(tail: VoiceTrailingSilence, n: nat)
    requires
        n <= tail.remaining_frames,
    ensures
        after_frames(tail, n).remaining_frames == tail.remaining_frames - n,
    decreases n,
{
    if n > 0 {
        lemma_after_frames(tail, (n - 1) as nat);
    }
}

/// Speech is followed by exactly five frames of silence, the last of which is told apart, and
/// starting again in between adds none.
pub proof fn law_silence_is_finite(n: nat)
    ensures
        ({
            let tail = (VoiceTrailingSilence { remaining_frames: 0 }).started(true);
            let later = after_frames(tail, n);
            &&& n < DISCORD_TRAILING_SILENCE_FRAMES ==> later.next_frame() == Some(
                n + 1 == DISCORD_TRAILING_SILENCE_FRAMES,
            )
            &&& n == DISCORD_TRAILING_SILENCE_FRAMES ==> later.next_frame() is None
            &&& n < DISCORD_TRAILING_SILENCE_FRAMES ==> later.started(true) == later
        }),
{
    let tail = (VoiceTrailingSilence { remaining_frames: 0 }).started(true);
    if n <= DISCORD_TRAILING_SILENCE_FRAMES {
        lemma_after_frames(tail, n);
    }
}

/// Whether the answer to a heartbeat is awaited.
#[derive(Clone, Copy, Debug, PartialEq, Eq, Structural)]
pub struct VoiceHeartbeatAckState {
    pub awaiting_ack: bool,
}

impl Default for VoiceHeartbeatAckState {
    fn default() -> (state: Self)
        ensures
            !state.awaiting_ack,
    {
        VoiceHeartbeatAckState { awaiting_ack: false }
    }
}

impl VoiceHeartbeatAckState {
    /// Notes that a heartbeat is sent. It must not be where the last one is not answered.
    pub fn mark_sent(&mut self) -> (allowed: bool)
        ensures
            allowed == !old(self).awaiting_ack,
            final(self).awaiting_ack,
    {
        if self.awaiting_ack {
            return false;
        }
        self.awaiting_ack = true;
        true
    }

    pub fn mark_acknowledged(&mut self)
        ensures
            !final(self).awaiting_ack,
    {
        self.awaiting_ack = false;
    }

    /// Forgets the heartbeats of an earlier connection.
    pub fn reset(&mut self)
        ensures
            !final(self).awaiting_ack,
    {
        self.awaiting_ack = false;
    }
}

} // verus!
