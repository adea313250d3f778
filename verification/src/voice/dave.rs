//! What end-to-end encryption lets pass. The encryption itself is done by its session.
use crate::ids::{ChannelId, UserId};
use crate::voice::bytes::copy_range;
use crate::voice::crypt::packet_result_view;
use crate::voice::media::{
    looks_like_dave_media_frame, spec_looks_like_dave, MediaView, VoiceMediaPayload,
};
use crate::voice::outbound::{VoiceDaveOutboundPayload, VoiceOutboundSendBlockReason};
use crate::voice::session::VoiceGatewaySession;
use std::collections::{HashMap, HashSet};
use vstd::prelude::*;
use vstd::std_specs::hash::*;

verus! {

/// The session that encrypts frames.
#[derive(Clone, Copy, Debug, PartialEq, Eq, Structural)]
pub enum DaveSession {
    Absent,
    /// Its group is not set up yet.
    Pending,
    Ready,
}

/// A report of who speaks under which source.
#[derive(Clone, Copy, Debug, PartialEq, Eq, Structural)]
pub struct VoiceSpeakingState {
    pub user_id: Option<u64>,
    pub ssrc: Option<u32>,
    pub speaking: Option<u64>,
}

pub struct VoiceDaveState {
    pub user_id: UserId,
    pub channel_id: ChannelId,
    /// The version in use, where end-to-end encryption is on.
    pub protocol_version: Option<u16>,
    pub session: DaveSession,
    pub ssrc_user_ids: HashMap<u32, u64>,
    pub known_user_ids: HashSet<u64>,
}

pub struct DaveView {
    pub user_id: UserId,
    pub channel_id: ChannelId,
    pub protocol_version: Option<u16>,
    pub session: DaveSession,
    pub ssrc_user_ids: Map<u32, u64>,
    pub known_user_ids: Set<u64>,
}

impl View for VoiceDaveState {
    type V = DaveView;

    open spec fn view(&self) -> DaveView {
        DaveView {
            user_id: self.user_id,
            channel_id: self.channel_id,
            protocol_version: self.protocol_version,
            session: self.session,
            ssrc_user_ids: self.ssrc_user_ids@,
            known_user_ids: self.known_user_ids@,
        }
    }
}

impl DaveView {
    pub open spec fn after_speaking_state(self, state: VoiceSpeakingState) -> DaveView {
        match state.user_id {
            Some(user_id) => DaveView {
                known_user_ids: self.known_user_ids.insert(user_id),
                ssrc_user_ids: match state.ssrc {
                    Some(ssrc) => self.ssrc_user_ids.insert(ssrc, user_id),
                    None => self.ssrc_user_ids,
                },
                ..self
            },
            None => self,
        }
    }

    pub open spec fn after_reinit(self, protocol_version: u16, created: bool) -> DaveView {
        if protocol_version == 0 {
            DaveView { protocol_version: None, session: DaveSession::Absent, ..self }
        } else {
            DaveView {
                protocol_version: Some(protocol_version),
                session: if created {
                    DaveSession::Pending
                } else {
                    DaveSession::Absent
                },
                ..self
            }
        }
    }

    /// What is sent for a frame: the frame itself while encryption is off, what the session
    /// made of it while it is ready, and nothing otherwise.
    pub open spec fn outbound(self, opus: Seq<u8>, encrypted: Option<Seq<u8>>) -> Result<
        Seq<u8>,
        VoiceOutboundSendBlockReason,
    > {
        match (self.protocol_version, self.session, encrypted) {
            (None, _, _) => Ok(opus),
            (Some(_), DaveSession::Absent, _) => Err(
                VoiceOutboundSendBlockReason::DaveOutboundMissingSession,
            ),
            (Some(_), DaveSession::Ready, Some(encrypted)) => Ok(encrypted),
            _ => Err(VoiceOutboundSendBlockReason::DaveOutboundNotReady),
        }
    }
}

impl DaveView {
    /// What an incoming frame holds. `decrypted` is how the session read it.
    pub open spec fn unwrapped(
        self,
        ssrc: u32,
        payload: Seq<u8>,
        decrypted: Result<Seq<u8>, Seq<char>>,
    ) -> MediaView {
        let payload_len = payload.len() as usize;
        if self.protocol_version is None {
            MediaView::Plain(payload)
        } else if !spec_looks_like_dave(payload) {
            MediaView::DaveUnexpectedPlain { payload_len }
        } else {
            match self.ssrc_user_ids.get(ssrc) {
                None => MediaView::DaveMissingUser { payload_len },
                Some(user_id) => if self.session != DaveSession::Ready {
                    MediaView::DaveNotReady { user_id, payload_len }
                } else {
                    match decrypted {
                        Ok(opus) => MediaView::DaveDecrypted { user_id, opus },
                        Err(message) => MediaView::DaveDecryptFailed { user_id, message },
                    }
                },
            }
        }
    }
}

impl VoiceDaveState {
    /// Encryption is off and nobody is known.
    pub fn new(session: &VoiceGatewaySession) -> (state: Self)
        ensures
            state@ == (DaveView {
                user_id: session.user_id,
                channel_id: session.channel_id,
                protocol_version: None,
                session: DaveSession::Absent,
                ssrc_user_ids: Map::empty(),
                known_user_ids: Set::empty(),
            }),
    {
        VoiceDaveState {
            user_id: session.user_id,
            channel_id: session.channel_id,
            protocol_version: None,
            session: DaveSession::Absent,
            ssrc_user_ids: HashMap::new(),
            known_user_ids: HashSet::new(),
        }
    }

    /// Notes who speaks under which source.
    pub fn record_speaking_state(&mut self, state: VoiceSpeakingState)
        ensures
            final(self)@ == old(self)@.after_speaking_state(state),
    {
        broadcast use group_hash_axioms;

        if let Some(user_id) = state.user_id {
            self.known_user_ids.insert(user_id);
            if let Some(ssrc) = state.ssrc {
                self.ssrc_user_ids.insert(ssrc, user_id);
            }
        }
    }

    pub fn user_id_for_ssrc(&self, ssrc: u32) -> (user_id: Option<UserId>)
        ensures
            user_id == match self@.ssrc_user_ids.get(ssrc) {
                Some(id) => Some(UserId { value: id }),
                None => None,
            },
    {
        broadcast use group_hash_axioms;

        match self.ssrc_user_ids.get(&ssrc) {
            Some(id) => Some(UserId::new(*id)),
            None => None,
        }
    }

    /// Takes over a version, of which zero turns encryption off. `created` is how making the
    /// session ended. Without a session nothing is sent.
    pub fn reinit(&mut self, protocol_version: u16, created: Result<(), String>) -> (result: Result<
        (),
        String,
    >)
        ensures
            final(self)@ == old(self)@.after_reinit(protocol_version, created is Ok),
            result == if protocol_version == 0 {
                Ok(())
            } else {
                created
            },
    {
        if protocol_version == 0 {
            self.protocol_version = None;
            self.session = DaveSession::Absent;
            return Ok(());
        }
        self.protocol_version = Some(protocol_version);
        self.session = if created.is_ok() {
            DaveSession::Pending
        } else {
            DaveSession::Absent
        };
        created
    }

    /// What is sent for a frame. `encrypted` is what the session made of it, where it did.
    pub fn prepare_outbound_opus(&self, opus: &[u8], encrypted: Option<Vec<u8>>) -> (payload:
        VoiceDaveOutboundPayload)
        ensures
            payload.frame() == self@.outbound(
                opus@,
                match encrypted {
                    Some(encrypted) => Some(encrypted@),
                    None => None,
                },
            ),
            payload is Plain <==> self@.protocol_version is None,
    {
        if self.protocol_version.is_none() {
            let copy = copy_range(opus, 0, opus.len());
            assert(copy@ =~= opus@);
            return VoiceDaveOutboundPayload::Plain(copy);
        }
        match self.session {
            DaveSession::Absent => VoiceDaveOutboundPayload::Blocked(
                VoiceOutboundSendBlockReason::DaveOutboundMissingSession,
            ),
            DaveSession::Pending => VoiceDaveOutboundPayload::Blocked(
                VoiceOutboundSendBlockReason::DaveOutboundNotReady,
            ),
            DaveSession::Ready => match encrypted {
                Some(encrypted) => VoiceDaveOutboundPayload::Encrypted(encrypted),
                None => VoiceDaveOutboundPayload::Blocked(
                    VoiceOutboundSendBlockReason::DaveOutboundNotReady,
                ),
            },
        }
    }

    /// What an incoming frame holds. `decrypted` is how the session read it, and counts only
    /// for an encrypted frame of a known user while the session is ready.
    pub fn unwrap_media_payload_for_ssrc(
        &self,
        ssrc: u32,
        payload: &[u8],
        decrypted: Result<Vec<u8>, String>,
    ) -> (unwrapped: VoiceMediaPayload)
        ensures
            unwrapped@ == self@.unwrapped(ssrc, payload@, packet_result_view(decrypted)),
            ({
                let user = self@.ssrc_user_ids.get(ssrc);
                let dave = spec_looks_like_dave(payload@);
                if self@.protocol_version is None {
                    unwrapped is Plain && unwrapped.playable() == Some(payload@)
                } else if !dave {
                    unwrapped == (VoiceMediaPayload::DaveUnexpectedPlain {
                        payload_len: payload@.len() as usize,
                    })
                } else if user is None {
                    unwrapped == (VoiceMediaPayload::DaveMissingUser {
                        payload_len: payload@.len() as usize,
                    })
                } else if self@.session != DaveSession::Ready {
                    unwrapped == (VoiceMediaPayload::DaveNotReady {
                        user_id: user->Some_0,
                        payload_len: payload@.len() as usize,
                    })
                } else {
                    unwrapped == match decrypted {
                        Ok(opus) => VoiceMediaPayload::DaveDecrypted {
                            user_id: user->Some_0,
                            opus,
                        },
                        Err(message) => VoiceMediaPayload::DaveDecryptFailed {
                            user_id: user->Some_0,
                            message,
                        },
                    }
                }
            }),
    {
        if self.protocol_version.is_none() {
            let copy = copy_range(payload, 0, payload.len());
            assert(copy@ =~= payload@);
            return VoiceMediaPayload::Plain(copy);
        }
        if !looks_like_dave_media_frame(payload) {
            return VoiceMediaPayload::DaveUnexpectedPlain { payload_len: payload.len() };
        }
        let user_id: u64 = match self.user_id_for_ssrc(ssrc) {
            Some(user_id) => user_id.get(),
            None => return VoiceMediaPayload::DaveMissingUser { payload_len: payload.len() },
        };
        if self.session != DaveSession::Ready {
            return VoiceMediaPayload::DaveNotReady { user_id, payload_len: payload.len() };
        }
        match decrypted {
            Ok(opus) => VoiceMediaPayload::DaveDecrypted { user_id, opus },
            Err(message) => VoiceMediaPayload::DaveDecryptFailed { user_id, message },
        }
    }
}

/// While encryption is on, a frame leaves only as the session encrypted it.
pub proof fn law_encryption_fails_closed(
    state: DaveView,
    opus: Seq<u8>,
    encrypted: Option<Seq<u8>>,
)
    requires
        state.protocol_version is Some,
    ensures
        match state.outbound(opus, encrypted) {
            Ok(sent) => state.session == DaveSession::Ready && encrypted == Some(sent),
            Err(_) => true,
        },
{
}

} // verus!
