//! Messages, as far as notifications depend on them.
use crate::ids::{ChannelId, GuildId, MessageId, RoleId, UserId};
use vstd::prelude::*;

verus! {

/// The wire code of the message that reports that someone left a group conversation.
pub const RECIPIENT_REMOVE: u8 = 2;

/// The kind of a message, by its wire code.
#[derive(Clone, Copy, Debug, PartialEq, Eq, Structural)]
pub struct MessageKind {
    pub code: u8,
}

impl MessageKind {
    pub fn new(code: u8) -> (kind: Self)
        ensures
            kind.code == code,
    {
        MessageKind { code }
    }

    pub open spec fn spec_is_recipient_remove(self) -> bool {
        self.code == RECIPIENT_REMOVE
    }

    /// Whether the message reports that someone left a group conversation.
    pub fn is_recipient_remove(self) -> (remove: bool)
        ensures
            remove == self.spec_is_recipient_remove(),
    {
        self.code == RECIPIENT_REMOVE
    }
}

/// A user that a message mentions by name.
#[derive(Clone, Copy, Debug, PartialEq, Eq, Structural)]
pub struct MentionInfo {
    pub user_id: UserId,
}

/// A message, as a payload carries it.
#[derive(Debug, PartialEq, Eq)]
pub struct MessageInfo {
    pub guild_id: Option<GuildId>,
    pub channel_id: ChannelId,
    pub message_id: MessageId,
    pub author_id: UserId,
    pub mentions: Vec<MentionInfo>,
    pub mention_everyone: bool,
    pub mention_roles: Vec<RoleId>,
    pub flags: u64,
    pub message_kind: MessageKind,
}

/// A loaded message of a timeline.
#[derive(Debug, PartialEq, Eq)]
pub struct MessageState {
    pub id: MessageId,
    pub guild_id: Option<GuildId>,
    pub channel_id: ChannelId,
    pub author_id: UserId,
    pub mentions: Vec<MentionInfo>,
    pub mention_everyone: bool,
    pub mention_roles: Vec<RoleId>,
    pub flags: u64,
    pub message_kind: MessageKind,
}

/// What decides how a message notifies.
pub struct MessageNotificationInput<'a> {
    pub guild_id: Option<GuildId>,
    pub channel_id: ChannelId,
    pub message_id: MessageId,
    pub author_id: UserId,
    pub mentions: &'a [MentionInfo],
    pub mention_everyone: bool,
    pub mention_roles: &'a [RoleId],
    pub flags: u64,
    pub message_kind: MessageKind,
}

pub struct MessageView {
    pub guild_id: Option<GuildId>,
    pub channel_id: ChannelId,
    pub message_id: MessageId,
    pub author_id: UserId,
    pub mentions: Seq<MentionInfo>,
    pub mention_everyone: bool,
    pub mention_roles: Seq<RoleId>,
    pub flags: u64,
    pub message_kind: MessageKind,
}

impl View for MessageInfo {
    type V = MessageView;

    open spec fn view(&self) -> MessageView {
        MessageView {
            guild_id: self.guild_id,
            channel_id: self.channel_id,
            message_id: self.message_id,
            author_id: self.author_id,
            mentions: self.mentions@,
            mention_everyone: self.mention_everyone,
            mention_roles: self.mention_roles@,
            flags: self.flags,
            message_kind: self.message_kind,
        }
    }
}

impl View for MessageState {
    type V = MessageView;

    open spec fn view(&self) -> MessageView {
        MessageView {
            guild_id: self.guild_id,
            channel_id: self.channel_id,
            message_id: self.id,
            author_id: self.author_id,
            mentions: self.mentions@,
            mention_everyone: self.mention_everyone,
            mention_roles: self.mention_roles@,
            flags: self.flags,
            message_kind: self.message_kind,
        }
    }
}

impl<'a> View for MessageNotificationInput<'a> {
    type V = MessageView;

    open spec fn view(&self) -> MessageView {
        MessageView {
            guild_id: self.guild_id,
            channel_id: self.channel_id,
            message_id: self.message_id,
            author_id: self.author_id,
            mentions: self.mentions@,
            mention_everyone: self.mention_everyone,
            mention_roles: self.mention_roles@,
            flags: self.flags,
            message_kind: self.message_kind,
        }
    }
}

pub open spec fn message_views(messages: Seq<MessageState>) -> Seq<MessageView> {
    messages.map_values(|message: MessageState| message@)
}

} // verus!
