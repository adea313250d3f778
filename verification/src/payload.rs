//! The parts of gateway payloads that the state is built from.
use crate::ids::{ChannelId, ForumTagId, GuildId, MessageId, UserId};
use crate::text::text_view;
use vstd::prelude::*;

verus! {

/// Whether a user is online.
#[derive(Clone, Copy, Debug, PartialEq, Eq, Structural)]
pub enum PresenceStatus {
    Online,
    Idle,
    DoNotDisturb,
    Offline,
    Unknown,
}

/// What a voice connection belongs to: a guild, or one private conversation.
#[derive(Clone, Copy, Debug, PartialEq, Eq, Structural)]
pub enum VoiceScope {
    Guild(GuildId),
    Private(ChannelId),
}

/// What a permission overwrite applies to.
#[derive(Clone, Copy, Debug, PartialEq, Eq, Structural)]
pub enum PermissionOverwriteKind {
    Role,
    Member,
}

/// A channel-level change to the permissions of a role or a member.
#[derive(Clone, Copy, Debug, PartialEq, Eq, Structural)]
pub struct PermissionOverwriteInfo {
    pub id: u64,
    pub kind: PermissionOverwriteKind,
    pub allow: u64,
    pub deny: u64,
}

/// The archive state of a thread.
#[derive(Debug, PartialEq, Eq)]
pub struct ThreadMetadataInfo {
    pub archived: bool,
    pub locked: bool,
    /// Minutes of inactivity after which the thread leaves the channel tree.
    pub auto_archive_duration: Option<u64>,
    /// When the archive state last changed.
    pub archive_timestamp: Option<String>,
}

pub struct ThreadMetadataView {
    pub archived: bool,
    pub locked: bool,
    pub auto_archive_duration: Option<u64>,
    pub archive_timestamp: Option<Seq<char>>,
}

impl View for ThreadMetadataInfo {
    type V = ThreadMetadataView;

    open spec fn view(&self) -> ThreadMetadataView {
        ThreadMetadataView {
            archived: self.archived,
            locked: self.locked,
            auto_archive_duration: self.auto_archive_duration,
            archive_timestamp: text_view(self.archive_timestamp),
        }
    }
}

impl Clone for ThreadMetadataInfo {
    fn clone(&self) -> (copy: Self)
        ensures
            copy@ == self@,
    {
        ThreadMetadataInfo {
            archived: self.archived,
            locked: self.locked,
            auto_archive_duration: self.auto_archive_duration,
            archive_timestamp: self.archive_timestamp.clone(),
        }
    }
}

pub open spec fn metadata_view(metadata: Option<ThreadMetadataInfo>) -> Option<ThreadMetadataView> {
    match metadata {
        Some(metadata) => Some(metadata@),
        None => None,
    }
}

/// A tag that posts of a forum can carry.
#[derive(Debug, PartialEq, Eq)]
pub struct ForumTagInfo {
    pub id: ForumTagId,
    pub name: String,
    pub moderated: bool,
}

pub struct ForumTagView {
    pub id: ForumTagId,
    pub name: Seq<char>,
    pub moderated: bool,
}

impl View for ForumTagInfo {
    type V = ForumTagView;

    open spec fn view(&self) -> ForumTagView {
        ForumTagView { id: self.id, name: self.name@, moderated: self.moderated }
    }
}

impl Clone for ForumTagInfo {
    fn clone(&self) -> (copy: Self)
        ensures
            copy@ == self@,
    {
        ForumTagInfo { id: self.id, name: self.name.clone(), moderated: self.moderated }
    }
}

pub open spec fn tag_views(tags: Seq<ForumTagInfo>) -> Seq<ForumTagView> {
    tags.map_values(|tag: ForumTagInfo| tag@)
}

/// A member of a private conversation, as a payload describes it.
#[derive(Debug, PartialEq, Eq)]
pub struct ChannelRecipientInfo {
    pub user_id: UserId,
    pub display_name: String,
    pub username: Option<String>,
    pub is_bot: bool,
    pub avatar_url: Option<String>,
    pub status: Option<PresenceStatus>,
}

pub struct RecipientInfoView {
    pub user_id: UserId,
    pub display_name: Seq<char>,
    pub username: Option<Seq<char>>,
    pub is_bot: bool,
    pub avatar_url: Option<Seq<char>>,
    pub status: Option<PresenceStatus>,
}

impl View for ChannelRecipientInfo {
    type V = RecipientInfoView;

    open spec fn view(&self) -> RecipientInfoView {
        RecipientInfoView {
            user_id: self.user_id,
            display_name: self.display_name@,
            username: text_view(self.username),
            is_bot: self.is_bot,
            avatar_url: text_view(self.avatar_url),
            status: self.status,
        }
    }
}

pub open spec fn recipient_info_views(recipients: Seq<ChannelRecipientInfo>) -> Seq<
    RecipientInfoView,
> {
    recipients.map_values(|recipient: ChannelRecipientInfo| recipient@)
}

/// A channel, as a payload describes it. Partial payloads leave optional fields out.
#[derive(Debug, PartialEq, Eq)]
pub struct ChannelInfo {
    pub guild_id: Option<GuildId>,
    pub channel_id: ChannelId,
    pub parent_id: Option<ChannelId>,
    pub owner_id: Option<UserId>,
    pub position: Option<i32>,
    pub last_message_id: Option<MessageId>,
    pub name: String,
    pub kind: String,
    pub message_count: Option<u64>,
    pub member_count: Option<u64>,
    pub user_limit: Option<u64>,
    pub total_message_sent: Option<u64>,
    pub thread_metadata: Option<ThreadMetadataInfo>,
    pub flags: Option<u64>,
    pub rate_limit_per_user: Option<u64>,
    pub available_tags: Vec<ForumTagInfo>,
    pub applied_tags: Vec<ForumTagId>,
    pub recipients: Option<Vec<ChannelRecipientInfo>>,
    pub permission_overwrites: Vec<PermissionOverwriteInfo>,
    pub is_message_request: Option<bool>,
    pub is_spam: Option<bool>,
}

pub struct ChannelInfoView {
    pub guild_id: Option<GuildId>,
    pub channel_id: ChannelId,
    pub parent_id: Option<ChannelId>,
    pub owner_id: Option<UserId>,
    pub position: Option<i32>,
    pub last_message_id: Option<MessageId>,
    pub name: Seq<char>,
    pub kind: Seq<char>,
    pub message_count: Option<u64>,
    pub member_count: Option<u64>,
    pub user_limit: Option<u64>,
    pub total_message_sent: Option<u64>,
    pub thread_metadata: Option<ThreadMetadataView>,
    pub flags: Option<u64>,
    pub rate_limit_per_user: Option<u64>,
    pub available_tags: Seq<ForumTagView>,
    pub applied_tags: Seq<ForumTagId>,
    pub recipients: Option<Seq<RecipientInfoView>>,
    pub permission_overwrites: Seq<PermissionOverwriteInfo>,
    pub is_message_request: Option<bool>,
    pub is_spam: Option<bool>,
}

impl View for ChannelInfo {
    type V = ChannelInfoView;

    open spec fn view(&self) -> ChannelInfoView {
        ChannelInfoView {
            guild_id: self.guild_id,
            channel_id: self.channel_id,
            parent_id: self.parent_id,
            owner_id: self.owner_id,
            position: self.position,
            last_message_id: self.last_message_id,
            name: self.name@,
            kind: self.kind@,
            message_count: self.message_count,
            member_count: self.member_count,
            user_limit: self.user_limit,
            total_message_sent: self.total_message_sent,
            thread_metadata: metadata_view(self.thread_metadata),
            flags: self.flags,
            rate_limit_per_user: self.rate_limit_per_user,
            available_tags: tag_views(self.available_tags@),
            applied_tags: self.applied_tags@,
            recipients: match self.recipients {
                Some(recipients) => Some(recipient_info_views(recipients@)),
                None => None,
            },
            permission_overwrites: self.permission_overwrites@,
            is_message_request: self.is_message_request,
            is_spam: self.is_spam,
        }
    }
}

} // verus!
