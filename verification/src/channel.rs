//! Channels, threads and private conversations.
use crate::clock::{parse_rfc3339, read_unix_millis, rfc3339_timestamp, Timestamp};
use crate::ids::{ChannelId, ForumTagId, GuildId, MessageId, UserId};
use crate::payload::{
    metadata_view, tag_views, ForumTagInfo, ForumTagView, PermissionOverwriteInfo,
    ThreadMetadataInfo, ThreadMetadataView, VoiceScope,
};
use crate::recipient::{recipient_views, ChannelRecipientState, RecipientView};
use crate::text::{same_text, str_view};
use vstd::prelude::*;

verus! {

/// Flag of a forum post that is pinned to the top of its forum.
pub const THREAD_PINNED: u64 = 1 << 1;

/// Flag of a thread that was taken out of the active channel tree.
pub const ACTIVE_CHANNELS_REMOVED: u64 = 1 << 2;

/// Flag of a forum whose posts need a tag.
pub const REQUIRE_TAG: u64 = 1 << 4;

/// The first second of 2015, from which identifiers count their milliseconds.
pub const DISCORD_EPOCH_MILLIS: u64 = 1_420_070_400_000;

pub const MILLIS_PER_MINUTE: u64 = 60_000;

pub open spec fn spec_is_thread_kind(kind: Seq<char>) -> bool {
    ||| kind == "thread"@
    ||| kind == "GuildPublicThread"@
    ||| kind == "GuildPrivateThread"@
    ||| kind == "GuildNewsThread"@
    ||| kind == "private-thread"@
}

pub open spec fn spec_is_private_thread_kind(kind: Seq<char>) -> bool {
    kind == "GuildPrivateThread"@ || kind == "private-thread"@
}

pub open spec fn spec_is_dm_kind(kind: Seq<char>) -> bool {
    kind == "dm"@ || kind == "Private"@
}

pub fn is_thread_kind(kind: &str) -> (thread: bool)
    ensures
        thread == spec_is_thread_kind(kind@),
{
    same_text(kind, "thread") || same_text(kind, "GuildPublicThread") || same_text(
        kind,
        "GuildPrivateThread",
    ) || same_text(kind, "GuildNewsThread") || same_text(kind, "private-thread")
}

pub fn is_private_thread_kind(kind: &str) -> (private: bool)
    ensures
        private == spec_is_private_thread_kind(kind@),
{
    same_text(kind, "GuildPrivateThread") || same_text(kind, "private-thread")
}

/// Whether `kind` names a one-to-one direct message.
pub fn is_dm_kind(kind: &str) -> (dm: bool)
    ensures
        dm == spec_is_dm_kind(kind@),
{
    same_text(kind, "dm") || same_text(kind, "Private")
}

#[derive(Debug, PartialEq, Eq)]
pub struct ChannelState {
    pub id: ChannelId,
    pub guild_id: Option<GuildId>,
    pub parent_id: Option<ChannelId>,
    pub owner_id: Option<UserId>,
    pub position: Option<i32>,
    pub last_message_id: Option<MessageId>,
    pub name: String,
    pub kind: String,
    pub message_count: Option<u64>,
    pub member_count: Option<u64>,
    /// Voice channel participant limit. Zero stands for unlimited.
    pub user_limit: Option<u64>,
    pub total_message_sent: Option<u64>,
    pub thread_metadata: Option<ThreadMetadataInfo>,
    pub flags: Option<u64>,
    /// Slow-mode cooldown in seconds.
    pub rate_limit_per_user: Option<u64>,
    pub available_tags: Vec<ForumTagInfo>,
    pub applied_tags: Vec<ForumTagId>,
    pub recipients: Vec<ChannelRecipientState>,
    /// Channel-level permission overrides. Threads inherit from their parent channel, so this
    /// stays empty for threads even after a payload arrives.
    pub permission_overwrites: Vec<PermissionOverwriteInfo>,
    /// A pending message request from someone who is not a friend.
    pub is_message_request: Option<bool>,
    /// A message request classified as spam.
    pub is_spam: Option<bool>,
}

pub struct ChannelView {
    pub id: ChannelId,
    pub guild_id: Option<GuildId>,
    pub parent_id: Option<ChannelId>,
    pub owner_id: Option<UserId>,
    pub position: Option<i32>,
    pub last_message_id: Option<MessageId>,
    pub name: Seq<char>,
    pub kind: Seq<char>,
    pub message_count: Option<u64>,
    pub member_count: Option<u64>,
    pub user_limit: Option<u64>,
    pub total_message_sent: Option<u64>,
    pub thread_metadata: Option<ThreadMetadataView>,
    pub flags: Option<u64>,
    pub rate_limit_per_user: Option<u64>,
    pub available_tags: Seq<ForumTagView>,
    pub applied_tags: Seq<ForumTagId>,
    pub recipients: Seq<RecipientView>,
    pub permission_overwrites: Seq<PermissionOverwriteInfo>,
    pub is_message_request: Option<bool>,
    pub is_spam: Option<bool>,
}

impl View for ChannelState {
    type V = ChannelView;

    open spec fn view(&self) -> ChannelView {
        ChannelView {
            id: self.id,
            guild_id: self.guild_id,
            parent_id: self.parent_id,
            owner_id: self.owner_id,
            position: self.position,
            last_message_id: self.last_message_id,
            name: self.name@,
            kind: self.kind@,
            message_count: self.message_count,
            member_count: self.member_count,
            user_limit: self.user_limit,
            total_message_sent: self.total_message_sent,
            thread_metadata: metadata_view(self.thread_metadata),
            flags: self.flags,
            rate_limit_per_user: self.rate_limit_per_user,
            available_tags: tag_views(self.available_tags@),
            applied_tags: self.applied_tags@,
            recipients: recipient_views(self.recipients@),
            permission_overwrites: self.permission_overwrites@,
            is_message_request: self.is_message_request,
            is_spam: self.is_spam,
        }
    }
}

impl Clone for ChannelState {
    fn clone(&self) -> (copy: Self)
        ensures
            copy@ == self@,
    {
        let copy = ChannelState {
            id: self.id,
            guild_id: self.guild_id,
            parent_id: self.parent_id,
            owner_id: self.owner_id,
            position: self.position,
            last_message_id: self.last_message_id,
            name: self.name.clone(),
            kind: self.kind.clone(),
            message_count: self.message_count,
            member_count: self.member_count,
            user_limit: self.user_limit,
            total_message_sent: self.total_message_sent,
            thread_metadata: self.thread_metadata.clone(),
            flags: self.flags,
            rate_limit_per_user: self.rate_limit_per_user,
            available_tags: self.available_tags.clone(),
            applied_tags: self.applied_tags.clone(),
            recipients: self.recipients.clone(),
            permission_overwrites: self.permission_overwrites.clone(),
            is_message_request: self.is_message_request,
            is_spam: self.is_spam,
        };
        proof {
            assert(copy@.available_tags =~= self@.available_tags);
            assert(copy@.applied_tags =~= self@.applied_tags);
            assert(copy@.recipients =~= self@.recipients);
            assert(copy@.permission_overwrites =~= self@.permission_overwrites);
        }
        copy
    }
}

/// The millisecond at which an identifier was made.
pub open spec fn snowflake_millis(id: u64) -> int {
    (id >> 22) + DISCORD_EPOCH_MILLIS
}

/// The larger of two numbers.
pub open spec fn larger(a: int, b: int) -> int {
    if a >= b {
        a
    } else {
        b
    }
}

/// `n`, or the largest 64-bit value where `n` does not fit.
pub open spec fn capped(n: int) -> int {
    if n <= u64::MAX {
        n
    } else {
        u64::MAX as int
    }
}

impl ChannelView {
    pub open spec fn is_category(self) -> bool {
        self.kind == "category"@ || self.kind == "GuildCategory"@
    }

    pub open spec fn is_thread(self) -> bool {
        spec_is_thread_kind(self.kind)
    }

    pub open spec fn is_forum(self) -> bool {
        self.kind == "forum"@ || self.kind == "media"@ || self.kind == "GuildForum"@
    }

    pub open spec fn is_dm(self) -> bool {
        spec_is_dm_kind(self.kind)
    }

    pub open spec fn dm_request_tag(self) -> Option<Seq<char>> {
        if !self.is_dm() {
            None
        } else if self.is_spam == Some(true) {
            Some("spam"@)
        } else if self.is_message_request == Some(true) {
            Some("request"@)
        } else {
            None
        }
    }

    pub open spec fn is_voice(self) -> bool {
        self.kind == "voice"@ || self.kind == "GuildVoice"@
    }

    pub open spec fn is_stage(self) -> bool {
        self.kind == "stage"@ || self.kind == "GuildStageVoice"@
    }

    pub open spec fn is_dm_or_group_dm(self) -> bool {
        self.is_dm() || self.kind == "group-dm"@ || self.kind == "Group"@
    }

    pub open spec fn supports_voice_call(self) -> bool {
        self.is_voice() || self.is_dm_or_group_dm()
    }

    pub open spec fn voice_scope(self) -> VoiceScope {
        match self.guild_id {
            Some(guild_id) => VoiceScope::Guild(guild_id),
            None => VoiceScope::Private(self.id),
        }
    }

    pub open spec fn is_private_thread(self) -> bool {
        spec_is_private_thread_kind(self.kind)
    }

    pub open spec fn thread_archived(self) -> Option<bool> {
        match self.thread_metadata {
            Some(metadata) => Some(metadata.archived),
            None => None,
        }
    }

    pub open spec fn thread_locked(self) -> Option<bool> {
        match self.thread_metadata {
            Some(metadata) => Some(metadata.locked),
            None => None,
        }
    }

    pub open spec fn thread_pinned(self) -> Option<bool> {
        match self.flags {
            Some(flags) => Some(flags & THREAD_PINNED != 0),
            None => None,
        }
    }

    pub open spec fn removed_from_active_channels(self) -> bool {
        match self.flags {
            Some(flags) => flags & ACTIVE_CHANNELS_REMOVED != 0,
            None => false,
        }
    }

    pub open spec fn requires_forum_tag(self) -> bool {
        match self.flags {
            Some(flags) => flags & REQUIRE_TAG == REQUIRE_TAG,
            None => false,
        }
    }

    pub open spec fn is_active_thread(self) -> bool {
        &&& self.is_thread()
        &&& self.thread_archived() != Some(true)
        &&& !self.removed_from_active_channels()
    }

    /// The identifier that was made last: of the latest message, else of the thread itself.
    pub open spec fn activity_snowflake(self) -> u64 {
        match self.last_message_id {
            Some(message_id) => message_id.value,
            None => self.id.value,
        }
    }

    pub open spec fn auto_archive_minutes(self) -> Option<u64> {
        match self.thread_metadata {
            Some(metadata) => metadata.auto_archive_duration,
            None => None,
        }
    }

    /// The last change of the archive state, where the payload gave a readable one.
    pub open spec fn archive_change(self) -> Option<Timestamp> {
        match self.thread_metadata {
            Some(metadata) => match metadata.archive_timestamp {
                Some(text) => rfc3339_timestamp(text),
                None => None,
            },
            None => None,
        }
    }

    /// The end of the inactivity window of `minutes` minutes after the last activity.
    pub open spec fn archive_deadline(self, minutes: u64, archive_change: Option<Timestamp>) -> int {
        let changed = match archive_change {
            Some(time) => larger(time.millis as int, 0),
            None => 0,
        };
        capped(
            larger(snowflake_millis(self.activity_snowflake()), changed) + minutes
                * MILLIS_PER_MINUTE,
        )
    }

    pub open spec fn shows_in_active_channel_tree_given(
        self,
        now_millis: u64,
        archive_change: Option<Timestamp>,
    ) -> bool {
        &&& self.is_active_thread()
        &&& self.thread_pinned() == Some(true) || match self.auto_archive_minutes() {
            Some(minutes) => now_millis < self.archive_deadline(minutes, archive_change),
            None => true,
        }
    }

    pub open spec fn shows_in_active_channel_tree_at(self, now_millis: u64) -> bool {
        self.shows_in_active_channel_tree_given(now_millis, self.archive_change())
    }
}

impl ChannelState {
    pub fn is_category(&self) -> (category: bool)
        ensures
            category == self@.is_category(),
    {
        same_text(&self.kind, "category") || same_text(&self.kind, "GuildCategory")
    }

    pub fn is_thread(&self) -> (thread: bool)
        ensures
            thread == self@.is_thread(),
    {
        is_thread_kind(&self.kind)
    }

    pub fn is_forum(&self) -> (forum: bool)
        ensures
            forum == self@.is_forum(),
    {
        same_text(&self.kind, "forum") || same_text(&self.kind, "media") || same_text(
            &self.kind,
            "GuildForum",
        )
    }

    /// A one-to-one direct message. Group conversations are excluded.
    pub fn is_dm(&self) -> (dm: bool)
        ensures
            dm == self@.is_dm(),
    {
        is_dm_kind(&self.kind)
    }

    /// Sidebar tag for a direct message flagged as spam or as a message request. Spam wins.
    pub fn dm_request_tag(&self) -> (tag: Option<&'static str>)
        ensures
            str_view(tag) == self@.dm_request_tag(),
    {
        if !self.is_dm() {
            return None;
        }
        if self.is_spam == Some(true) {
            return Some("spam");
        }
        if self.is_message_request == Some(true) {
            return Some("request");
        }
        None
    }

    pub fn is_voice(&self) -> (voice: bool)
        ensures
            voice == self@.is_voice(),
    {
        same_text(&self.kind, "voice") || same_text(&self.kind, "GuildVoice")
    }

    pub fn is_stage(&self) -> (stage: bool)
        ensures
            stage == self@.is_stage(),
    {
        same_text(&self.kind, "stage") || same_text(&self.kind, "GuildStageVoice")
    }

    /// A one-to-one or a group conversation: the private channels that support a call.
    pub fn is_dm_or_group_dm(&self) -> (private: bool)
        ensures
            private == self@.is_dm_or_group_dm(),
    {
        self.is_dm() || same_text(&self.kind, "group-dm") || same_text(&self.kind, "Group")
    }

    /// Whether a voice call can be placed here: a guild voice channel, or a private conversation.
    pub fn supports_voice_call(&self) -> (supported: bool)
        ensures
            supported == self@.supports_voice_call(),
    {
        self.is_voice() || self.is_dm_or_group_dm()
    }

    /// A guild voice channel routes by its guild; a private conversation routes a call by its
    /// own channel id.
    pub fn voice_scope(&self) -> (scope: VoiceScope)
        ensures
            scope == self@.voice_scope(),
    {
        match self.guild_id {
            Some(guild_id) => VoiceScope::Guild(guild_id),
            None => VoiceScope::Private(self.id),
        }
    }

    pub fn is_private_thread(&self) -> (private: bool)
        ensures
            private == self@.is_private_thread(),
    {
        is_private_thread_kind(&self.kind)
    }

    pub fn thread_archived(&self) -> (archived: Option<bool>)
        ensures
            archived == self@.thread_archived(),
    {
        match &self.thread_metadata {
            Some(metadata) => Some(metadata.archived),
            None => None,
        }
    }

    pub fn thread_locked(&self) -> (locked: Option<bool>)
        ensures
            locked == self@.thread_locked(),
    {
        match &self.thread_metadata {
            Some(metadata) => Some(metadata.locked),
            None => None,
        }
    }

    pub fn thread_pinned(&self) -> (pinned: Option<bool>)
        ensures
            pinned == self@.thread_pinned(),
    {
        match self.flags {
            Some(flags) => Some(flags & THREAD_PINNED != 0),
            None => None,
        }
    }

    pub fn removed_from_active_channels(&self) -> (removed: bool)
        ensures
            removed == self@.removed_from_active_channels(),
    {
        match self.flags {
            Some(flags) => flags & ACTIVE_CHANNELS_REMOVED != 0,
            None => false,
        }
    }

    pub fn is_active_thread(&self) -> (active: bool)
        ensures
            active == self@.is_active_thread(),
    {
        self.is_thread() && !self.thread_archived().unwrap_or(false)
            && !self.removed_from_active_channels()
    }

    /// Joined threads stay in the channel tree only until their inactivity window expires.
    /// Pinned forum posts remain in the tree. An overdue thread can be reported as unarchived
    /// for a while, so the deadline is derived from its latest message or archive-state change.
    ///
    /// The answer is the one for some reading of the clock.
    pub fn shows_in_active_channel_tree(&self) -> (shows: bool)
        ensures
            exists|now_millis: u64| shows == self@.shows_in_active_channel_tree_at(now_millis),
    {
        self.shows_in_active_channel_tree_at(read_unix_millis())
    }

    /// Whether the thread belongs in the channel tree at `now_millis`.
    pub fn shows_in_active_channel_tree_at(&self, now_millis: u64) -> (shows: bool)
        ensures
            shows == self@.shows_in_active_channel_tree_at(now_millis),
    {
        let archive_change = match &self.thread_metadata {
            Some(metadata) => match &metadata.archive_timestamp {
                Some(text) => parse_rfc3339(text.as_str()),
                None => None,
            },
            None => None,
        };
        self.shows_in_active_channel_tree_given(now_millis, archive_change)
    }

    /// Whether the thread belongs in the channel tree at `now_millis`, where its archive state
    /// last changed at `archive_change`.
    pub fn shows_in_active_channel_tree_given(
        &self,
        now_millis: u64,
        archive_change: Option<Timestamp>,
    ) -> (shows: bool)
        ensures
            shows == self@.shows_in_active_channel_tree_given(now_millis, archive_change),
    {
        if !self.is_active_thread() {
            return false;
        }
        if self.thread_pinned() == Some(true) {
            return true;
        }
        let auto_archive_duration = match &self.thread_metadata {
            Some(metadata) => metadata.auto_archive_duration,
            None => None,
        };
        let auto_archive_minutes: u64 = match auto_archive_duration {
            Some(minutes) => minutes,
            None => return true,
        };
        let activity_snowflake: u64 = match self.last_message_id {
            Some(message_id) => message_id.get(),
            None => self.id.get(),
        };
        assert(activity_snowflake >> 22 <= 0x3ff_ffff_ffff) by (bit_vector);
        let snowflake_millis: u64 = (activity_snowflake >> 22).saturating_add(DISCORD_EPOCH_MILLIS);
        let archive_change_millis: u64 = match archive_change {
            Some(time) => if time.millis >= 0 {
                time.millis as u64
            } else {
                0
            },
            None => 0,
        };
        let activity_millis: u64 = if snowflake_millis >= archive_change_millis {
            snowflake_millis
        } else {
            archive_change_millis
        };
        let window: u64 = match auto_archive_minutes.checked_mul(MILLIS_PER_MINUTE) {
            Some(window) => window,
            None => u64::MAX,
        };
        let deadline: u64 = activity_millis.saturating_add(window);
        now_millis < deadline
    }

    pub fn requires_forum_tag(&self) -> (required: bool)
        ensures
            required == self@.requires_forum_tag(),
    {
        match self.flags {
            Some(flags) => flags & REQUIRE_TAG == REQUIRE_TAG,
            None => false,
        }
    }
}

} // verus!
