//! The client's picture of the servers, channels and people it knows.
use crate::channel::{ChannelState, ChannelView};
use crate::ids::{ChannelId, GuildId, MessageId, RoleId, UserId};
use crate::message::{message_views, MessageState, MessageView};
use crate::notification::settings::{GuildNotificationSettingsState, SettingsView};
use crate::payload::{ChannelRecipientInfo, PresenceStatus, RecipientInfoView};
use crate::text::{borrowed, str_view, text_view};
use crate::views::{first_of, opt_view, ref_view};
use std::collections::{BTreeMap, BTreeSet};
use vstd::prelude::*;

verus! {

/// The known channels.
#[derive(Debug)]
pub struct NavigationState {
    /// By channel id.
    pub channels: BTreeMap<u64, ChannelState>,
    /// The guild channels whose permissions keep the current user from seeing them.
    pub hidden_channels: BTreeSet<u64>,
}

/// What the current user set up for a thread that they joined.
#[derive(Debug, PartialEq, Eq)]
pub struct ThreadMemberState {
    pub flags: Option<u64>,
    pub muted: Option<bool>,
    pub mute_end_time: Option<String>,
}

pub struct ThreadMemberView {
    pub flags: Option<u64>,
    pub muted: Option<bool>,
    pub mute_end_time: Option<Seq<char>>,
}

impl View for ThreadMemberState {
    type V = ThreadMemberView;

    open spec fn view(&self) -> ThreadMemberView {
        ThreadMemberView {
            flags: self.flags,
            muted: self.muted,
            mute_end_time: text_view(self.mute_end_time),
        }
    }
}

/// The threads that are active, and those that the current user joined.
#[derive(Debug)]
pub struct ThreadState {
    pub active: BTreeSet<u64>,
    /// By thread id.
    pub current_user_members: BTreeMap<u64, ThreadMemberState>,
}

impl ThreadState {
    /// Whether the thread was reported as active.
    pub fn is_active(&self, channel_id: ChannelId) -> (active: bool)
        ensures
            active == self.active@.contains(channel_id.value),
    {
        self.active.contains(&channel_id.value)
    }

    /// The current user's membership of the thread.
    pub fn current_user_member(&self, channel_id: ChannelId) -> (member: Option<&ThreadMemberState>)
        ensures
            match member {
                Some(member) => self.current_user_members@.contains_key(channel_id.value)
                    && self.current_user_members@[channel_id.value] == member,
                None => !self.current_user_members@.contains_key(channel_id.value),
            },
    {
        self.current_user_members.get(&channel_id.value)
    }
}

/// The current user's session.
#[derive(Debug)]
pub struct SessionState {
    pub current_user_id: Option<UserId>,
    /// Users that the session started with, by user id.
    pub ready_users: BTreeMap<u64, ChannelRecipientInfo>,
    /// The current user's roles, by guild id.
    pub current_user_roles: BTreeMap<u64, Vec<RoleId>>,
}

#[derive(Debug)]
pub struct PresenceState {
    /// By user id.
    pub user_presences: BTreeMap<u64, PresenceStatus>,
}

/// How the current user is related to somebody.
#[derive(Clone, Copy, Debug, PartialEq, Eq, Structural)]
pub enum FriendStatus {
    NoRelation,
    Friend,
    Blocked,
    IncomingRequest,
    OutgoingRequest,
}

#[derive(Debug, PartialEq, Eq)]
pub struct RelationshipState {
    pub status: FriendStatus,
    pub ignored: bool,
    pub nickname: Option<String>,
}

pub struct RelationshipView {
    pub status: FriendStatus,
    pub ignored: bool,
    pub nickname: Option<Seq<char>>,
}

impl View for RelationshipState {
    type V = RelationshipView;

    open spec fn view(&self) -> RelationshipView {
        RelationshipView {
            status: self.status,
            ignored: self.ignored,
            nickname: text_view(self.nickname),
        }
    }
}

#[derive(Debug)]
pub struct ProfileState {
    /// By user id.
    pub relationships: BTreeMap<u64, RelationshipState>,
}

/// How far a channel has been read, and what has come since.
#[derive(Clone, Copy, Debug, PartialEq, Eq, Structural)]
pub struct ChannelReadState {
    pub last_acked_message_id: Option<MessageId>,
    pub mention_count: u32,
    pub notification_count: u32,
}

#[derive(Debug)]
pub struct NotificationState {
    /// By guild id.
    pub notification_settings: BTreeMap<u64, GuildNotificationSettingsState>,
    pub private_notification_settings: Option<GuildNotificationSettingsState>,
    /// By channel id.
    pub read_states: BTreeMap<u64, ChannelReadState>,
    pub user_notification_flags: u64,
}

/// The loaded messages of a channel.
#[derive(Debug)]
pub struct MessageTimeline {
    pub messages: Vec<MessageState>,
}

impl View for MessageTimeline {
    type V = Seq<MessageView>;

    open spec fn view(&self) -> Seq<MessageView> {
        message_views(self.messages@)
    }
}

#[derive(Debug)]
pub struct MessageCache {
    /// By channel id.
    pub timelines: BTreeMap<u64, MessageTimeline>,
}

#[derive(Debug)]
pub struct DiscordState {
    pub navigation: NavigationState,
    pub threads: ThreadState,
    pub session: SessionState,
    pub presence: PresenceState,
    pub profiles: ProfileState,
    pub notifications: NotificationState,
    pub message_cache: MessageCache,
}

pub struct StateView {
    pub channels: Map<u64, ChannelView>,
    pub hidden_channels: Set<u64>,
    pub active_threads: Set<u64>,
    pub thread_members: Map<u64, ThreadMemberView>,
    pub current_user_id: Option<UserId>,
    pub ready_users: Map<u64, RecipientInfoView>,
    pub current_user_roles: Map<u64, Seq<RoleId>>,
    pub presences: Map<u64, PresenceStatus>,
    pub relationships: Map<u64, RelationshipView>,
    pub notification_settings: Map<u64, SettingsView>,
    pub private_notification_settings: Option<SettingsView>,
    pub read_states: Map<u64, ChannelReadState>,
    pub user_notification_flags: u64,
    pub timelines: Map<u64, Seq<MessageView>>,
}

pub open spec fn channel_map_view(channels: Map<u64, ChannelState>) -> Map<u64, ChannelView> {
    channels.map_values(|channel: ChannelState| channel@)
}

impl View for DiscordState {
    type V = StateView;

    open spec fn view(&self) -> StateView {
        StateView {
            channels: channel_map_view(self.navigation.channels@),
            hidden_channels: self.navigation.hidden_channels@,
            active_threads: self.threads.active@,
            thread_members: self.threads.current_user_members@.map_values(
                |member: ThreadMemberState| member@,
            ),
            current_user_id: self.session.current_user_id,
            ready_users: self.session.ready_users@.map_values(|user: ChannelRecipientInfo| user@),
            current_user_roles: self.session.current_user_roles@.map_values(
                |roles: Vec<RoleId>| roles@,
            ),
            presences: self.presence.user_presences@,
            relationships: self.profiles.relationships@.map_values(
                |relationship: RelationshipState| relationship@,
            ),
            notification_settings: self.notifications.notification_settings@.map_values(
                |settings: GuildNotificationSettingsState| settings@,
            ),
            private_notification_settings: opt_view(
                self.notifications.private_notification_settings,
            ),
            read_states: self.notifications.read_states@,
            user_notification_flags: self.notifications.user_notification_flags,
            timelines: self.message_cache.timelines@.map_values(
                |timeline: MessageTimeline| timeline@,
            ),
        }
    }
}

impl StateView {
    /// Every channel is filed under its own id, and the channels are finitely many.
    pub open spec fn wf(self) -> bool {
        &&& self.channels.dom().finite()
        &&& forall|key: u64| #[trigger]
            self.channels.contains_key(key) ==> self.channels[key].id.value == key
    }

    pub open spec fn channel(self, channel_id: ChannelId) -> Option<ChannelView> {
        self.channels.get(channel_id.value)
    }

    pub open spec fn channel_guild_id(self, channel_id: ChannelId) -> Option<GuildId> {
        match self.channel(channel_id) {
            Some(channel) => channel.guild_id,
            None => None,
        }
    }

    pub open spec fn parent_of(self, channel_id: ChannelId) -> Option<ChannelId> {
        match self.channel(channel_id) {
            Some(channel) => channel.parent_id,
            None => None,
        }
    }

    /// Private conversations are always visible. A thread is as visible as its parent.
    pub open spec fn can_view_channel(self, channel: ChannelView) -> bool {
        channel.guild_id is None || !self.hidden_channels.contains(permission_channel(channel).value)
    }

    pub open spec fn private_user_display_name(
        self,
        user_id: UserId,
        display_name: Option<Seq<char>>,
        username: Option<Seq<char>>,
    ) -> Seq<char> {
        let nickname = match self.relationships.get(user_id.value) {
            Some(relationship) => relationship.nickname,
            None => None,
        };
        match first_of(first_of(nickname, display_name), username) {
            Some(name) => name,
            None => "unknown"@,
        }
    }

    pub open spec fn thread_is_muted(self, channel_id: ChannelId) -> bool {
        match self.thread_members.get(channel_id.value) {
            Some(member) => member.muted == Some(true),
            None => false,
        }
    }

    pub open spec fn thread_mute_end_time(self, channel_id: ChannelId) -> Option<Seq<char>> {
        match self.thread_members.get(channel_id.value) {
            Some(member) => member.mute_end_time,
            None => None,
        }
    }

    pub open spec fn thread_notification_level_flags(self, channel_id: ChannelId) -> Option<u64> {
        match self.thread_members.get(channel_id.value) {
            Some(member) => member.flags,
            None => None,
        }
    }
}

/// The channel whose permissions decide: the parent of a thread, else the channel itself.
pub open spec fn permission_channel(channel: ChannelView) -> ChannelId {
    if channel.is_thread() && channel.parent_id is Some {
        channel.parent_id->Some_0
    } else {
        channel.id
    }
}

impl Default for DiscordState {
    fn default() -> (state: Self)
        ensures
            state@.channels == Map::<u64, ChannelView>::empty(),
            state@.hidden_channels == Set::<u64>::empty(),
            state@.active_threads == Set::<u64>::empty(),
            state@.thread_members == Map::<u64, ThreadMemberView>::empty(),
            state@.current_user_id is None,
            state@.ready_users == Map::<u64, RecipientInfoView>::empty(),
            state@.current_user_roles == Map::<u64, Seq<RoleId>>::empty(),
            state@.presences == Map::<u64, PresenceStatus>::empty(),
            state@.relationships == Map::<u64, RelationshipView>::empty(),
            state@.notification_settings == Map::<u64, SettingsView>::empty(),
            state@.private_notification_settings is None,
            state@.read_states == Map::<u64, ChannelReadState>::empty(),
            state@.user_notification_flags == 0,
            state@.timelines == Map::<u64, Seq<MessageView>>::empty(),
            state@.wf(),
    {
        let state = DiscordState {
            navigation: NavigationState {
                channels: BTreeMap::new(),
                hidden_channels: BTreeSet::new(),
            },
            threads: ThreadState {
                active: BTreeSet::new(),
                current_user_members: BTreeMap::new(),
            },
            session: SessionState {
                current_user_id: None,
                ready_users: BTreeMap::new(),
                current_user_roles: BTreeMap::new(),
            },
            presence: PresenceState { user_presences: BTreeMap::new() },
            profiles: ProfileState { relationships: BTreeMap::new() },
            notifications: NotificationState {
                notification_settings: BTreeMap::new(),
                private_notification_settings: None,
                read_states: BTreeMap::new(),
                user_notification_flags: 0,
            },
            message_cache: MessageCache { timelines: BTreeMap::new() },
        };
        proof {
            assert(state@.channels =~= Map::empty());
            assert(state@.thread_members =~= Map::empty());
            assert(state@.ready_users =~= Map::empty());
            assert(state@.current_user_roles =~= Map::empty());
            assert(state@.relationships =~= Map::empty());
            assert(state@.notification_settings =~= Map::empty());
            assert(state@.timelines =~= Map::empty());
        }
        state
    }
}

impl DiscordState {
    pub fn channel(&self, channel_id: ChannelId) -> (channel: Option<&ChannelState>)
        ensures
            ref_view(channel) == self@.channel(channel_id),
    {
        self.navigation.channels.get(&channel_id.value)
    }

    pub fn channel_guild_id(&self, channel_id: ChannelId) -> (guild_id: Option<GuildId>)
        ensures
            guild_id == self@.channel_guild_id(channel_id),
    {
        match self.channel(channel_id) {
            Some(channel) => channel.guild_id,
            None => None,
        }
    }

    /// The channel's parent: the channel of a thread, or the category of a channel.
    pub fn parent_of(&self, channel_id: ChannelId) -> (parent_id: Option<ChannelId>)
        ensures
            parent_id == self@.parent_of(channel_id),
    {
        match self.channel(channel_id) {
            Some(channel) => channel.parent_id,
            None => None,
        }
    }

    /// Whether the current user may see the channel.
    pub fn can_view_channel(&self, channel: &ChannelState) -> (viewable: bool)
        ensures
            viewable == self@.can_view_channel(channel@),
    {
        if channel.guild_id.is_none() {
            return true;
        }
        let governing = if channel.is_thread() {
            channel.parent_id.unwrap_or(channel.id)
        } else {
            channel.id
        };
        !self.navigation.hidden_channels.contains(&governing.value)
    }

    /// The name to show for somebody in a private conversation: the nickname that the current
    /// user gave them, else the display name, else the login handle.
    pub fn private_user_display_name(
        &self,
        user_id: UserId,
        display_name: Option<&str>,
        username: Option<&str>,
    ) -> (name: String)
        ensures
            name@ == self@.private_user_display_name(
                user_id,
                str_view(display_name),
                str_view(username),
            ),
    {
        if let Some(relationship) = self.profiles.relationships.get(&user_id.value) {
            if let Some(nickname) = &relationship.nickname {
                return nickname.clone();
            }
        }
        match display_name {
            Some(name) => name.to_owned(),
            None => match username {
                Some(name) => name.to_owned(),
                None => "unknown".to_owned(),
            },
        }
    }

    /// The roles that the current user has in a guild.
    pub fn current_user_role_ids_for_guild(&self, guild_id: GuildId) -> (roles: Option<&Vec<RoleId>>)
        ensures
            ref_view(roles) == self@.current_user_roles.get(guild_id.value),
    {
        self.session.current_user_roles.get(&guild_id.value)
    }

    /// Whether the current user muted the thread, whatever the end of the mute.
    pub fn thread_is_muted(&self, channel_id: ChannelId) -> (muted: bool)
        ensures
            muted == self@.thread_is_muted(channel_id),
    {
        match self.threads.current_user_member(channel_id) {
            Some(member) => member.muted.unwrap_or(false),
            None => false,
        }
    }

    pub fn thread_mute_end_time(&self, channel_id: ChannelId) -> (end_time: Option<&str>)
        ensures
            str_view(end_time) == self@.thread_mute_end_time(channel_id),
    {
        match self.threads.current_user_member(channel_id) {
            Some(member) => borrowed(&member.mute_end_time),
            None => None,
        }
    }

    pub fn thread_notification_level_flags(&self, channel_id: ChannelId) -> (flags: Option<u64>)
        ensures
            flags == self@.thread_notification_level_flags(channel_id),
    {
        match self.threads.current_user_member(channel_id) {
            Some(member) => member.flags,
            None => None,
        }
    }
}

} // verus!
