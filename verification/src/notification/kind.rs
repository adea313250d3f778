//! How a message notifies.
use crate::clock::{read_unix_millis, Now};
use crate::event::AppEvent;
use crate::ids::{ChannelId, GuildId, RoleId, UserId};
use crate::message::{MentionInfo, MessageNotificationInput, MessageState, MessageView};
use crate::notification::settings::NotificationLevel;
use crate::state::{DiscordState, FriendStatus, StateView};
use vstd::prelude::*;

verus! {

/// Message flag: the sender asked for no notification.
pub const SUPPRESS_NOTIFICATIONS_FLAG: u64 = 1 << 12;

/// User flag: messages of channels that notify for all messages count as mentions.
pub const USER_MENTION_ON_ALL_MESSAGES: u64 = 1 << 5;

#[derive(Clone, Copy, Debug, PartialEq, Eq, Structural)]
pub enum MessageNotificationKind {
    Nothing,
    Mention { audible: bool },
    LowImportanceMention,
    Notify,
}

impl MessageNotificationKind {
    pub open spec fn spec_is_audible(self) -> bool {
        self == (MessageNotificationKind::Mention { audible: true })
            || self == MessageNotificationKind::Notify
    }

    pub fn is_audible(self) -> (audible: bool)
        ensures
            audible == self.spec_is_audible(),
    {
        match self {
            MessageNotificationKind::Mention { audible } => audible,
            MessageNotificationKind::Notify => true,
            MessageNotificationKind::LowImportanceMention | MessageNotificationKind::Nothing => false,
        }
    }

    /// Whether the message adds to the mentions of its channel.
    pub open spec fn spec_counts_as_mention(self) -> bool {
        self is Mention || self is LowImportanceMention
    }
}

pub open spec fn mentions_user(mentions: Seq<MentionInfo>, user_id: UserId) -> bool {
    exists|i: int| 0 <= i < mentions.len() && (#[trigger] mentions[i]).user_id == user_id
}

fn mentions_user_by_name(mentions: &[MentionInfo], user_id: UserId) -> (mentioned: bool)
    ensures
        mentioned == mentions_user(mentions@, user_id),
{
    let mut i: usize = 0;
    while i < mentions.len()
        invariant
            i <= mentions.len(),
            forall|j: int| 0 <= j < i ==> (#[trigger] mentions@[j]).user_id != user_id,
        decreases mentions.len() - i,
    {
        if mentions[i].user_id == user_id {
            return true;
        }
        i += 1;
    }
    false
}

/// Whether two lists of roles have one in common.
pub open spec fn roles_overlap(a: Seq<RoleId>, b: Seq<RoleId>) -> bool {
    exists|i: int| 0 <= i < a.len() && b.contains(#[trigger] a[i])
}

fn contains_role(roles: &[RoleId], role_id: RoleId) -> (found: bool)
    ensures
        found == roles@.contains(role_id),
{
    let mut i: usize = 0;
    while i < roles.len()
        invariant
            i <= roles.len(),
            forall|j: int| 0 <= j < i ==> roles@[j] != role_id,
        decreases roles.len() - i,
    {
        if roles[i] == role_id {
            return true;
        }
        i += 1;
    }
    false
}

fn have_common_role(a: &[RoleId], b: &[RoleId]) -> (common: bool)
    ensures
        common == roles_overlap(a@, b@),
{
    let mut i: usize = 0;
    while i < a.len()
        invariant
            i <= a.len(),
            forall|j: int| 0 <= j < i ==> !b@.contains(#[trigger] a@[j]),
        decreases a.len() - i,
    {
        if contains_role(b, a[i]) {
            return true;
        }
        i += 1;
    }
    false
}

impl StateView {
    /// Mentions of the current user: by name, by everyone or by one of their roles in the
    /// guild, as far as these are not suppressed.
    pub open spec fn message_mentions_current_user(
        self,
        guild_id: GuildId,
        message: MessageView,
        suppress_everyone: bool,
        suppress_roles: bool,
    ) -> bool {
        match self.current_user_id {
            Some(user_id) => {
                ||| mentions_user(message.mentions, user_id)
                ||| !suppress_everyone && message.mention_everyone
                ||| !suppress_roles && match self.current_user_roles.get(guild_id.value) {
                    Some(roles) => roles_overlap(roles, message.mention_roles),
                    None => false,
                }
            },
            None => false,
        }
    }

    /// Messages that never notify: those of the current user, those of somebody blocked or
    /// ignored, and those that have been read.
    pub open spec fn message_is_settled(self, message: MessageView) -> bool {
        ||| self.current_user_id == Some(message.author_id)
        ||| match self.relationships.get(message.author_id.value) {
            Some(relationship) => relationship.status == FriendStatus::Blocked
                || relationship.ignored,
            None => false,
        }
        ||| match self.read_states.get(message.channel_id.value) {
            Some(read) => match read.last_acked_message_id {
                Some(acked) => acked.value >= message.message_id.value,
                None => false,
            },
            None => false,
        }
    }

    /// Channels that are not known yet may notify: messages can arrive before their channel.
    /// Others must be visible, and threads must be joined and active.
    pub open spec fn channel_notification_eligible(self, channel_id: ChannelId, now_millis: u64) -> bool {
        match self.channel(channel_id) {
            Some(channel) => self.can_view_channel(channel) && (!channel.is_thread()
                || self.thread_is_sidebar_active(channel.id, now_millis)),
            None => true,
        }
    }

    pub open spec fn channel_supports_all_message_mentions(self, channel_id: ChannelId) -> bool {
        match self.channel(channel_id) {
            Some(channel) => !channel.is_voice() && !channel.is_stage(),
            None => true,
        }
    }

    /// How a message notifies where neither its author nor its age keeps it from it.
    pub open spec fn guild_message_kind(
        self,
        guild_id: GuildId,
        message: MessageView,
        now: Now,
    ) -> MessageNotificationKind {
        let channel_id = message.channel_id;
        let settings = self.notification_settings.get(guild_id.value);
        let eligible = self.channel_notification_eligible(channel_id, now.unix_millis);
        let suppressed = message.flags & SUPPRESS_NOTIFICATIONS_FLAG != 0;
        let muted = self.thread_notification_muted(channel_id, now.utc) || match settings {
            Some(settings) => settings.muted_at(now.utc)
                || self.channel_notification_muted_in_settings(settings, channel_id, now.utc),
            None => false,
        };
        let level = match settings {
            Some(settings) => self.channel_notification_level(settings, channel_id),
            None => match self.thread_notification_level(channel_id) {
                Some(level) => level,
                None => NotificationLevel::OnlyMentions,
            },
        };
        let mentioned = self.message_mentions_current_user(
            guild_id,
            message,
            settings is Some && settings->Some_0.suppress_everyone,
            settings is Some && settings->Some_0.suppress_roles,
        );
        if mentioned {
            MessageNotificationKind::Mention {
                audible: eligible && !muted && !suppressed && level != NotificationLevel::NoMessages,
            }
        } else if !eligible || muted || level != NotificationLevel::AllMessages {
            MessageNotificationKind::Nothing
        } else if settings is Some && !self.channel_supports_all_message_mentions(channel_id) {
            MessageNotificationKind::Nothing
        } else if settings is Some && self.user_notification_flags & USER_MENTION_ON_ALL_MESSAGES
            != 0 {
            MessageNotificationKind::LowImportanceMention
        } else if suppressed {
            MessageNotificationKind::Nothing
        } else {
            MessageNotificationKind::Notify
        }
    }

    /// How a message of a private conversation notifies. Every message there counts as a
    /// mention, unless the conversation is muted and the message does not name the current
    /// user.
    pub open spec fn private_message_kind(
        self,
        message: MessageView,
        now: Now,
    ) -> MessageNotificationKind {
        let channel_id = message.channel_id;
        let settings = self.private_notification_settings;
        let mentioned = match self.current_user_id {
            Some(user_id) => mentions_user(message.mentions, user_id),
            None => false,
        };
        let muted = match settings {
            Some(settings) => settings.muted_at(now.utc)
                || self.channel_notification_muted_in_settings(settings, channel_id, now.utc),
            None => false,
        };
        let level = match settings {
            Some(settings) => self.channel_notification_level(settings, channel_id),
            None => NotificationLevel::AllMessages,
        };
        let level_allows = match level {
            NotificationLevel::AllMessages => true,
            NotificationLevel::OnlyMentions | NotificationLevel::ParentDefault => mentioned,
            NotificationLevel::NoMessages => false,
        };
        if message.message_kind.spec_is_recipient_remove() || (muted && !mentioned) {
            MessageNotificationKind::Nothing
        } else {
            MessageNotificationKind::Mention {
                audible: message.flags & SUPPRESS_NOTIFICATIONS_FLAG == 0 && !muted && level_allows,
            }
        }
    }

    pub open spec fn message_notification_kind(
        self,
        message: MessageView,
        now: Now,
    ) -> MessageNotificationKind {
        if self.message_is_settled(message) {
            MessageNotificationKind::Nothing
        } else {
            match message.guild_id {
                Some(guild_id) => self.guild_message_kind(guild_id, message, now),
                None => self.private_message_kind(message, now),
            }
        }
    }

    /// Whether an event is a new message that notifies audibly. A message without a guild
    /// belongs to the guild of its channel.
    pub open spec fn event_triggers_notification(
        self,
        message: Option<MessageView>,
        now: Now,
    ) -> bool {
        match message {
            Some(message) => self.message_notification_kind(
                MessageView {
                    guild_id: match message.guild_id {
                        Some(_) => message.guild_id,
                        None => self.channel_guild_id(message.channel_id),
                    },
                    ..message
                },
                now,
            ).spec_is_audible(),
            None => false,
        }
    }
}

impl DiscordState {
    pub fn message_mentions_current_user(
        &self,
        guild_id: GuildId,
        message: &MessageNotificationInput<'_>,
        suppress_everyone: bool,
        suppress_roles: bool,
    ) -> (mentioned: bool)
        ensures
            mentioned == self@.message_mentions_current_user(
                guild_id,
                message@,
                suppress_everyone,
                suppress_roles,
            ),
    {
        let self_id = match self.session.current_user_id {
            Some(user_id) => user_id,
            None => return false,
        };
        if mentions_user_by_name(message.mentions, self_id) {
            return true;
        }
        if !suppress_everyone && message.mention_everyone {
            return true;
        }
        if suppress_roles {
            return false;
        }
        match self.current_user_role_ids_for_guild(guild_id) {
            Some(roles) => have_common_role(roles.as_slice(), message.mention_roles),
            None => false,
        }
    }

    fn message_is_settled(&self, message: &MessageNotificationInput<'_>) -> (settled: bool)
        ensures
            settled == self@.message_is_settled(message@),
    {
        if self.session.current_user_id == Some(message.author_id) {
            return true;
        }
        if let Some(relationship) = self.profiles.relationships.get(&message.author_id.value) {
            if relationship.status == FriendStatus::Blocked || relationship.ignored {
                return true;
            }
        }
        if let Some(read) = self.notifications.read_states.get(&message.channel_id.value) {
            if let Some(acked) = read.last_acked_message_id {
                return acked.value >= message.message_id.value;
            }
        }
        false
    }

    /// Whether a channel may notify, for some reading of the clock.
    pub fn channel_notification_eligible(&self, channel_id: ChannelId) -> (eligible: bool)
        ensures
            exists|now_millis: u64|
                eligible == self@.channel_notification_eligible(channel_id, now_millis),
    {
        self.channel_notification_eligible_at(channel_id, read_unix_millis())
    }

    /// Whether a channel may notify at `now_millis`.
    pub fn channel_notification_eligible_at(&self, channel_id: ChannelId, now_millis: u64) -> (eligible:
        bool)
        ensures
            eligible == self@.channel_notification_eligible(channel_id, now_millis),
    {
        let channel = match self.channel(channel_id) {
            Some(channel) => channel,
            // Messages can arrive before their channel does. Until what membership and
            // permissions rest on is known, they may notify.
            None => return true,
        };
        if !self.can_view_channel(channel) {
            return false;
        }
        !channel.is_thread() || self.thread_is_sidebar_active_at(channel.id, now_millis)
    }

    pub fn channel_supports_all_message_mentions(&self, channel_id: ChannelId) -> (supported: bool)
        ensures
            supported == self@.channel_supports_all_message_mentions(channel_id),
    {
        match self.channel(channel_id) {
            Some(channel) => !channel.is_voice() && !channel.is_stage(),
            None => true,
        }
    }

    /// How a message notifies at `now`.
    pub fn message_create_notification_kind(
        &self,
        message: MessageNotificationInput<'_>,
        now: Now,
    ) -> (kind: MessageNotificationKind)
        ensures
            kind == self@.message_notification_kind(message@, now),
    {
        if self.message_is_settled(&message) {
            return MessageNotificationKind::Nothing;
        }
        let guild_id = match message.guild_id {
            Some(guild_id) => guild_id,
            None => return self.private_message_notification_kind(&message, now),
        };
        let channel_id = message.channel_id;
        let notification_eligible = self.channel_notification_eligible_at(
            channel_id,
            now.unix_millis,
        );
        let notification_suppressed = message.flags & SUPPRESS_NOTIFICATIONS_FLAG != 0;
        let thread_muted = self.thread_notification_muted_at(channel_id, now.utc);
        let settings = match self.notifications.notification_settings.get(&guild_id.value) {
            Some(settings) => settings,
            None => {
                let level = match self.thread_notification_level(channel_id) {
                    Some(level) => level,
                    None => NotificationLevel::OnlyMentions,
                };
                if self.message_mentions_current_user(guild_id, &message, false, false) {
                    return MessageNotificationKind::Mention {
                        audible: notification_eligible && !thread_muted && !notification_suppressed
                            && level != NotificationLevel::NoMessages,
                    };
                }
                if !notification_eligible || thread_muted {
                    return MessageNotificationKind::Nothing;
                }
                return match level {
                    NotificationLevel::AllMessages if !notification_suppressed =>
                        MessageNotificationKind::Notify,
                    _ => MessageNotificationKind::Nothing,
                };
            },
        };
        let muted = thread_muted || settings.muted_at(now.utc)
            || self.channel_notification_muted_in_settings(settings, channel_id, now.utc);
        let level = self.channel_notification_level(settings, channel_id);
        if self.message_mentions_current_user(
            guild_id,
            &message,
            settings.suppress_everyone,
            settings.suppress_roles,
        ) {
            return MessageNotificationKind::Mention {
                audible: notification_eligible && !muted && !notification_suppressed && level
                    != NotificationLevel::NoMessages,
            };
        }
        if !notification_eligible || muted {
            return MessageNotificationKind::Nothing;
        }
        let supported = self.channel_supports_all_message_mentions(channel_id);
        match level {
            NotificationLevel::AllMessages => if !supported {
                MessageNotificationKind::Nothing
            } else if self.notifications.user_notification_flags & USER_MENTION_ON_ALL_MESSAGES
                != 0 {
                MessageNotificationKind::LowImportanceMention
            } else if !notification_suppressed {
                MessageNotificationKind::Notify
            } else {
                MessageNotificationKind::Nothing
            },
            NotificationLevel::OnlyMentions
            | NotificationLevel::ParentDefault
            | NotificationLevel::NoMessages => MessageNotificationKind::Nothing,
        }
    }

    pub fn private_message_notification_kind(
        &self,
        message: &MessageNotificationInput<'_>,
        now: Now,
    ) -> (kind: MessageNotificationKind)
        ensures
            kind == self@.private_message_kind(message@, now),
    {
        if message.message_kind.is_recipient_remove() {
            return MessageNotificationKind::Nothing;
        }
        let channel_id = message.channel_id;
        let mentions_current_user = match self.session.current_user_id {
            Some(user_id) => mentions_user_by_name(message.mentions, user_id),
            None => false,
        };
        let settings = self.notifications.private_notification_settings.as_ref();
        let muted = match settings {
            Some(settings) => settings.muted_at(now.utc)
                || self.channel_notification_muted_in_settings(settings, channel_id, now.utc),
            None => false,
        };
        if muted && !mentions_current_user {
            return MessageNotificationKind::Nothing;
        }
        let level = match settings {
            Some(settings) => self.channel_notification_level(settings, channel_id),
            None => NotificationLevel::AllMessages,
        };
        let level_allows_notification = match level {
            NotificationLevel::AllMessages => true,
            NotificationLevel::OnlyMentions
            | NotificationLevel::ParentDefault => mentions_current_user,
            NotificationLevel::NoMessages => false,
        };
        let notifications_allowed = message.flags & SUPPRESS_NOTIFICATIONS_FLAG == 0;
        MessageNotificationKind::Mention {
            audible: notifications_allowed && !muted && level_allows_notification,
        }
    }

    /// How a loaded message notifies at `now`.
    pub fn message_state_notification_kind(&self, message: &MessageState, now: Now) -> (kind:
        MessageNotificationKind)
        ensures
            kind == self@.message_notification_kind(message@, now),
    {
        self.message_create_notification_kind(
            MessageNotificationInput {
                guild_id: message.guild_id,
                channel_id: message.channel_id,
                message_id: message.id,
                author_id: message.author_id,
                mentions: message.mentions.as_slice(),
                mention_everyone: message.mention_everyone,
                mention_roles: message.mention_roles.as_slice(),
                flags: message.flags,
                message_kind: message.message_kind,
            },
            now,
        )
    }

    /// Whether an event is a new message that notifies audibly, for some reading of the clock.
    pub fn message_event_triggers_notification(&self, event: &AppEvent) -> (triggers: bool)
        ensures
            exists|now: Now|
                now.utc.outside_leap_second() && triggers == #[trigger] self@.event_triggers_notification(
                    event.new_message(),
                    now,
                ),
            event.new_message() is None ==> !triggers,
    {
        let now = Now::read();
        self.message_event_triggers_notification_at(event, now)
    }

    /// Whether an event is a new message that notifies audibly at `now`.
    pub fn message_event_triggers_notification_at(&self, event: &AppEvent, now: Now) -> (triggers:
        bool)
        ensures
            triggers == self@.event_triggers_notification(event.new_message(), now),
    {
        let message = match event {
            AppEvent::MessageCreate { message } => message,
            _ => return false,
        };
        let guild_id = match message.guild_id {
            Some(guild_id) => Some(guild_id),
            None => self.channel_guild_id(message.channel_id),
        };
        self.message_create_notification_kind(
            MessageNotificationInput {
                guild_id,
                channel_id: message.channel_id,
                message_id: message.message_id,
                author_id: message.author_id,
                mentions: message.mentions.as_slice(),
                mention_everyone: message.mention_everyone,
                mention_roles: message.mention_roles.as_slice(),
                flags: message.flags,
                message_kind: message.message_kind,
            },
            now,
        ).is_audible()
    }
}

} // verus!
