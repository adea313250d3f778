//! Which messages of a channel notify.
use crate::ids::ChannelId;
use crate::notification::settings::{
    ChannelNotificationSettingsState, GuildNotificationSettingsState, NotificationLevel,
    OverrideView, SettingsView,
};
use crate::state::{DiscordState, StateView};
use crate::views::first_of;
use vstd::prelude::*;

verus! {

/// Channel flag: only mentions make the channel unread.
pub const CHANNEL_UNREADS_ONLY_MENTIONS: u64 = 1 << 9;

/// Channel flag: every message makes the channel unread.
pub const CHANNEL_UNREADS_ALL_MESSAGES: u64 = 1 << 10;

/// Guild flag: every message makes a channel unread.
pub const GUILD_UNREADS_ALL_MESSAGES: u64 = 1 << 11;

/// Guild flag: only mentions make a channel unread.
pub const GUILD_UNREADS_ONLY_MENTIONS: u64 = 1 << 12;

/// Thread membership flag: every message notifies.
pub const THREAD_NOTIFICATIONS_ALL_MESSAGES: u64 = 1 << 1;

/// Thread membership flag: only mentions notify.
pub const THREAD_NOTIFICATIONS_ONLY_MENTIONS: u64 = 1 << 2;

/// Thread membership flag: nothing notifies.
pub const THREAD_NOTIFICATIONS_NONE: u64 = 1 << 3;

pub open spec fn level_from_channel_flags(flags: u64) -> NotificationLevel {
    if flags & CHANNEL_UNREADS_ALL_MESSAGES != 0 {
        NotificationLevel::AllMessages
    } else {
        NotificationLevel::OnlyMentions
    }
}

/// The level that the flags of a channel's settings stand for, where they set one.
pub fn notification_level_from_channel_flags(flags: u64) -> (level: NotificationLevel)
    ensures
        level == level_from_channel_flags(flags),
{
    if flags & CHANNEL_UNREADS_ALL_MESSAGES != 0 {
        NotificationLevel::AllMessages
    } else {
        NotificationLevel::OnlyMentions
    }
}

/// A level that does not defer to the parent.
pub open spec fn own_level(level: Option<NotificationLevel>) -> Option<NotificationLevel> {
    if level == Some(NotificationLevel::ParentDefault) {
        None
    } else {
        level
    }
}

impl OverrideView {
    /// The level that a channel's settings set: by the flags, else by the level.
    pub open spec fn explicit_level(self) -> Option<NotificationLevel> {
        if self.flags & (CHANNEL_UNREADS_ONLY_MENTIONS | CHANNEL_UNREADS_ALL_MESSAGES) != 0 {
            Some(level_from_channel_flags(self.flags))
        } else {
            own_level(self.message_notifications)
        }
    }
}

impl SettingsView {
    /// The level that the settings of one channel set.
    pub open spec fn override_level(self, channel_id: Option<ChannelId>) -> Option<
        NotificationLevel,
    > {
        match channel_id {
            Some(channel_id) => match self.channel_overrides.get(channel_id.value) {
                Some(setting) => setting.explicit_level(),
                None => None,
            },
            None => None,
        }
    }

    /// The level of the whole scope: by the flags, else by the level, else mentions only.
    pub open spec fn scope_level(self) -> NotificationLevel {
        if self.flags & (GUILD_UNREADS_ALL_MESSAGES | GUILD_UNREADS_ONLY_MENTIONS) != 0 {
            if self.flags & GUILD_UNREADS_ALL_MESSAGES != 0 {
                NotificationLevel::AllMessages
            } else {
                NotificationLevel::OnlyMentions
            }
        } else {
            match own_level(self.message_notifications) {
                Some(level) => level,
                None => NotificationLevel::OnlyMentions,
            }
        }
    }
}

impl StateView {
    /// The level that the current user chose for a thread.
    pub open spec fn thread_notification_level(self, channel_id: ChannelId) -> Option<
        NotificationLevel,
    > {
        match (self.channel(channel_id), self.thread_notification_level_flags(channel_id)) {
            (Some(channel), Some(flags)) => if !channel.is_thread() {
                None
            } else if flags & THREAD_NOTIFICATIONS_NONE != 0 {
                Some(NotificationLevel::NoMessages)
            } else if flags & THREAD_NOTIFICATIONS_ONLY_MENTIONS != 0 {
                Some(NotificationLevel::OnlyMentions)
            } else if flags & THREAD_NOTIFICATIONS_ALL_MESSAGES != 0 {
                Some(NotificationLevel::AllMessages)
            } else {
                None
            },
            _ => None,
        }
    }

    /// The most specific level counts: of the thread, of the channel, of the parent, of the
    /// scope.
    pub open spec fn channel_notification_level(
        self,
        settings: SettingsView,
        channel_id: ChannelId,
    ) -> NotificationLevel {
        let specific = first_of(
            self.thread_notification_level(channel_id),
            first_of(
                settings.override_level(Some(channel_id)),
                settings.override_level(self.parent_of(channel_id)),
            ),
        );
        match specific {
            Some(level) => level,
            None => settings.scope_level(),
        }
    }
}

impl ChannelNotificationSettingsState {
    fn explicit_level(&self) -> (level: Option<NotificationLevel>)
        ensures
            level == self@.explicit_level(),
    {
        if self.flags & (CHANNEL_UNREADS_ONLY_MENTIONS | CHANNEL_UNREADS_ALL_MESSAGES) != 0 {
            return Some(notification_level_from_channel_flags(self.flags));
        }
        match self.message_notifications {
            Some(NotificationLevel::ParentDefault) => None,
            level => level,
        }
    }
}

impl DiscordState {
    pub fn thread_notification_level(&self, channel_id: ChannelId) -> (level: Option<
        NotificationLevel,
    >)
        ensures
            level == self@.thread_notification_level(channel_id),
    {
        match self.channel(channel_id) {
            Some(channel) => if !channel.is_thread() {
                return None;
            },
            None => return None,
        }
        let flags: u64 = match self.thread_notification_level_flags(channel_id) {
            Some(flags) => flags,
            None => return None,
        };
        if flags & THREAD_NOTIFICATIONS_NONE != 0 {
            Some(NotificationLevel::NoMessages)
        } else if flags & THREAD_NOTIFICATIONS_ONLY_MENTIONS != 0 {
            Some(NotificationLevel::OnlyMentions)
        } else if flags & THREAD_NOTIFICATIONS_ALL_MESSAGES != 0 {
            Some(NotificationLevel::AllMessages)
        } else {
            None
        }
    }

    pub fn channel_notification_level(
        &self,
        settings: &GuildNotificationSettingsState,
        channel_id: ChannelId,
    ) -> (level: NotificationLevel)
        ensures
            level == self@.channel_notification_level(settings@, channel_id),
    {
        if let Some(level) = self.thread_notification_level(channel_id) {
            return level;
        }
        if let Some(setting) = settings.channel_overrides.get(&channel_id.value) {
            if let Some(level) = setting.explicit_level() {
                return level;
            }
        }
        if let Some(parent_id) = self.parent_of(channel_id) {
            if let Some(setting) = settings.channel_overrides.get(&parent_id.value) {
                if let Some(level) = setting.explicit_level() {
                    return level;
                }
            }
        }
        if settings.flags & (GUILD_UNREADS_ALL_MESSAGES | GUILD_UNREADS_ONLY_MENTIONS) != 0 {
            return if settings.flags & GUILD_UNREADS_ALL_MESSAGES != 0 {
                NotificationLevel::AllMessages
            } else {
                NotificationLevel::OnlyMentions
            };
        }
        match settings.message_notifications {
            Some(NotificationLevel::ParentDefault) => NotificationLevel::OnlyMentions,
            Some(level) => level,
            None => NotificationLevel::OnlyMentions,
        }
    }
}

} // verus!
