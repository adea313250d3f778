//! What is muted, and what the settings keep out of the sidebar.
use crate::clock::{parse_rfc3339, rfc3339_timestamp, UtcTime};
use crate::ids::{ChannelId, GuildId};
use crate::notification::settings::{
    ChannelNotificationSettingsState, GuildNotificationSettingsState, OverrideView, SettingsView,
};
use crate::state::{DiscordState, StateView};
use crate::text::{borrowed, str_view};
use crate::views::ref_view;
use vstd::prelude::*;

verus! {

/// Channel flag: the current user chose to see the channel.
pub const CHANNEL_OPT_IN_ENABLED: u64 = 1 << 12;

/// Guild flag: channels show without being chosen.
pub const GUILD_OPT_IN_CHANNELS_OFF: u64 = 1 << 13;

/// Guild flag: only chosen channels show.
pub const GUILD_OPT_IN_CHANNELS_ON: u64 = 1 << 14;

/// A thread nests under a channel and a channel under a category, and nothing nests deeper.
pub const MAX_CHANNEL_ANCESTRY_NODES: usize = 3;

/// When a mute ends.
#[derive(Clone, Copy, Debug, PartialEq, Eq, Structural)]
pub enum MuteEnd {
    /// It has no end.
    Never,
    /// Its end is not a readable time.
    Unreadable,
    At(UtcTime),
}

pub open spec fn spec_mute_end(end_time: Option<Seq<char>>) -> MuteEnd {
    match end_time {
        Some(text) => match rfc3339_timestamp(text) {
            Some(time) => MuteEnd::At(time.utc),
            None => MuteEnd::Unreadable,
        },
        None => MuteEnd::Never,
    }
}

fn mute_end(end_time: Option<&str>) -> (end: MuteEnd)
    ensures
        end == spec_mute_end(str_view(end_time)),
{
    match end_time {
        Some(text) => match parse_rfc3339(text) {
            Some(time) => MuteEnd::At(time.utc),
            None => MuteEnd::Unreadable,
        },
        None => MuteEnd::Never,
    }
}

/// A mute holds until its end. Without a readable end it holds for good.
pub open spec fn spec_mute_holds(muted: bool, end: MuteEnd, now: UtcTime) -> bool {
    muted && match end {
        MuteEnd::At(end) => end.spec_is_after(now),
        MuteEnd::Never | MuteEnd::Unreadable => true,
    }
}

/// Whether a mute that ends at `end` holds at `now`.
pub fn mute_holds(muted: bool, end: MuteEnd, now: UtcTime) -> (holds: bool)
    ensures
        holds == spec_mute_holds(muted, end, now),
{
    if !muted {
        return false;
    }
    match end {
        MuteEnd::At(end) => end.is_after(now),
        MuteEnd::Never | MuteEnd::Unreadable => true,
    }
}

pub open spec fn setting_muted(muted: bool, end_time: Option<Seq<char>>, now: UtcTime) -> bool {
    spec_mute_holds(muted, spec_mute_end(end_time), now)
}

/// Whether a setting that is muted until `end_time` is muted at `now`.
pub fn notification_setting_muted(muted: bool, end_time: Option<&str>, now: UtcTime) -> (holds: bool)
    ensures
        holds == setting_muted(muted, str_view(end_time), now),
{
    if !muted {
        return false;
    }
    mute_holds(muted, mute_end(end_time), now)
}

impl OverrideView {
    pub open spec fn muted_at(self, now: UtcTime) -> bool {
        setting_muted(self.muted, self.mute_end_time, now)
    }
}

impl SettingsView {
    pub open spec fn muted_at(self, now: UtcTime) -> bool {
        setting_muted(self.muted, self.mute_end_time, now)
    }
}

impl GuildNotificationSettingsState {
    /// Whether the whole scope is muted.
    pub fn muted_at(&self, now: UtcTime) -> (muted: bool)
        ensures
            muted == self@.muted_at(now),
    {
        notification_setting_muted(self.muted, borrowed(&self.mute_end_time), now)
    }
}

impl StateView {
    pub open spec fn notification_settings_for_channel(self, channel_id: ChannelId) -> Option<
        SettingsView,
    > {
        match self.channel_guild_id(channel_id) {
            Some(guild_id) => self.notification_settings.get(guild_id.value),
            None => self.private_notification_settings,
        }
    }

    /// The settings of the nearest of at most `nodes` channels, from `channel_id` upwards, that
    /// has settings of its own.
    pub open spec fn nearest_override(
        self,
        settings: SettingsView,
        channel_id: Option<ChannelId>,
        nodes: nat,
    ) -> Option<OverrideView>
        decreases nodes,
    {
        match channel_id {
            Some(id) => if nodes == 0 {
                None
            } else if settings.channel_overrides.contains_key(id.value) {
                Some(settings.channel_overrides[id.value])
            } else {
                self.nearest_override(settings, self.parent_of(id), (nodes - 1) as nat)
            },
            None => None,
        }
    }

    /// Whether one of at most `nodes` channels, from `channel_id` upwards, has settings with
    /// the flag.
    pub open spec fn ancestry_has_flag(
        self,
        settings: SettingsView,
        channel_id: Option<ChannelId>,
        flag: u64,
        nodes: nat,
    ) -> bool
        decreases nodes,
    {
        match channel_id {
            Some(id) => nodes > 0 && (has_override_flag(settings, id, flag)
                || self.ancestry_has_flag(
                settings,
                self.parent_of(id),
                flag,
                (nodes - 1) as nat,
            )),
            None => false,
        }
    }

    pub open spec fn channel_notification_muted_in_settings(
        self,
        settings: SettingsView,
        channel_id: ChannelId,
        now: UtcTime,
    ) -> bool {
        match self.nearest_override(
            settings,
            Some(channel_id),
            MAX_CHANNEL_ANCESTRY_NODES as nat,
        ) {
            Some(setting) => setting.muted_at(now),
            None => false,
        }
    }

    pub open spec fn guild_notification_muted(self, guild_id: GuildId, now: UtcTime) -> bool {
        match self.notification_settings.get(guild_id.value) {
            Some(settings) => settings.muted_at(now),
            None => false,
        }
    }

    pub open spec fn thread_notification_muted(self, channel_id: ChannelId, now: UtcTime) -> bool {
        match self.channel(channel_id) {
            Some(channel) => channel.is_thread() && setting_muted(
                self.thread_is_muted(channel_id),
                self.thread_mute_end_time(channel_id),
                now,
            ),
            None => false,
        }
    }

    pub open spec fn channel_notification_muted(self, channel_id: ChannelId, now: UtcTime) -> bool {
        ||| self.thread_notification_muted(channel_id, now)
        ||| match self.notification_settings_for_channel(channel_id) {
            Some(settings) => self.channel_notification_muted_in_settings(
                settings,
                channel_id,
                now,
            ),
            None => false,
        }
    }

    /// Voice and stage channels always show. Others are hidden where muted channels are hidden
    /// and they are muted, and where only chosen channels show and neither they nor what they
    /// nest under was chosen. Categories need not be chosen.
    pub open spec fn channel_visible_in_notification_settings(
        self,
        channel_id: ChannelId,
        now: UtcTime,
    ) -> bool {
        match (self.channel(channel_id), self.notification_settings_for_channel(channel_id)) {
            (Some(channel), Some(settings)) => {
                ||| channel.is_voice() || channel.is_stage()
                ||| {
                    &&& !(settings.hide_muted_channels
                        && self.channel_notification_muted_in_settings(settings, channel_id, now))
                    &&& {
                        ||| settings.flags & GUILD_OPT_IN_CHANNELS_ON == 0
                        ||| settings.flags & GUILD_OPT_IN_CHANNELS_OFF != 0
                        ||| channel.is_category()
                        ||| self.ancestry_has_flag(
                            settings,
                            Some(channel_id),
                            CHANNEL_OPT_IN_ENABLED,
                            MAX_CHANNEL_ANCESTRY_NODES as nat,
                        )
                    }
                }
            },
            _ => true,
        }
    }
}

pub open spec fn has_override_flag(settings: SettingsView, channel_id: ChannelId, flag: u64) -> bool {
    match settings.channel_overrides.get(channel_id.value) {
        Some(setting) => setting.flags & flag != 0,
        None => false,
    }
}

impl DiscordState {
    /// The settings that a channel falls under: those of its guild, or of all private
    /// conversations.
    pub fn notification_settings_for_channel(&self, channel_id: ChannelId) -> (settings: Option<
        &GuildNotificationSettingsState,
    >)
        ensures
            ref_view(settings) == self@.notification_settings_for_channel(channel_id),
    {
        match self.channel_guild_id(channel_id) {
            Some(guild_id) => self.notifications.notification_settings.get(&guild_id.value),
            None => self.notifications.private_notification_settings.as_ref(),
        }
    }

    pub fn first_channel_override_in_ancestry<'a>(
        &self,
        settings: &'a GuildNotificationSettingsState,
        channel_id: ChannelId,
    ) -> (found: Option<&'a ChannelNotificationSettingsState>)
        ensures
            ref_view(found) == self@.nearest_override(
                settings@,
                Some(channel_id),
                MAX_CHANNEL_ANCESTRY_NODES as nat,
            ),
    {
        let mut current_id = Some(channel_id);
        let mut left: usize = MAX_CHANNEL_ANCESTRY_NODES;
        while left > 0
            invariant
                self@.nearest_override(
                    settings@,
                    Some(channel_id),
                    MAX_CHANNEL_ANCESTRY_NODES as nat,
                ) == self@.nearest_override(settings@, current_id, left as nat),
            decreases left,
        {
            let id = match current_id {
                Some(id) => id,
                None => return None,
            };
            if let Some(setting) = settings.channel_overrides.get(&id.value) {
                return Some(setting);
            }
            current_id = self.parent_of(id);
            left -= 1;
        }
        None
    }

    pub fn channel_ancestry_has_override_flag(
        &self,
        settings: &GuildNotificationSettingsState,
        channel_id: ChannelId,
        flag: u64,
    ) -> (has: bool)
        ensures
            has == self@.ancestry_has_flag(
                settings@,
                Some(channel_id),
                flag,
                MAX_CHANNEL_ANCESTRY_NODES as nat,
            ),
    {
        let mut current_id = Some(channel_id);
        let mut left: usize = MAX_CHANNEL_ANCESTRY_NODES;
        while left > 0
            invariant
                self@.ancestry_has_flag(
                    settings@,
                    Some(channel_id),
                    flag,
                    MAX_CHANNEL_ANCESTRY_NODES as nat,
                ) == self@.ancestry_has_flag(settings@, current_id, flag, left as nat),
            decreases left,
        {
            let id = match current_id {
                Some(id) => id,
                None => return false,
            };
            if let Some(setting) = settings.channel_overrides.get(&id.value) {
                if setting.flags & flag != 0 {
                    return true;
                }
            }
            current_id = self.parent_of(id);
            left -= 1;
        }
        false
    }

    pub fn channel_notification_muted_in_settings(
        &self,
        settings: &GuildNotificationSettingsState,
        channel_id: ChannelId,
        now: UtcTime,
    ) -> (muted: bool)
        ensures
            muted == self@.channel_notification_muted_in_settings(settings@, channel_id, now),
    {
        match self.first_channel_override_in_ancestry(settings, channel_id) {
            Some(setting) => notification_setting_muted(
                setting.muted,
                borrowed(&setting.mute_end_time),
                now,
            ),
            None => false,
        }
    }

    /// Whether a guild is muted as a whole, for some reading of the clock.
    pub fn guild_notification_muted(&self, guild_id: GuildId) -> (muted: bool)
        ensures
            exists|now: UtcTime|
                now.outside_leap_second() && muted == #[trigger] self@.guild_notification_muted(
                    guild_id,
                    now,
                ),
    {
        self.guild_notification_muted_at(guild_id, UtcTime::read())
    }

    /// Whether a guild is muted as a whole at `now`.
    pub fn guild_notification_muted_at(&self, guild_id: GuildId, now: UtcTime) -> (muted: bool)
        ensures
            muted == self@.guild_notification_muted(guild_id, now),
    {
        match self.notifications.notification_settings.get(&guild_id.value) {
            Some(settings) => settings.muted_at(now),
            None => false,
        }
    }

    /// Whether a channel is muted by itself, by what it nests under or as a thread, for some
    /// reading of the clock.
    pub fn channel_notification_muted(&self, channel_id: ChannelId) -> (muted: bool)
        ensures
            exists|now: UtcTime|
                now.outside_leap_second() && muted == #[trigger] self@.channel_notification_muted(
                    channel_id,
                    now,
                ),
    {
        self.channel_notification_muted_at(channel_id, UtcTime::read())
    }

    /// Whether a channel is muted by itself, by what it nests under or as a thread, at `now`.
    pub fn channel_notification_muted_at(&self, channel_id: ChannelId, now: UtcTime) -> (muted:
        bool)
        ensures
            muted == self@.channel_notification_muted(channel_id, now),
    {
        if self.thread_notification_muted_at(channel_id, now) {
            return true;
        }
        match self.notification_settings_for_channel(channel_id) {
            Some(settings) => self.channel_notification_muted_in_settings(
                settings,
                channel_id,
                now,
            ),
            None => false,
        }
    }

    /// Whether the current user muted a thread that they joined, for some reading of the clock.
    pub fn thread_notification_muted(&self, channel_id: ChannelId) -> (muted: bool)
        ensures
            exists|now: UtcTime|
                now.outside_leap_second() && muted == #[trigger] self@.thread_notification_muted(
                    channel_id,
                    now,
                ),
    {
        self.thread_notification_muted_at(channel_id, UtcTime::read())
    }

    /// Whether the current user muted a thread that they joined, at `now`.
    pub fn thread_notification_muted_at(&self, channel_id: ChannelId, now: UtcTime) -> (muted: bool)
        ensures
            muted == self@.thread_notification_muted(channel_id, now),
    {
        match self.channel(channel_id) {
            Some(channel) => channel.is_thread() && notification_setting_muted(
                self.thread_is_muted(channel_id),
                self.thread_mute_end_time(channel_id),
                now,
            ),
            None => false,
        }
    }

    /// Whether the settings let a channel show in the sidebar at `now`.
    pub fn channel_visible_in_notification_settings_at(
        &self,
        channel_id: ChannelId,
        now: UtcTime,
    ) -> (visible: bool)
        ensures
            visible == self@.channel_visible_in_notification_settings(channel_id, now),
    {
        let channel = match self.channel(channel_id) {
            Some(channel) => channel,
            None => return true,
        };
        // Guild voice and stage channels stay in the sidebar even where muted or unchosen text
        // channels are hidden. That avoids empty voice categories and missing occupied calls.
        if channel.is_voice() || channel.is_stage() {
            return true;
        }
        let settings = match self.notification_settings_for_channel(channel_id) {
            Some(settings) => settings,
            None => return true,
        };
        if settings.hide_muted_channels && self.channel_notification_muted_in_settings(
            settings,
            channel_id,
            now,
        ) {
            return false;
        }
        if settings.flags & GUILD_OPT_IN_CHANNELS_ON == 0 || settings.flags
            & GUILD_OPT_IN_CHANNELS_OFF != 0 || channel.is_category() {
            return true;
        }
        self.channel_ancestry_has_override_flag(settings, channel_id, CHANNEL_OPT_IN_ENABLED)
    }

    /// Whether the settings let a channel show in the sidebar, for some reading of the clock.
    pub fn channel_visible_in_notification_settings(&self, channel_id: ChannelId) -> (visible: bool)
        ensures
            exists|now: UtcTime|
                now.outside_leap_second() && visible == #[trigger] self@.channel_visible_in_notification_settings(
                    channel_id,
                    now,
                ),
    {
        self.channel_visible_in_notification_settings_at(channel_id, UtcTime::read())
    }
}

} // verus!
