//! The notification settings of guilds and of the private conversations.
use crate::ids::GuildId;
use crate::notification::settings::{
    channel_override_infos, notification_override_map, override_info_views, reported_settings,
    GuildNotificationSettingsInfo, GuildNotificationSettingsState, SettingsInfoView, SettingsView,
};
use crate::state::{DiscordState, StateView};
use crate::views::ref_view;
use vstd::prelude::*;

verus! {

impl StateView {
    /// The settings of a guild, or of the private conversations where no guild is named.
    pub open spec fn scope_settings(self, guild_id: Option<GuildId>) -> Option<SettingsView> {
        match guild_id {
            Some(guild_id) => self.notification_settings.get(guild_id.value),
            None => self.private_notification_settings,
        }
    }

    pub open spec fn guild_notification_settings_info(
        self,
        guild_id: Option<GuildId>,
    ) -> SettingsInfoView {
        reported_settings(guild_id, self.scope_settings(guild_id))
    }

    /// The state with the settings of one scope replaced.
    pub open spec fn with_notification_settings(self, info: SettingsInfoView) -> StateView {
        match info.guild_id {
            Some(guild_id) => StateView {
                notification_settings: self.notification_settings.insert(
                    guild_id.value,
                    info.settings(),
                ),
                ..self
            },
            None => StateView { private_notification_settings: Some(info.settings()), ..self },
        }
    }
}

impl DiscordState {
    /// The settings of a guild, or of the private conversations where no guild is named, with
    /// the defaults where none were received.
    pub fn guild_notification_settings_info(&self, guild_id: Option<GuildId>) -> (info:
        GuildNotificationSettingsInfo)
        ensures
            info@ == self@.guild_notification_settings_info(guild_id),
    {
        let settings = match guild_id {
            Some(guild_id) => self.notifications.notification_settings.get(&guild_id.value),
            None => self.notifications.private_notification_settings.as_ref(),
        };
        assert(ref_view(settings) == self@.scope_settings(guild_id));
        match settings {
            Some(settings) => GuildNotificationSettingsInfo {
                guild_id,
                message_notifications: settings.message_notifications,
                muted: settings.muted,
                mute_end_time: settings.mute_end_time.clone(),
                selected_time_window: settings.selected_time_window,
                suppress_everyone: settings.suppress_everyone,
                suppress_roles: settings.suppress_roles,
                flags: settings.flags,
                hide_muted_channels: settings.hide_muted_channels,
                mobile_push: settings.mobile_push,
                mute_scheduled_events: settings.mute_scheduled_events,
                notify_highlights: settings.notify_highlights,
                version: settings.version,
                channel_overrides: channel_override_infos(settings),
            },
            None => {
                let info = GuildNotificationSettingsInfo {
                    guild_id,
                    message_notifications: None,
                    muted: false,
                    mute_end_time: None,
                    selected_time_window: None,
                    suppress_everyone: false,
                    suppress_roles: false,
                    flags: 0,
                    hide_muted_channels: false,
                    mobile_push: true,
                    mute_scheduled_events: false,
                    notify_highlights: 0,
                    version: 0,
                    channel_overrides: Vec::new(),
                };
                assert(override_info_views(info.channel_overrides@) =~= Seq::empty());
                info
            },
        }
    }

    /// Replaces the settings of a guild, or of the private conversations where no guild is
    /// named.
    pub fn upsert_notification_settings(&mut self, settings: &GuildNotificationSettingsInfo)
        ensures
            final(self)@ == old(self)@.with_notification_settings(settings@),
            old(self)@.wf() ==> final(self)@.wf(),
    {
        let state = GuildNotificationSettingsState {
            message_notifications: settings.message_notifications,
            muted: settings.muted,
            mute_end_time: settings.mute_end_time.clone(),
            selected_time_window: settings.selected_time_window,
            suppress_everyone: settings.suppress_everyone,
            suppress_roles: settings.suppress_roles,
            flags: settings.flags,
            hide_muted_channels: settings.hide_muted_channels,
            mobile_push: settings.mobile_push,
            mute_scheduled_events: settings.mute_scheduled_events,
            notify_highlights: settings.notify_highlights,
            version: settings.version,
            channel_overrides: notification_override_map(settings.channel_overrides.as_slice()),
        };
        if let Some(guild_id) = settings.guild_id {
            self.notifications.notification_settings.insert(guild_id.value, state);
            assert(self@.notification_settings =~= old(self)@.notification_settings.insert(
                guild_id.value,
                state@,
            ));
        } else {
            self.notifications.private_notification_settings = Some(state);
        }
    }
}

} // verus!
