//! Notification settings: how payloads carry them and how the state keeps them.
use crate::ids::{ChannelId, GuildId};
use crate::ordered::{in_order, keys_in_order, lists_in_order};
use crate::text::text_view;
use std::collections::BTreeMap;
use vstd::prelude::*;

verus! {

/// Which messages of a channel or a guild notify.
#[derive(Clone, Copy, Debug, PartialEq, Eq, Structural)]
pub enum NotificationLevel {
    AllMessages,
    OnlyMentions,
    NoMessages,
    ParentDefault,
}

/// The settings of one channel, as a payload carries them.
#[derive(Debug, PartialEq, Eq)]
pub struct ChannelNotificationOverrideInfo {
    pub channel_id: ChannelId,
    pub message_notifications: Option<NotificationLevel>,
    pub muted: bool,
    pub mute_end_time: Option<String>,
    pub selected_time_window: Option<i64>,
    pub collapsed: bool,
    pub flags: u64,
}

pub struct OverrideInfoView {
    pub channel_id: ChannelId,
    pub message_notifications: Option<NotificationLevel>,
    pub muted: bool,
    pub mute_end_time: Option<Seq<char>>,
    pub selected_time_window: Option<i64>,
    pub collapsed: bool,
    pub flags: u64,
}

impl View for ChannelNotificationOverrideInfo {
    type V = OverrideInfoView;

    open spec fn view(&self) -> OverrideInfoView {
        OverrideInfoView {
            channel_id: self.channel_id,
            message_notifications: self.message_notifications,
            muted: self.muted,
            mute_end_time: text_view(self.mute_end_time),
            selected_time_window: self.selected_time_window,
            collapsed: self.collapsed,
            flags: self.flags,
        }
    }
}

pub open spec fn override_info_views(infos: Seq<ChannelNotificationOverrideInfo>) -> Seq<
    OverrideInfoView,
> {
    infos.map_values(|info: ChannelNotificationOverrideInfo| info@)
}

/// The settings of a guild, or of all private conversations where no guild is named, as a
/// payload carries them.
#[derive(Debug, PartialEq, Eq)]
pub struct GuildNotificationSettingsInfo {
    pub guild_id: Option<GuildId>,
    pub message_notifications: Option<NotificationLevel>,
    pub muted: bool,
    pub mute_end_time: Option<String>,
    pub selected_time_window: Option<i64>,
    pub suppress_everyone: bool,
    pub suppress_roles: bool,
    pub flags: u64,
    pub hide_muted_channels: bool,
    pub mobile_push: bool,
    pub mute_scheduled_events: bool,
    pub notify_highlights: u64,
    pub version: u64,
    pub channel_overrides: Vec<ChannelNotificationOverrideInfo>,
}

pub struct SettingsInfoView {
    pub guild_id: Option<GuildId>,
    pub message_notifications: Option<NotificationLevel>,
    pub muted: bool,
    pub mute_end_time: Option<Seq<char>>,
    pub selected_time_window: Option<i64>,
    pub suppress_everyone: bool,
    pub suppress_roles: bool,
    pub flags: u64,
    pub hide_muted_channels: bool,
    pub mobile_push: bool,
    pub mute_scheduled_events: bool,
    pub notify_highlights: u64,
    pub version: u64,
    pub channel_overrides: Seq<OverrideInfoView>,
}

impl View for GuildNotificationSettingsInfo {
    type V = SettingsInfoView;

    open spec fn view(&self) -> SettingsInfoView {
        SettingsInfoView {
            guild_id: self.guild_id,
            message_notifications: self.message_notifications,
            muted: self.muted,
            mute_end_time: text_view(self.mute_end_time),
            selected_time_window: self.selected_time_window,
            suppress_everyone: self.suppress_everyone,
            suppress_roles: self.suppress_roles,
            flags: self.flags,
            hide_muted_channels: self.hide_muted_channels,
            mobile_push: self.mobile_push,
            mute_scheduled_events: self.mute_scheduled_events,
            notify_highlights: self.notify_highlights,
            version: self.version,
            channel_overrides: override_info_views(self.channel_overrides@),
        }
    }
}

/// The settings of one channel.
#[derive(Debug, PartialEq, Eq)]
pub struct ChannelNotificationSettingsState {
    pub message_notifications: Option<NotificationLevel>,
    pub muted: bool,
    pub mute_end_time: Option<String>,
    pub selected_time_window: Option<i64>,
    pub collapsed: bool,
    pub flags: u64,
}

pub struct OverrideView {
    pub message_notifications: Option<NotificationLevel>,
    pub muted: bool,
    pub mute_end_time: Option<Seq<char>>,
    pub selected_time_window: Option<i64>,
    pub collapsed: bool,
    pub flags: u64,
}

impl View for ChannelNotificationSettingsState {
    type V = OverrideView;

    open spec fn view(&self) -> OverrideView {
        OverrideView {
            message_notifications: self.message_notifications,
            muted: self.muted,
            mute_end_time: text_view(self.mute_end_time),
            selected_time_window: self.selected_time_window,
            collapsed: self.collapsed,
            flags: self.flags,
        }
    }
}

impl Clone for ChannelNotificationSettingsState {
    fn clone(&self) -> (copy: Self)
        ensures
            copy@ == self@,
    {
        ChannelNotificationSettingsState {
            message_notifications: self.message_notifications,
            muted: self.muted,
            mute_end_time: self.mute_end_time.clone(),
            selected_time_window: self.selected_time_window,
            collapsed: self.collapsed,
            flags: self.flags,
        }
    }
}

pub open spec fn override_views(overrides: Map<u64, ChannelNotificationSettingsState>) -> Map<
    u64,
    OverrideView,
> {
    overrides.map_values(|setting: ChannelNotificationSettingsState| setting@)
}

/// The settings of a guild, or of all private conversations.
#[derive(Debug, PartialEq, Eq)]
pub struct GuildNotificationSettingsState {
    pub message_notifications: Option<NotificationLevel>,
    pub muted: bool,
    pub mute_end_time: Option<String>,
    pub selected_time_window: Option<i64>,
    pub suppress_everyone: bool,
    pub suppress_roles: bool,
    pub flags: u64,
    pub hide_muted_channels: bool,
    pub mobile_push: bool,
    pub mute_scheduled_events: bool,
    pub notify_highlights: u64,
    pub version: u64,
    /// By channel id.
    pub channel_overrides: BTreeMap<u64, ChannelNotificationSettingsState>,
}

pub struct SettingsView {
    pub message_notifications: Option<NotificationLevel>,
    pub muted: bool,
    pub mute_end_time: Option<Seq<char>>,
    pub selected_time_window: Option<i64>,
    pub suppress_everyone: bool,
    pub suppress_roles: bool,
    pub flags: u64,
    pub hide_muted_channels: bool,
    pub mobile_push: bool,
    pub mute_scheduled_events: bool,
    pub notify_highlights: u64,
    pub version: u64,
    pub channel_overrides: Map<u64, OverrideView>,
}

impl View for GuildNotificationSettingsState {
    type V = SettingsView;

    open spec fn view(&self) -> SettingsView {
        SettingsView {
            message_notifications: self.message_notifications,
            muted: self.muted,
            mute_end_time: text_view(self.mute_end_time),
            selected_time_window: self.selected_time_window,
            suppress_everyone: self.suppress_everyone,
            suppress_roles: self.suppress_roles,
            flags: self.flags,
            hide_muted_channels: self.hide_muted_channels,
            mobile_push: self.mobile_push,
            mute_scheduled_events: self.mute_scheduled_events,
            notify_highlights: self.notify_highlights,
            version: self.version,
            channel_overrides: override_views(self.channel_overrides@),
        }
    }
}

impl Clone for GuildNotificationSettingsState {
    fn clone(&self) -> (copy: Self)
        ensures
            copy@ == self@,
    {
        GuildNotificationSettingsState {
            message_notifications: self.message_notifications,
            muted: self.muted,
            mute_end_time: self.mute_end_time.clone(),
            selected_time_window: self.selected_time_window,
            suppress_everyone: self.suppress_everyone,
            suppress_roles: self.suppress_roles,
            flags: self.flags,
            hide_muted_channels: self.hide_muted_channels,
            mobile_push: self.mobile_push,
            mute_scheduled_events: self.mute_scheduled_events,
            notify_highlights: self.notify_highlights,
            version: self.version,
            channel_overrides: self.channel_overrides.clone(),
        }
    }
}

impl OverrideInfoView {
    /// The settings without the channel they are for.
    pub open spec fn setting(self) -> OverrideView {
        OverrideView {
            message_notifications: self.message_notifications,
            muted: self.muted,
            mute_end_time: self.mute_end_time,
            selected_time_window: self.selected_time_window,
            collapsed: self.collapsed,
            flags: self.flags,
        }
    }
}

impl OverrideView {
    /// The settings together with the channel they are for.
    pub open spec fn info(self, channel_id: u64) -> OverrideInfoView {
        OverrideInfoView {
            channel_id: ChannelId { value: channel_id },
            message_notifications: self.message_notifications,
            muted: self.muted,
            mute_end_time: self.mute_end_time,
            selected_time_window: self.selected_time_window,
            collapsed: self.collapsed,
            flags: self.flags,
        }
    }
}

/// The listed settings by channel. Of several for one channel the last one counts.
pub open spec fn overrides_by_channel(infos: Seq<OverrideInfoView>) -> Map<u64, OverrideView>
    decreases infos.len(),
{
    if infos.len() == 0 {
        Map::empty()
    } else {
        overrides_by_channel(infos.drop_last()).insert(
            infos.last().channel_id.value,
            infos.last().setting(),
        )
    }
}

/// The settings of each channel, in the order of the channel ids.
pub open spec fn overrides_in_order(overrides: Map<u64, OverrideView>) -> Seq<OverrideInfoView> {
    in_order(overrides.dom()).map_values(|channel_id: u64| overrides[channel_id].info(channel_id))
}

impl SettingsInfoView {
    /// The settings as the state keeps them.
    pub open spec fn settings(self) -> SettingsView {
        SettingsView {
            message_notifications: self.message_notifications,
            muted: self.muted,
            mute_end_time: self.mute_end_time,
            selected_time_window: self.selected_time_window,
            suppress_everyone: self.suppress_everyone,
            suppress_roles: self.suppress_roles,
            flags: self.flags,
            hide_muted_channels: self.hide_muted_channels,
            mobile_push: self.mobile_push,
            mute_scheduled_events: self.mute_scheduled_events,
            notify_highlights: self.notify_highlights,
            version: self.version,
            channel_overrides: overrides_by_channel(self.channel_overrides),
        }
    }
}

/// What is reported for a scope: its settings, or the defaults where it has none.
pub open spec fn reported_settings(
    guild_id: Option<GuildId>,
    settings: Option<SettingsView>,
) -> SettingsInfoView {
    match settings {
        Some(settings) => SettingsInfoView {
            guild_id,
            message_notifications: settings.message_notifications,
            muted: settings.muted,
            mute_end_time: settings.mute_end_time,
            selected_time_window: settings.selected_time_window,
            suppress_everyone: settings.suppress_everyone,
            suppress_roles: settings.suppress_roles,
            flags: settings.flags,
            hide_muted_channels: settings.hide_muted_channels,
            mobile_push: settings.mobile_push,
            mute_scheduled_events: settings.mute_scheduled_events,
            notify_highlights: settings.notify_highlights,
            version: settings.version,
            channel_overrides: overrides_in_order(settings.channel_overrides),
        },
        None => SettingsInfoView {
            guild_id,
            message_notifications: None,
            muted: false,
            mute_end_time: None,
            selected_time_window: None,
            suppress_everyone: false,
            suppress_roles: false,
            flags: 0,
            hide_muted_channels: false,
            mobile_push: true,
            mute_scheduled_events: false,
            notify_highlights: 0,
            version: 0,
            channel_overrides: Seq::empty(),
        },
    }
}

/// The channel settings as a payload lists them.
pub fn channel_override_infos(settings: &GuildNotificationSettingsState) -> (infos: Vec<
    ChannelNotificationOverrideInfo,
>)
    ensures
        override_info_views(infos@) == overrides_in_order(settings@.channel_overrides),
{
    let keys = keys_in_order(&settings.channel_overrides);
    let mut infos: Vec<ChannelNotificationOverrideInfo> = Vec::new();
    let mut i: usize = 0;
    assert(settings@.channel_overrides.dom() =~= settings.channel_overrides@.dom());
    while i < keys.len()
        invariant
            i <= keys.len(),
            lists_in_order(keys@, settings.channel_overrides@.dom()),
            infos@.len() == i,
            forall|j: int|
                0 <= j < i ==> (#[trigger] infos@[j])@ == settings@.channel_overrides[keys@[j]].info(
                    keys@[j],
                ),
        decreases keys.len() - i,
    {
        let channel_id: u64 = keys[i];
        if let Some(setting) = settings.channel_overrides.get(&channel_id) {
            infos.push(
                ChannelNotificationOverrideInfo {
                    channel_id: ChannelId::new(channel_id),
                    message_notifications: setting.message_notifications,
                    muted: setting.muted,
                    mute_end_time: setting.mute_end_time.clone(),
                    selected_time_window: setting.selected_time_window,
                    collapsed: setting.collapsed,
                    flags: setting.flags,
                },
            );
        }
        i += 1;
    }
    assert(override_info_views(infos@) =~= overrides_in_order(settings@.channel_overrides));
    infos
}

/// The channel settings of a payload by channel.
pub fn notification_override_map(overrides: &[ChannelNotificationOverrideInfo]) -> (map: BTreeMap<
    u64,
    ChannelNotificationSettingsState,
>)
    ensures
        override_views(map@) == overrides_by_channel(override_info_views(overrides@)),
{
    let mut map: BTreeMap<u64, ChannelNotificationSettingsState> = BTreeMap::new();
    let mut i: usize = 0;
    let ghost infos = override_info_views(overrides@);
    assert(override_views(map@) =~= overrides_by_channel(infos.take(0)));
    while i < overrides.len()
        invariant
            i <= overrides.len(),
            infos == override_info_views(overrides@),
            override_views(map@) == overrides_by_channel(infos.take(i as int)),
        decreases overrides.len() - i,
    {
        let info = &overrides[i];
        let setting = ChannelNotificationSettingsState {
            message_notifications: info.message_notifications,
            muted: info.muted,
            mute_end_time: info.mute_end_time.clone(),
            selected_time_window: info.selected_time_window,
            collapsed: info.collapsed,
            flags: info.flags,
        };
        let ghost before = map@;
        map.insert(info.channel_id.get(), setting);
        proof {
            assert(infos.take(i + 1).drop_last() =~= infos.take(i as int));
            assert(infos.take(i + 1).last() == info@);
            assert(override_views(map@) =~= override_views(before).insert(
                info@.channel_id.value,
                info@.setting(),
            ));
        }
        i += 1;
    }
    assert(infos.take(i as int) =~= infos);
    map
}

} // verus!
