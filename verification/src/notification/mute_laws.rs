//! What settings mute, hide and let through, channel by channel.
use crate::clock::{rfc3339_timestamp, UtcTime};
use crate::ids::{ChannelId, GuildId};
use crate::notification::level::{
    CHANNEL_UNREADS_ALL_MESSAGES, CHANNEL_UNREADS_ONLY_MENTIONS, GUILD_UNREADS_ALL_MESSAGES,
    GUILD_UNREADS_ONLY_MENTIONS, THREAD_NOTIFICATIONS_ALL_MESSAGES, THREAD_NOTIFICATIONS_NONE,
    THREAD_NOTIFICATIONS_ONLY_MENTIONS,
};
use crate::notification::mute::{
    setting_muted, CHANNEL_OPT_IN_ENABLED, GUILD_OPT_IN_CHANNELS_OFF, GUILD_OPT_IN_CHANNELS_ON,
    MAX_CHANNEL_ANCESTRY_NODES,
};
use crate::notification::settings::{NotificationLevel, OverrideView, SettingsView};
use crate::state::StateView;
use vstd::prelude::*;

verus! {

/// The flags as numbers.
proof fn lemma_flag_numbers()
    ensures
        CHANNEL_UNREADS_ONLY_MENTIONS == 0x200,
        CHANNEL_UNREADS_ALL_MESSAGES == 0x400,
        GUILD_UNREADS_ALL_MESSAGES == 0x800,
        GUILD_UNREADS_ONLY_MENTIONS == 0x1000,
        CHANNEL_OPT_IN_ENABLED == 0x1000,
        GUILD_OPT_IN_CHANNELS_OFF == 0x2000,
        GUILD_OPT_IN_CHANNELS_ON == 0x4000,
        THREAD_NOTIFICATIONS_ALL_MESSAGES == 2,
        THREAD_NOTIFICATIONS_ONLY_MENTIONS == 4,
        THREAD_NOTIFICATIONS_NONE == 8,
{
    assert(1u64 << 1 == 2 && 1u64 << 2 == 4 && 1u64 << 3 == 8) by (bit_vector);
    assert(1u64 << 9 == 0x200 && 1u64 << 10 == 0x400 && 1u64 << 11 == 0x800) by (bit_vector);
    assert(1u64 << 12 == 0x1000 && 1u64 << 13 == 0x2000 && 1u64 << 14 == 0x4000) by (bit_vector);
}

/// Two flags together are there where one of them is.
proof fn lemma_either_flag(flags: u64)
    ensures
        flags & (0x200u64 | 0x400u64) != 0 <==> flags & 0x200 != 0 || flags & 0x400 != 0,
        flags & (0x800u64 | 0x1000u64) != 0 <==> flags & 0x800 != 0 || flags & 0x1000 != 0,
{
    assert(flags & (0x200u64 | 0x400u64) != 0 <==> flags & 0x200 != 0 || flags & 0x400 != 0)
        by (bit_vector);
    assert(flags & (0x800u64 | 0x1000u64) != 0 <==> flags & 0x800 != 0 || flags & 0x1000 != 0)
        by (bit_vector);
}

/// What is not muted is not muted at any time. A mute without an end, or with one that cannot be
/// read, holds at every time. A mute with a readable end holds exactly before it.
pub proof fn law_mutes(muted: bool, end_time: Option<Seq<char>>, now: UtcTime)
    ensures
        !muted ==> !setting_muted(muted, end_time, now),
        muted && end_time is None ==> setting_muted(muted, end_time, now),
        muted && end_time is Some && rfc3339_timestamp(end_time->Some_0) is None ==> setting_muted(
            muted,
            end_time,
            now,
        ),
        muted && end_time is Some && rfc3339_timestamp(end_time->Some_0) is Some ==> {
            let end = rfc3339_timestamp(end_time->Some_0)->Some_0.utc;
            setting_muted(muted, end_time, now) <==> now.secs < end.secs || (now.secs == end.secs
                && now.nanos < end.nanos)
        },
{
}

/// The parent of a channel that is known.
pub open spec fn known_parent(state: StateView, channel_id: Option<ChannelId>) -> Option<ChannelId> {
    if channel_id is Some && state.channels.contains_key(channel_id->Some_0.value) {
        state.channels[channel_id->Some_0.value].parent_id
    } else {
        None
    }
}

/// The settings of one channel.
pub open spec fn own_settings(settings: SettingsView, channel_id: Option<ChannelId>) -> Option<
    OverrideView,
> {
    if channel_id is Some && settings.channel_overrides.contains_key(channel_id->Some_0.value) {
        Some(settings.channel_overrides[channel_id->Some_0.value])
    } else {
        None
    }
}

/// Whether the settings of one channel are muted.
pub open spec fn settings_muted(setting: Option<OverrideView>, now: UtcTime) -> bool {
    setting is Some && setting_muted(setting->Some_0.muted, setting->Some_0.mute_end_time, now)
}

/// Whether the settings of one channel have it chosen.
pub open spec fn settings_choose(setting: Option<OverrideView>) -> bool {
    setting is Some && setting->Some_0.flags & 0x1000 != 0
}

/// A channel is muted by its own settings where it has any, else by its parent's, else by those
/// of the parent's parent, and by nothing above.
pub proof fn law_nearest_settings_mute(
    state: StateView,
    settings: SettingsView,
    channel_id: ChannelId,
    now: UtcTime,
)
    ensures
        ({
            let parent = known_parent(state, Some(channel_id));
            let category = known_parent(state, parent);
            let own = own_settings(settings, Some(channel_id));
            let above = own_settings(settings, parent);
            let top = own_settings(settings, category);
            state.channel_notification_muted_in_settings(settings, channel_id, now)
                == if own is Some {
                settings_muted(own, now)
            } else if above is Some {
                settings_muted(above, now)
            } else {
                settings_muted(top, now)
            }
        }),
{
    reveal_with_fuel(StateView::nearest_override, 5);
    let parent = known_parent(state, Some(channel_id));
    let category = known_parent(state, parent);
    assert(state.parent_of(channel_id) == parent);
    if parent is Some {
        assert(state.parent_of(parent->Some_0) == category);
    }
    let nodes = MAX_CHANNEL_ANCESTRY_NODES as nat;
    assert(nodes == 3);
    assert(state.nearest_override(settings, category, 1) == own_settings(settings, category));
    assert(state.nearest_override(settings, Some(channel_id), nodes) == if own_settings(
        settings,
        Some(channel_id),
    ) is Some {
        own_settings(settings, Some(channel_id))
    } else {
        state.nearest_override(settings, parent, 2)
    });
    assert(state.nearest_override(settings, parent, 2) == if own_settings(settings, parent) is Some {
        own_settings(settings, parent)
    } else {
        state.nearest_override(settings, category, 1)
    });
}

/// The settings that a channel falls under: those of its guild, else the private ones.
pub open spec fn scope_of(state: StateView, channel_id: ChannelId) -> Option<SettingsView> {
    if state.channels.contains_key(channel_id.value)
        && state.channels[channel_id.value].guild_id is Some {
        let guild_id = state.channels[channel_id.value].guild_id->Some_0;
        if state.notification_settings.contains_key(guild_id.value) {
            Some(state.notification_settings[guild_id.value])
        } else {
            None
        }
    } else {
        state.private_notification_settings
    }
}

/// A channel is muted where the current user muted it as a thread that they joined, or where the
/// settings that it falls under mute it. The mute of a whole guild is not a mute of its channels.
pub proof fn law_muted_channels(state: StateView, channel_id: ChannelId, now: UtcTime)
    ensures
        state.thread_notification_muted(channel_id, now) <==> {
            &&& state.channels.contains_key(channel_id.value)
            &&& state.channels[channel_id.value].is_thread()
            &&& state.thread_members.contains_key(channel_id.value)
            &&& setting_muted(
                state.thread_members[channel_id.value].muted == Some(true),
                state.thread_members[channel_id.value].mute_end_time,
                now,
            )
        },
        state.channel_notification_muted(channel_id, now) <==> {
            ||| state.thread_notification_muted(channel_id, now)
            ||| scope_of(state, channel_id) is Some && state.channel_notification_muted_in_settings(
                scope_of(state, channel_id)->Some_0,
                channel_id,
                now,
            )
        },
{
}

/// A guild is muted by the settings of the whole guild.
pub proof fn law_muted_guilds(state: StateView, guild_id: GuildId, now: UtcTime)
    ensures
        state.guild_notification_muted(guild_id, now) <==> {
            &&& state.notification_settings.contains_key(guild_id.value)
            &&& setting_muted(
                state.notification_settings[guild_id.value].muted,
                state.notification_settings[guild_id.value].mute_end_time,
                now,
            )
        },
{
}

/// Channels that are not known, or without settings, show; so do voice and stage channels. Other
/// channels are hidden where muted ones are and they are muted. Where only chosen channels show,
/// and that is not switched off, those other than categories are hidden too unless they, or what
/// they nest under, are chosen. Nothing else is hidden.
pub proof fn law_hidden_channels(state: StateView, channel_id: ChannelId, now: UtcTime)
    ensures
        ({
            let known = state.channels.contains_key(channel_id.value);
            let channel = state.channels[channel_id.value];
            let settings = scope_of(state, channel_id);
            let hides_muted = settings is Some && settings->Some_0.hide_muted_channels
                && state.channel_notification_muted_in_settings(
                settings->Some_0,
                channel_id,
                now,
            );
            let chosen_only = settings is Some && settings->Some_0.flags & 0x4000 != 0
                && settings->Some_0.flags & 0x2000 == 0;
            let parent = known_parent(state, Some(channel_id));
            let category = known_parent(state, parent);
            let chosen = settings is Some && (settings_choose(
                own_settings(settings->Some_0, Some(channel_id)),
            ) || settings_choose(own_settings(settings->Some_0, parent)) || settings_choose(
                own_settings(settings->Some_0, category),
            ));
            let visible = state.channel_visible_in_notification_settings(channel_id, now);
            &&& !known || channel.is_voice() || channel.is_stage() ==> visible
            &&& known && !channel.is_voice() && !channel.is_stage() ==> (!visible <==> hides_muted
                || (chosen_only && !channel.is_category() && !chosen))
        }),
{
    lemma_flag_numbers();
    reveal_with_fuel(StateView::ancestry_has_flag, 5);
    let parent = known_parent(state, Some(channel_id));
    let category = known_parent(state, parent);
    assert(state.parent_of(channel_id) == parent);
    if parent is Some {
        assert(state.parent_of(parent->Some_0) == category);
    }
    if let Some(settings) = scope_of(state, channel_id) {
        let nodes = MAX_CHANNEL_ANCESTRY_NODES as nat;
        assert(nodes == 3);
        assert(state.ancestry_has_flag(settings, category, 0x1000, 1) == settings_choose(
            own_settings(settings, category),
        ));
        assert(state.ancestry_has_flag(settings, parent, 0x1000, 2) == (settings_choose(
            own_settings(settings, parent),
        ) || state.ancestry_has_flag(settings, category, 0x1000, 1)));
        assert(state.ancestry_has_flag(settings, Some(channel_id), 0x1000, 3) == (settings_choose(
            own_settings(settings, Some(channel_id)),
        ) || state.ancestry_has_flag(settings, parent, 0x1000, 2)));
    }
}

/// Of a thread's flags the quietest counts: nothing, then mentions only, then all messages. Other
/// channels have no level of that kind, nor do threads that the current user did not join.
pub proof fn law_thread_levels(state: StateView, channel_id: ChannelId)
    ensures
        ({
            let level = state.thread_notification_level(channel_id);
            let joined = state.channels.contains_key(channel_id.value)
                && state.channels[channel_id.value].is_thread()
                && state.thread_members.contains_key(channel_id.value)
                && state.thread_members[channel_id.value].flags is Some;
            let flags = state.thread_members[channel_id.value].flags->Some_0;
            &&& !joined ==> level is None
            &&& joined && flags & 8 != 0 ==> level == Some(NotificationLevel::NoMessages)
            &&& joined && flags & 8 == 0 && flags & 4 != 0 ==> level == Some(
                NotificationLevel::OnlyMentions,
            )
            &&& joined && flags & 8 == 0 && flags & 4 == 0 && flags & 2 != 0 ==> level == Some(
                NotificationLevel::AllMessages,
            )
            &&& joined && flags & 8 == 0 && flags & 4 == 0 && flags & 2 == 0 ==> level is None
        }),
{
    lemma_flag_numbers();
}

/// The level that the settings of one channel set: by their flags, of which all messages wins,
/// else by a level that does not defer to the parent.
pub open spec fn set_level(setting: Option<OverrideView>) -> Option<NotificationLevel> {
    if setting is None {
        None
    } else if setting->Some_0.flags & 0x400 != 0 {
        Some(NotificationLevel::AllMessages)
    } else if setting->Some_0.flags & 0x200 != 0 {
        Some(NotificationLevel::OnlyMentions)
    } else if setting->Some_0.message_notifications == Some(NotificationLevel::ParentDefault) {
        None
    } else {
        setting->Some_0.message_notifications
    }
}

/// The level of a channel is that of the thread, else the one that its own settings set, else the
/// one that its parent's set, else that of the whole scope: by the flags, of which all messages
/// wins, else by its level; without any it is mentions only.
pub proof fn law_levels(state: StateView, settings: SettingsView, channel_id: ChannelId)
    ensures
        ({
            let level = state.channel_notification_level(settings, channel_id);
            let thread = state.thread_notification_level(channel_id);
            let own = set_level(own_settings(settings, Some(channel_id)));
            let above = set_level(
                own_settings(settings, known_parent(state, Some(channel_id))),
            );
            &&& thread is Some ==> level == thread->Some_0
            &&& thread is None && own is Some ==> level == own->Some_0
            &&& thread is None && own is None && above is Some ==> level == above->Some_0
            &&& thread is None && own is None && above is None ==> {
                &&& settings.flags & 0x800 != 0 ==> level == NotificationLevel::AllMessages
                &&& settings.flags & 0x800 == 0 && settings.flags & 0x1000 != 0 ==> level
                    == NotificationLevel::OnlyMentions
                &&& settings.flags & 0x800 == 0 && settings.flags & 0x1000 == 0 ==> {
                    let scope = settings.message_notifications;
                    level == if scope is Some && scope != Some(NotificationLevel::ParentDefault) {
                        scope->Some_0
                    } else {
                        NotificationLevel::OnlyMentions
                    }
                }
            }
        }),
{
    lemma_flag_numbers();
    lemma_either_flag(settings.flags);
    let parent = known_parent(state, Some(channel_id));
    assert(state.parent_of(channel_id) == parent);
    if let Some(own) = own_settings(settings, Some(channel_id)) {
        lemma_either_flag(own.flags);
    }
    if let Some(above) = own_settings(settings, parent) {
        lemma_either_flag(above.flags);
    }
}

} // verus!
