//! What holds of notification settings and of the decisions that rest on them.
use crate::channel::ChannelView;
use crate::channel_laws::{
    law_channel_list_is_complete, law_scope_lists, law_thread_is_no_other_kind,
};
use crate::clock::{Now, UtcTime};
use crate::ids::{ChannelId, GuildId, MessageId};
use crate::message::MessageView;
use crate::notification::kind::{
    mentions_user, SUPPRESS_NOTIFICATIONS_FLAG, USER_MENTION_ON_ALL_MESSAGES,
};
use crate::notification::mute::{spec_mute_holds, MuteEnd, MAX_CHANNEL_ANCESTRY_NODES};
use crate::notification::settings::{
    overrides_by_channel, overrides_in_order, NotificationLevel, OverrideInfoView,
    SettingsInfoView, SettingsView,
};
use crate::notification::unread::{
    aggregated, is_after, total_mentions, total_notifications, ChannelUnreadState,
};
use crate::ordered::{
    in_order, lemma_filter_holds, lemma_filter_same, lemma_in_order, lemma_listing_unique,
    lists_in_order,
};
use crate::state::{ChannelReadState, FriendStatus, StateView};
use vstd::prelude::*;

verus! {

/// The listed settings are in the order of their channels, with one entry for each.
pub open spec fn listed_in_order(infos: Seq<OverrideInfoView>) -> bool {
    forall|i: int, j: int|
        0 <= i < j < infos.len() ==> (#[trigger] infos[i]).channel_id.value < (
        #[trigger] infos[j]).channel_id.value
}

/// What the settings by channel hold of a listing without repeated channels.
proof fn lemma_overrides_by_channel(infos: Seq<OverrideInfoView>)
    requires
        listed_in_order(infos),
    ensures
        overrides_by_channel(infos).dom().finite(),
        forall|i: int|
            0 <= i < infos.len() ==> overrides_by_channel(infos).contains_key(
                (#[trigger] infos[i]).channel_id.value,
            ) && overrides_by_channel(infos)[infos[i].channel_id.value] == infos[i].setting(),
        forall|key: u64| #[trigger]
            overrides_by_channel(infos).contains_key(key) ==> exists|i: int|
                0 <= i < infos.len() && (#[trigger] infos[i]).channel_id.value == key,
    decreases infos.len(),
{
    if infos.len() > 0 {
        let rest = infos.drop_last();
        assert forall|i: int, j: int| 0 <= i < j < rest.len() implies (
        #[trigger] rest[i]).channel_id.value < (#[trigger] rest[j]).channel_id.value by {
            assert(rest[i] == infos[i] && rest[j] == infos[j]);
        }
        lemma_overrides_by_channel(rest);
        assert forall|i: int| 0 <= i < infos.len() implies overrides_by_channel(infos).contains_key(
            (#[trigger] infos[i]).channel_id.value,
        ) && overrides_by_channel(infos)[infos[i].channel_id.value] == infos[i].setting() by {
            if i < rest.len() {
                assert(rest[i] == infos[i]);
                assert(infos[i].channel_id.value < infos[infos.len() - 1].channel_id.value);
            }
        }
        assert forall|key: u64| #[trigger]
            overrides_by_channel(infos).contains_key(key) implies exists|i: int|
            0 <= i < infos.len() && (#[trigger] infos[i]).channel_id.value == key by {
            if key == infos.last().channel_id.value {
                assert(infos[infos.len() - 1].channel_id.value == key);
            } else {
                assert(overrides_by_channel(rest).contains_key(key));
                let i = choose|i: int|
                    0 <= i < rest.len() && (#[trigger] rest[i]).channel_id.value == key;
                assert(infos[i].channel_id.value == key);
            }
        }
    }
}

/// The settings by channel of an ordered listing are listed as they were.
proof fn lemma_listing_is_kept(infos: Seq<OverrideInfoView>)
    requires
        listed_in_order(infos),
    ensures
        overrides_in_order(overrides_by_channel(infos)) == infos,
{
    let map = overrides_by_channel(infos);
    lemma_overrides_by_channel(infos);
    lemma_in_order(map.dom());
    let keys = infos.map_values(|info: OverrideInfoView| info.channel_id.value);
    assert(lists_in_order(keys, map.dom())) by {
        assert forall|i: int| 0 <= i < keys.len() implies map.dom().contains(#[trigger] keys[i]) by {
            assert(map.contains_key(infos[i].channel_id.value));
        }
        assert forall|key: u64| #[trigger] map.dom().contains(key) implies keys.contains(key) by {
            assert(map.contains_key(key));
            let i = choose|i: int|
                0 <= i < infos.len() && (#[trigger] infos[i]).channel_id.value == key;
            assert(keys[i] == key);
        }
    }
    lemma_listing_unique(keys, in_order(map.dom()), map.dom());
    assert forall|i: int| 0 <= i < infos.len() implies #[trigger] overrides_in_order(map)[i]
        == infos[i] by {
        assert(keys[i] == infos[i].channel_id.value);
        assert(map[keys[i]] == infos[i].setting());
    }
    assert(overrides_in_order(map) =~= infos);
}

/// Settings that were taken over are reported as they came, mute metadata included. The channel
/// settings are reported in the order of the channels, the last one for each, and so as they
/// came where the payload lists them like that.
pub proof fn law_settings_round_trip(state: StateView, info: SettingsInfoView)
    ensures
        ({
            let reported = state.with_notification_settings(info).guild_notification_settings_info(
                info.guild_id,
            );
            &&& reported == SettingsInfoView {
                channel_overrides: overrides_in_order(overrides_by_channel(info.channel_overrides)),
                ..info
            }
            &&& listed_in_order(info.channel_overrides) ==> reported == info
        }),
{
    let after = state.with_notification_settings(info);
    assert(after.scope_settings(info.guild_id) == Some(info.settings()));
    if listed_in_order(info.channel_overrides) {
        lemma_listing_is_kept(info.channel_overrides);
    }
}

/// Taking over what is reported of a scope changes nothing.
pub proof fn law_reported_settings_change_nothing(state: StateView, guild_id: Option<GuildId>)
    requires
        state.scope_settings(guild_id) is Some,
        state.scope_settings(guild_id)->Some_0.channel_overrides.dom().finite(),
    ensures
        state.with_notification_settings(state.guild_notification_settings_info(guild_id)) == state,
{
    let settings = state.scope_settings(guild_id)->Some_0;
    let map = settings.channel_overrides;
    let infos = overrides_in_order(map);
    let keys = in_order(map.dom());
    lemma_in_order(map.dom());
    assert(listed_in_order(infos));
    lemma_overrides_by_channel(infos);
    let again = overrides_by_channel(infos);
    assert forall|key: u64| #[trigger] map.contains_key(key) implies again.contains_key(key)
        && again[key] == map[key] by {
        assert(map.dom().contains(key));
        let i = choose|i: int| 0 <= i < keys.len() && keys[i] == key;
        assert(infos[i] == map[key].info(key));
        assert(infos[i].setting() == map[key]);
    }
    assert forall|key: u64| #[trigger] again.contains_key(key) implies map.contains_key(key) by {
        let i = choose|i: int| 0 <= i < infos.len() && (#[trigger] infos[i]).channel_id.value == key;
        assert(map.dom().contains(keys[i]));
    }
    assert(again =~= map);
    let after = state.with_notification_settings(state.guild_notification_settings_info(guild_id));
    match guild_id {
        Some(guild_id) => {
            assert(after.notification_settings =~= state.notification_settings);
        },
        None => {},
    }
}

/// Of the settings that a payload lists for one channel the last ones are kept, as they are; a
/// channel that is not listed has none.
pub proof fn law_last_listed_settings_are_kept(
    infos: Seq<OverrideInfoView>,
    channel_id: u64,
    i: int,
)
    requires
        -1 <= i < infos.len(),
        i >= 0 ==> infos[i].channel_id.value == channel_id,
        forall|j: int| i < j < infos.len() ==> (#[trigger] infos[j]).channel_id.value != channel_id,
    ensures
        ({
            let kept = overrides_by_channel(infos);
            &&& i == -1 ==> !kept.contains_key(channel_id)
            &&& i >= 0 ==> {
                &&& kept.contains_key(channel_id)
                &&& kept[channel_id].message_notifications == infos[i].message_notifications
                &&& kept[channel_id].muted == infos[i].muted
                &&& kept[channel_id].mute_end_time == infos[i].mute_end_time
                &&& kept[channel_id].selected_time_window == infos[i].selected_time_window
                &&& kept[channel_id].collapsed == infos[i].collapsed
                &&& kept[channel_id].flags == infos[i].flags
            }
        }),
    decreases infos.len(),
{
    if infos.len() > 0 && i < infos.len() - 1 {
        let rest = infos.drop_last();
        assert(infos[infos.len() - 1].channel_id.value != channel_id);
        assert forall|j: int| i < j < rest.len() implies (#[trigger] rest[j]).channel_id.value
            != channel_id by {
            assert(rest[j] == infos[j]);
        }
        law_last_listed_settings_are_kept(rest, channel_id, i);
    }
}

/// Settings are kept under their scope, each as it came.
pub proof fn law_settings_are_kept(state: StateView, info: SettingsInfoView)
    ensures
        ({
            let after = state.with_notification_settings(info);
            let kept = if info.guild_id is Some {
                after.notification_settings[info.guild_id->Some_0.value]
            } else {
                after.private_notification_settings->Some_0
            };
            &&& info.guild_id is Some ==> after.notification_settings.contains_key(
                info.guild_id->Some_0.value,
            )
            &&& info.guild_id is None ==> after.private_notification_settings is Some
            &&& kept.message_notifications == info.message_notifications
            &&& kept.muted == info.muted
            &&& kept.mute_end_time == info.mute_end_time
            &&& kept.selected_time_window == info.selected_time_window
            &&& kept.suppress_everyone == info.suppress_everyone
            &&& kept.suppress_roles == info.suppress_roles
            &&& kept.flags == info.flags
            &&& kept.hide_muted_channels == info.hide_muted_channels
            &&& kept.mobile_push == info.mobile_push
            &&& kept.mute_scheduled_events == info.mute_scheduled_events
            &&& kept.notify_highlights == info.notify_highlights
            &&& kept.version == info.version
            &&& kept.channel_overrides == overrides_by_channel(info.channel_overrides)
        }),
{
}

/// A scope without settings is reported with nothing muted, suppressed or hidden, and with pushes
/// to mobile devices.
pub proof fn law_default_settings(state: StateView, guild_id: Option<GuildId>)
    requires
        state.scope_settings(guild_id) is None,
    ensures
        state.guild_notification_settings_info(guild_id) == (SettingsInfoView {
            guild_id,
            message_notifications: None,
            muted: false,
            mute_end_time: None,
            selected_time_window: None,
            suppress_everyone: false,
            suppress_roles: false,
            flags: 0,
            hide_muted_channels: false,
            mobile_push: true,
            mute_scheduled_events: false,
            notify_highlights: 0,
            version: 0,
            channel_overrides: Seq::empty(),
        }),
{
}

/// The settings of the other scopes stay as they are.
pub proof fn law_settings_of_other_scopes_stay(
    state: StateView,
    info: SettingsInfoView,
    other: Option<GuildId>,
)
    requires
        other != info.guild_id,
    ensures
        state.with_notification_settings(info).guild_notification_settings_info(other)
            == state.guild_notification_settings_info(other),
{
}

/// Notification settings hide nothing from where permissions decide: the viewable channels, the
/// visibility counts and the thread tree do not depend on them.
pub proof fn law_settings_do_not_change_visibility(
    state: StateView,
    info: SettingsInfoView,
    guild_id: Option<GuildId>,
    channel_id: ChannelId,
    now_millis: u64,
)
    ensures
        ({
            let after = state.with_notification_settings(info);
            &&& after.channels_for_guild(guild_id) == state.channels_for_guild(guild_id)
            &&& after.viewable_channels_for_guild(guild_id) == state.viewable_channels_for_guild(
                guild_id,
            )
            &&& after.visible_channels(guild_id) == state.visible_channels(guild_id)
            &&& after.hidden_from_view(guild_id) == state.hidden_from_view(guild_id)
            &&& after.thread_is_sidebar_active(channel_id, now_millis)
                == state.thread_is_sidebar_active(channel_id, now_millis)
            &&& after.channel_notification_eligible(channel_id, now_millis)
                == state.channel_notification_eligible(channel_id, now_millis)
        }),
{
    let after = state.with_notification_settings(info);
    assert forall|channel: ChannelView| after.can_view_channel(channel) == state.can_view_channel(
        channel,
    ) by {}
    assert(after.channels == state.channels);
    let list = state.channel_list();
    assert(after.channel_list() =~= list);
    lemma_filter_same(
        list,
        |channel: ChannelView| channel.guild_id == guild_id && after.can_view_channel(channel),
        |channel: ChannelView| channel.guild_id == guild_id && state.can_view_channel(channel),
    );
    lemma_filter_same(
        list,
        |channel: ChannelView|
            channel.guild_id == guild_id && !channel.is_thread() && after.can_view_channel(channel),
        |channel: ChannelView|
            channel.guild_id == guild_id && !channel.is_thread() && state.can_view_channel(channel),
    );
    lemma_filter_same(
        list,
        |channel: ChannelView|
            channel.guild_id == guild_id && !channel.is_thread() && !after.can_view_channel(channel),
        |channel: ChannelView|
            channel.guild_id == guild_id && !channel.is_thread() && !state.can_view_channel(channel),
    );
}

/// The sidebar shows only viewable channels.
pub proof fn law_sidebar_shows_viewable_channels(
    state: StateView,
    guild_id: Option<GuildId>,
    now: UtcTime,
    channel: ChannelView,
)
    ensures
        state.sidebar_channels_for_guild(guild_id, now).contains(channel) <==>
            state.viewable_channels_for_guild(guild_id).contains(channel)
            && state.channel_visible_in_notification_settings(channel.id, now),
{
    lemma_filter_holds(
        state.viewable_channels_for_guild(guild_id),
        |channel: ChannelView|
            state.channel_visible_in_notification_settings(channel.id, now),
        channel,
    );
}

/// Viewable voice and stage channels are in the sidebar whatever is muted or unchosen.
pub proof fn law_voice_channels_stay_in_sidebar(
    state: StateView,
    guild_id: Option<GuildId>,
    now: UtcTime,
    channel: ChannelView,
)
    requires
        state.wf(),
        channel.is_voice() || channel.is_stage(),
        state.viewable_channels_for_guild(guild_id).contains(channel),
    ensures
        state.sidebar_channels_for_guild(guild_id, now).contains(channel),
{
    law_sidebar_shows_viewable_channels(state, guild_id, now, channel);
    law_scope_lists(state, guild_id, channel);
}

/// Settings of the channel itself beat those of everything that it nests under.
pub proof fn law_channel_settings_beat_parent(
    state: StateView,
    settings: SettingsView,
    channel_id: ChannelId,
    now: UtcTime,
)
    requires
        settings.channel_overrides.contains_key(channel_id.value),
    ensures
        state.channel_notification_muted_in_settings(settings, channel_id, now)
            == settings.channel_overrides[channel_id.value].muted_at(now),
{
}

/// A thread without settings of its own, in a channel without any, follows its category.
pub proof fn law_thread_follows_category(
    state: StateView,
    settings: SettingsView,
    thread_id: ChannelId,
    channel_id: ChannelId,
    category_id: ChannelId,
    now: UtcTime,
)
    requires
        state.parent_of(thread_id) == Some(channel_id),
        state.parent_of(channel_id) == Some(category_id),
        !settings.channel_overrides.contains_key(thread_id.value),
        !settings.channel_overrides.contains_key(channel_id.value),
        settings.channel_overrides.contains_key(category_id.value),
    ensures
        state.channel_notification_muted_in_settings(settings, thread_id, now)
            == settings.channel_overrides[category_id.value].muted_at(now),
{
    let nodes = MAX_CHANNEL_ANCESTRY_NODES as nat;
    reveal_with_fuel(StateView::nearest_override, 4);
    assert(state.nearest_override(settings, Some(thread_id), nodes) == Some(
        settings.channel_overrides[category_id.value],
    ));
}

/// A mute that holds at some time held at every earlier time.
pub proof fn law_mute_ends_once(muted: bool, end: MuteEnd, earlier: UtcTime, later: UtcTime)
    requires
        !earlier.spec_is_after(later),
        spec_mute_holds(muted, end, later),
    ensures
        spec_mute_holds(muted, end, earlier),
{
}

/// The channel's own level beats its parent's, and a level chosen for a thread beats both.
pub proof fn law_most_specific_level_counts(
    state: StateView,
    settings: SettingsView,
    channel_id: ChannelId,
)
    ensures
        state.thread_notification_level(channel_id) is Some
            ==> state.channel_notification_level(settings, channel_id)
            == state.thread_notification_level(channel_id)->Some_0,
        state.thread_notification_level(channel_id) is None && settings.override_level(
            Some(channel_id),
        ) is Some ==> state.channel_notification_level(settings, channel_id)
            == settings.override_level(Some(channel_id))->Some_0,
{
}

/// A level is never left to a parent.
pub proof fn law_level_is_resolved(
    state: StateView,
    settings: SettingsView,
    channel_id: ChannelId,
)
    ensures
        state.channel_notification_level(settings, channel_id) != NotificationLevel::ParentDefault,
{
}

/// Messages of the current user, of somebody blocked or ignored, and messages that have been
/// read never notify.
pub proof fn law_settled_messages_never_notify(state: StateView, message: MessageView, now: Now)
    ensures
        state.current_user_id == Some(message.author_id) ==> state.message_notification_kind(
            message,
            now,
        ) is Nothing,
        state.relationships.contains_key(message.author_id.value) && (
        state.relationships[message.author_id.value].status == FriendStatus::Blocked
            || state.relationships[message.author_id.value].ignored)
            ==> state.message_notification_kind(message, now) is Nothing,
        state.last_acked(message.channel_id) is Some && state.last_acked(
            message.channel_id,
        )->Some_0.value >= message.message_id.value ==> state.message_notification_kind(
            message,
            now,
        ) is Nothing,
{
}

/// A message that was sent without notification is never audible.
pub proof fn law_suppressed_messages_are_silent(state: StateView, message: MessageView, now: Now)
    requires
        message.flags & SUPPRESS_NOTIFICATIONS_FLAG != 0,
    ensures
        !state.message_notification_kind(message, now).spec_is_audible(),
{
}

/// A message of a guild that is muted, or of a channel that is muted, is never audible. It may
/// still count as a mention.
pub proof fn law_muted_messages_are_silent(
    state: StateView,
    guild_id: GuildId,
    message: MessageView,
    now: Now,
)
    requires
        message.guild_id == Some(guild_id),
        state.guild_notification_muted(guild_id, now.utc) || ({
            &&& state.channel_guild_id(message.channel_id) == Some(guild_id)
            &&& state.channel_notification_muted(message.channel_id, now.utc)
        }),
    ensures
        !state.message_notification_kind(message, now).spec_is_audible(),
        state.message_notification_kind(message, now) is Nothing
            || state.message_notification_kind(message, now) is Mention,
{
}

/// A message of a guild channel that may not notify is never audible.
pub proof fn law_ineligible_messages_are_silent(
    state: StateView,
    message: MessageView,
    now: Now,
)
    requires
        message.guild_id is Some,
        !state.channel_notification_eligible(message.channel_id, now.unix_millis),
    ensures
        !state.message_notification_kind(message, now).spec_is_audible(),
{
}

/// A message that names the current user counts as a mention, however muted its channel is,
/// unless it is settled or reports that somebody left.
pub proof fn law_mentions_always_count(state: StateView, message: MessageView, now: Now)
    requires
        !state.message_is_settled(message),
        !message.message_kind.spec_is_recipient_remove(),
        state.current_user_id is Some,
        mentions_user(message.mentions, state.current_user_id->Some_0),
    ensures
        state.message_notification_kind(message, now) is Mention,
{
}

/// Where the user counts all messages as mentions, a message that would notify as any message
/// does is a mention of low importance, which is never audible.
pub proof fn law_all_message_mentions_are_silent(
    state: StateView,
    guild_id: GuildId,
    message: MessageView,
    now: Now,
)
    requires
        message.guild_id == Some(guild_id),
        state.notification_settings.contains_key(guild_id.value),
        state.user_notification_flags & USER_MENTION_ON_ALL_MESSAGES != 0,
    ensures
        !(state.message_notification_kind(message, now) is Notify),
        state.message_notification_kind(message, now) is LowImportanceMention
            ==> !state.message_notification_kind(message, now).spec_is_audible(),
{
}

/// Messages may notify before their channel is known.
pub proof fn law_unknown_channels_may_notify(
    state: StateView,
    channel_id: ChannelId,
    now_millis: u64,
)
    requires
        state.channel(channel_id) is None,
    ensures
        state.channel_notification_eligible(channel_id, now_millis),
{
}

/// Without settings only mentions and levels chosen for threads notify in a guild.
pub proof fn law_only_mentions_by_default(
    state: StateView,
    guild_id: GuildId,
    message: MessageView,
    now: Now,
)
    requires
        message.guild_id == Some(guild_id),
        !state.notification_settings.contains_key(guild_id.value),
        state.thread_notification_level(message.channel_id) is None,
        !state.message_mentions_current_user(guild_id, message, false, false),
    ensures
        state.message_notification_kind(message, now) is Nothing,
{
}

/// Every message of a private conversation that is not muted counts as a mention, unless it is
/// settled or reports that somebody left.
pub proof fn law_private_messages_count_as_mentions(
    state: StateView,
    message: MessageView,
    now: Now,
)
    requires
        message.guild_id is None,
        !state.message_is_settled(message),
        !message.message_kind.spec_is_recipient_remove(),
        state.private_notification_settings is Some ==> ({
            let settings = state.private_notification_settings->Some_0;
            &&& !settings.muted_at(now.utc)
            &&& !state.channel_notification_muted_in_settings(settings, message.channel_id, now.utc)
        }),
    ensures
        state.message_notification_kind(message, now) is Mention,
{
}

/// The inbox shows what is unread in a channel, or nothing; nothing of a muted channel or scope;
/// and never more than the sidebar does for a channel that is no forum.
pub proof fn law_inbox_shows_unread_or_nothing(state: StateView, channel_id: ChannelId, now: Now)
    ensures
        ({
            let inbox = state.channel_inbox_unread(channel_id, now);
            &&& inbox == ChannelUnreadState::Seen || inbox == state.channel_unread(channel_id, now)
            &&& state.notification_settings_for_channel(channel_id) is Some
                && state.notification_settings_for_channel(channel_id)->Some_0.muted_at(now.utc)
                ==> inbox == ChannelUnreadState::Seen
            &&& state.channel_notification_muted(channel_id, now.utc) ==> inbox
                == ChannelUnreadState::Seen
            &&& inbox != ChannelUnreadState::Seen && !state.is_known_forum(channel_id) ==> inbox
                == state.channel_sidebar_unread(channel_id, now)
        }),
{
}

/// Muted and hidden channels show nothing in the sidebar, and muted guilds neither.
pub proof fn law_muted_shows_nothing_in_sidebar(
    state: StateView,
    channel_id: ChannelId,
    guild_id: GuildId,
    now: Now,
)
    ensures
        state.channel_notification_muted(channel_id, now.utc) ==> state.channel_sidebar_unread(
            channel_id,
            now,
        ) == ChannelUnreadState::Seen,
        !state.channel_visible_in_notification_settings(channel_id, now.utc)
            ==> state.channel_sidebar_unread(channel_id, now) == ChannelUnreadState::Seen,
        state.guild_notification_muted(guild_id, now.utc) ==> state.guild_sidebar_unread(
            guild_id,
            now,
        ) == ChannelUnreadState::Seen,
{
}

/// A post of a forum adds to its forum what the sidebar would show for the post itself.
pub proof fn law_forum_stands_for_its_posts(state: StateView, channel_id: ChannelId, now: Now)
    requires
        state.wf(),
        state.is_known_forum(channel_id),
        !state.hides_unread(channel_id, now),
    ensures
        state.channel_sidebar_unread(channel_id, now) == aggregated(
            seq![state.channel_unread(channel_id, now)] + state.forum_posts(
                channel_id,
                now,
            ).map_values(|post: ChannelView| state.channel_sidebar_unread(post.id, now)),
        ),
{
    let posts = state.forum_posts(channel_id, now);
    let own = |post: ChannelView| state.own_sidebar_unread(post.id, now);
    let full = |post: ChannelView| state.channel_sidebar_unread(post.id, now);
    let keep = |channel: ChannelView|
        channel.is_thread() && channel.parent_id == Some(channel_id)
            && state.channel_notification_eligible(channel.id, now.unix_millis);
    assert forall|i: int| 0 <= i < posts.len() implies own(#[trigger] posts[i]) == full(posts[i]) by {
        assert(posts.contains(posts[i]));
        lemma_filter_holds(state.channel_list(), keep, posts[i]);
        law_channel_list_is_complete(state, posts[i]);
        law_thread_is_no_other_kind(posts[i]);
    }
    assert(posts.map_values(own) =~= posts.map_values(full));
}

/// Mentions win over notifications, notifications over what is merely unread.
pub proof fn law_aggregate_precedence(states: Seq<ChannelUnreadState>)
    ensures
        aggregated(states) is Mentioned <==> total_mentions(states) > 0,
        aggregated(states) is Notified <==> total_mentions(states) == 0 && total_notifications(
            states,
        ) > 0,
        aggregated(states) is Unread <==> total_mentions(states) == 0 && total_notifications(states)
            == 0 && states.contains(ChannelUnreadState::Unread),
{
}

/// Nothing is unread in a group of channels exactly where nothing is unread in any of them.
/// Channels never report a count of zero.
pub proof fn law_aggregate_seen_iff_all_seen(states: Seq<ChannelUnreadState>)
    requires
        forall|i: int|
            0 <= i < states.len() ==> #[trigger] states[i] != ChannelUnreadState::Mentioned(0)
                && states[i] != ChannelUnreadState::Notified(0),
    ensures
        aggregated(states) is Seen <==> forall|i: int|
            0 <= i < states.len() ==> #[trigger] states[i] is Seen,
    decreases states.len(),
{
    lemma_totals_positive(states);
    if aggregated(states) is Seen {
        assert forall|i: int| 0 <= i < states.len() implies #[trigger] states[i] is Seen by {
            if states[i] is Unread {
                assert(states.contains(ChannelUnreadState::Unread));
            }
        }
    }
}

/// A total is positive exactly where an entry has a positive count.
proof fn lemma_totals_positive(states: Seq<ChannelUnreadState>)
    requires
        forall|i: int|
            0 <= i < states.len() ==> #[trigger] states[i] != ChannelUnreadState::Mentioned(0)
                && states[i] != ChannelUnreadState::Notified(0),
    ensures
        total_mentions(states) > 0 <==> exists|i: int|
            0 <= i < states.len() && #[trigger] states[i] is Mentioned,
        total_notifications(states) > 0 <==> exists|i: int|
            0 <= i < states.len() && #[trigger] states[i] is Notified,
    decreases states.len(),
{
    if states.len() > 0 {
        let rest = states.drop_last();
        assert forall|i: int| 0 <= i < rest.len() implies #[trigger] rest[i]
            != ChannelUnreadState::Mentioned(0) && rest[i] != ChannelUnreadState::Notified(0) by {
            assert(rest[i] == states[i]);
        }
        lemma_totals_positive(rest);
        let n = states.len() - 1;
        assert(states.last() == states[n]);
        if total_mentions(rest) > 0 {
            let i = choose|i: int| 0 <= i < rest.len() && #[trigger] rest[i] is Mentioned;
            assert(states[i] is Mentioned);
        }
        if total_notifications(rest) > 0 {
            let i = choose|i: int| 0 <= i < rest.len() && #[trigger] rest[i] is Notified;
            assert(states[i] is Notified);
        }
        assert forall|i: int| 0 <= i < n implies #[trigger] states[i] == rest[i] by {}
    }
}

/// A channel never reports a count of zero.
pub proof fn law_counts_are_positive(state: StateView, channel_id: ChannelId, now: Now)
    ensures
        state.channel_unread(channel_id, now) != ChannelUnreadState::Mentioned(0),
        state.channel_unread(channel_id, now) != ChannelUnreadState::Notified(0),
{
}

/// A channel without messages, and an unknown one, is seen.
pub proof fn law_channel_without_messages_is_seen(
    state: StateView,
    channel_id: ChannelId,
    now: Now,
)
    requires
        state.channel(channel_id) is Some ==> state.channel(
            channel_id,
        )->Some_0.last_message_id is None,
    ensures
        state.channel_unread(channel_id, now) is Seen,
{
}

/// A channel that was read up to its latest message, and all of whose loaded messages were, is
/// seen, unless the server still counts something.
pub proof fn law_read_channel_is_seen(
    state: StateView,
    channel_id: ChannelId,
    acked: MessageId,
    now: Now,
)
    requires
        state.channel(channel_id) is Some,
        state.channel(channel_id)->Some_0.last_message_id is Some,
        state.channel(channel_id)->Some_0.last_message_id->Some_0.value <= acked.value,
        state.read_states.get(channel_id.value) == Some(
            (ChannelReadState {
                last_acked_message_id: Some(acked),
                mention_count: 0,
                notification_count: 0,
            }),
        ),
        state.timelines.contains_key(channel_id.value) ==> forall|i: int|
            0 <= i < state.timelines[channel_id.value].len() ==> (
            #[trigger] state.timelines[channel_id.value][i]).message_id.value <= acked.value,
    ensures
        state.channel_unread(channel_id, now) is Seen,
{
    if state.timelines.contains_key(channel_id.value) {
        let unread = |message: MessageView| is_after(message, state.last_acked(channel_id));
        state.timelines[channel_id.value].lemma_all_neg_filter_empty(unread);
    }
    assert(state.loaded_unread(channel_id).len() == 0);
    reveal(Seq::filter);
}

} // verus!
