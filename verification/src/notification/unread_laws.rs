//! What is unread, in terms of what was received and read.
use crate::channel::ChannelView;
use crate::channel_laws::law_channel_list_is_complete;
use crate::clock::{Now, UtcTime};
use crate::counting::{
    channel_ids, lemma_channels_count, lemma_filter_counts, lemma_filter_twice, positions,
};
use crate::ids::{ChannelId, GuildId, MessageId};
use crate::message::MessageView;
use crate::notification::unread::{aggregated, is_after, ChannelUnreadState};
use crate::ordered::{lemma_filter_holds, lemma_filter_same};
use crate::state::StateView;
use vstd::prelude::*;

verus! {

/// The latest message of a channel.
pub open spec fn latest_message(state: StateView, channel_id: ChannelId) -> Option<MessageId> {
    if state.channels.contains_key(channel_id.value) {
        state.channels[channel_id.value].last_message_id
    } else {
        None
    }
}

/// The last message of a channel that was read.
pub open spec fn read_up_to(state: StateView, channel_id: ChannelId) -> Option<MessageId> {
    if state.read_states.contains_key(channel_id.value) {
        state.read_states[channel_id.value].last_acked_message_id
    } else {
        None
    }
}

/// The mentions that the server counts.
pub open spec fn served_mentions(state: StateView, channel_id: ChannelId) -> u32 {
    if state.read_states.contains_key(channel_id.value) {
        state.read_states[channel_id.value].mention_count
    } else {
        0
    }
}

/// The other notifications that the server counts.
pub open spec fn served_notifications(state: StateView, channel_id: ChannelId) -> u32 {
    if state.read_states.contains_key(channel_id.value) {
        state.read_states[channel_id.value].notification_count
    } else {
        0
    }
}

/// The loaded messages of a channel.
pub open spec fn loaded(state: StateView, channel_id: ChannelId) -> Seq<MessageView> {
    if state.timelines.contains_key(channel_id.value) {
        state.timelines[channel_id.value]
    } else {
        Seq::empty()
    }
}

/// The message came after the last one that was read.
pub open spec fn came_later(state: StateView, channel_id: ChannelId, message: MessageView) -> bool {
    read_up_to(state, channel_id) is Some ==> read_up_to(state, channel_id)->Some_0.value
        < message.message_id.value
}

/// Which loaded messages are unread mentions, of low importance or not.
pub open spec fn mention_places(state: StateView, channel_id: ChannelId, now: Now) -> Set<int> {
    positions(
        loaded(state, channel_id),
        |message: MessageView|
            {
                let kind = state.message_notification_kind(message, now);
                came_later(state, channel_id, message) && (kind is Mention
                    || kind is LowImportanceMention)
            },
    )
}

/// Which loaded messages are unread and notify without a mention.
pub open spec fn notify_places(state: StateView, channel_id: ChannelId, now: Now) -> Set<int> {
    positions(
        loaded(state, channel_id),
        |message: MessageView|
            came_later(state, channel_id, message) && state.message_notification_kind(
                message,
                now,
            ) is Notify,
    )
}

/// A count that fits in 32 bits, or their largest value.
pub open spec fn at_most_u32(count: int) -> u32 {
    if count > 0xffff_ffff {
        0xffff_ffff
    } else {
        count as u32
    }
}

/// The loaded unread messages that notify are counted one by one.
pub proof fn law_loaded_messages_are_counted(state: StateView, channel_id: ChannelId, now: Now)
    ensures
        state.loaded_mentions(channel_id, now) == mention_places(state, channel_id, now).len(),
        state.loaded_notifications(channel_id, now) == notify_places(state, channel_id, now).len(),
        mention_places(state, channel_id, now).finite(),
        notify_places(state, channel_id, now).finite(),
        mention_places(state, channel_id, now).disjoint(notify_places(state, channel_id, now)),
{
    let list = loaded(state, channel_id);
    let later = |message: MessageView| is_after(message, state.last_acked(channel_id));
    let mention = |message: MessageView|
        state.message_notification_kind(message, now).spec_counts_as_mention();
    let notify = |message: MessageView| state.message_notification_kind(message, now) is Notify;
    let later_mention = |message: MessageView|
        {
            let kind = state.message_notification_kind(message, now);
            came_later(state, channel_id, message) && (kind is Mention
                || kind is LowImportanceMention)
        };
    let later_notify = |message: MessageView|
        came_later(state, channel_id, message) && state.message_notification_kind(
            message,
            now,
        ) is Notify;
    lemma_filter_twice(list, later, mention, later_mention);
    lemma_filter_twice(list, later, notify, later_notify);
    lemma_filter_counts(list, later_mention);
    lemma_filter_counts(list, later_notify);
    reveal(Seq::filter);
    if !state.timelines.contains_key(channel_id.value) {
        assert(list.filter(later) =~= Seq::empty());
    }
}

/// A channel whose latest message came after the last one read, or of which nothing was read, is
/// never seen.
pub proof fn law_channel_with_news_is_never_seen(
    state: StateView,
    channel_id: ChannelId,
    now: Now,
)
    requires
        latest_message(state, channel_id) is Some,
        read_up_to(state, channel_id) is Some ==> read_up_to(state, channel_id)->Some_0.value
            < latest_message(state, channel_id)->Some_0.value,
    ensures
        !(state.channel_unread(channel_id, now) is Seen),
{
}

/// The counts of the server are reported as they are, mentions before other notifications, for
/// every channel that has a message.
pub proof fn law_server_counts_are_reported(state: StateView, channel_id: ChannelId, now: Now)
    requires
        latest_message(state, channel_id) is Some,
    ensures
        served_mentions(state, channel_id) > 0 ==> state.channel_unread(channel_id, now)
            == ChannelUnreadState::Mentioned(served_mentions(state, channel_id)),
        served_mentions(state, channel_id) == 0 && served_notifications(state, channel_id) > 0
            ==> state.channel_unread(channel_id, now) == ChannelUnreadState::Notified(
            served_notifications(state, channel_id),
        ),
{
}

/// Without counts of the server the loaded unread messages are counted, mentions before other
/// notifications. Without these, a channel is unread where it has news and seen otherwise.
pub proof fn law_loaded_counts_are_reported(state: StateView, channel_id: ChannelId, now: Now)
    requires
        latest_message(state, channel_id) is Some,
        served_mentions(state, channel_id) == 0,
        served_notifications(state, channel_id) == 0,
    ensures
        ({
            let unread = state.channel_unread(channel_id, now);
            let mentions = mention_places(state, channel_id, now).len();
            let notifications = notify_places(state, channel_id, now).len();
            let news = read_up_to(state, channel_id) is Some ==> read_up_to(
                state,
                channel_id,
            )->Some_0.value < latest_message(state, channel_id)->Some_0.value;
            &&& mentions > 0 ==> unread == ChannelUnreadState::Mentioned(
                at_most_u32(mentions as int),
            )
            &&& mentions == 0 && notifications > 0 ==> unread == ChannelUnreadState::Notified(
                at_most_u32(notifications as int),
            )
            &&& mentions == 0 && notifications == 0 ==> (unread is Unread <==> news) && (
            unread is Seen <==> !news)
        }),
{
    law_loaded_messages_are_counted(state, channel_id, now);
}

/// Nothing is unread in no channels. One channel more adds its mentions to the mentions and its
/// notifications to the notifications, up to what 32 bits hold; a heavier state hides a lighter
/// one, and a channel with nothing new changes nothing.
pub proof fn law_aggregate_adds_up(states: Seq<ChannelUnreadState>, one: ChannelUnreadState)
    ensures
        aggregated(Seq::empty()) is Seen,
        ({
            let before = aggregated(states);
            let after = aggregated(states.push(one));
            match one {
                ChannelUnreadState::Seen => after == before,
                ChannelUnreadState::Unread => after == if before is Seen {
                    ChannelUnreadState::Unread
                } else {
                    before
                },
                ChannelUnreadState::Notified(count) => {
                    &&& count == 0 || before is Mentioned ==> after == before
                    &&& count > 0 && before is Notified ==> after == ChannelUnreadState::Notified(
                        at_most_u32(before->Notified_0 + count),
                    )
                    &&& count > 0 && (before is Seen || before is Unread) ==> after
                        == ChannelUnreadState::Notified(count)
                },
                ChannelUnreadState::Mentioned(count) => {
                    &&& count == 0 ==> after == before
                    &&& count > 0 && before is Mentioned ==> after
                        == ChannelUnreadState::Mentioned(at_most_u32(before->Mentioned_0 + count))
                    &&& count > 0 && !(before is Mentioned) ==> after
                        == ChannelUnreadState::Mentioned(count)
                },
            }
        }),
{
    let longer = states.push(one);
    assert(longer.drop_last() =~= states);
    assert(longer.last() == one);
    if states.contains(ChannelUnreadState::Unread) {
        let i = choose|i: int| 0 <= i < states.len() && states[i] == ChannelUnreadState::Unread;
        assert(longer[i] == ChannelUnreadState::Unread);
    }
    if longer.contains(ChannelUnreadState::Unread) && one != ChannelUnreadState::Unread {
        let i = choose|i: int| 0 <= i < longer.len() && longer[i] == ChannelUnreadState::Unread;
        assert(states[i] == ChannelUnreadState::Unread);
    }
    if one == ChannelUnreadState::Unread {
        assert(longer[longer.len() - 1] == ChannelUnreadState::Unread);
    }
    assert(!Seq::<ChannelUnreadState>::empty().contains(ChannelUnreadState::Unread));
}

/// What keeps a channel's news out of the sidebar.
pub open spec fn kept_from_sidebar(state: StateView, channel_id: ChannelId, now: Now) -> bool {
    ||| !state.channel_notification_eligible(channel_id, now.unix_millis)
    ||| !state.channel_visible_in_notification_settings(channel_id, now.utc)
    ||| state.channel_notification_muted(channel_id, now.utc)
}

/// The sidebar shows what is unread in a channel that is no forum, and nothing of a channel that
/// may not notify, is hidden by the settings or is muted.
pub proof fn law_sidebar_shows_unread(state: StateView, channel_id: ChannelId, now: Now)
    ensures
        kept_from_sidebar(state, channel_id, now) ==> state.channel_sidebar_unread(
            channel_id,
            now,
        ) is Seen,
        !kept_from_sidebar(state, channel_id, now) && !(state.channels.contains_key(
            channel_id.value,
        ) && state.channels[channel_id.value].is_forum()) ==> state.channel_sidebar_unread(
            channel_id,
            now,
        ) == state.channel_unread(channel_id, now),
{
}

/// The inbox shows what is unread in a known channel, unless its whole scope is muted or the
/// sidebar shows nothing of it either.
pub proof fn law_inbox_shows_unread(state: StateView, channel_id: ChannelId, now: Now)
    ensures
        ({
            let channel = state.channels[channel_id.value];
            let known = state.channels.contains_key(channel_id.value);
            let scope = if !known || channel.guild_id is None {
                state.private_notification_settings
            } else {
                state.notification_settings.get(channel.guild_id->Some_0.value)
            };
            let scope_muted = scope is Some && scope->Some_0.muted_at(now.utc);
            state.channel_inbox_unread(channel_id, now) == if known && !scope_muted
                && !kept_from_sidebar(state, channel_id, now) {
                state.channel_unread(channel_id, now)
            } else {
                ChannelUnreadState::Seen
            }
        }),
{
}

/// The posts that a forum stands for are the known threads under it that may notify.
pub proof fn law_forum_posts(
    state: StateView,
    forum_id: ChannelId,
    post_id: ChannelId,
    now: Now,
)
    requires
        state.wf(),
        state.channels.contains_key(post_id.value),
    ensures
        state.forum_posts(forum_id, now).contains(state.channels[post_id.value]) <==> {
            &&& state.channels[post_id.value].is_thread()
            &&& state.channels[post_id.value].parent_id == Some(forum_id)
            &&& state.channel_notification_eligible(post_id, now.unix_millis)
        },
{
    let post = state.channels[post_id.value];
    law_channel_list_is_complete(state, post);
    lemma_filter_holds(
        state.channel_list(),
        |channel: ChannelView|
            channel.is_thread() && channel.parent_id == Some(forum_id)
                && state.channel_notification_eligible(channel.id, now.unix_millis),
        post,
    );
}

/// A thread under a known forum.
pub open spec fn is_forum_post(state: StateView, channel: ChannelView) -> bool {
    &&& channel.is_thread()
    &&& channel.parent_id is Some
    &&& state.channels.contains_key(channel.parent_id->Some_0.value)
    &&& state.channels[channel.parent_id->Some_0.value].is_forum()
}

/// A guild that is not muted shows together what the sidebar shows of its visible channels,
/// where forums stand for their posts.
pub proof fn law_guild_sidebar_shows_its_rows(state: StateView, guild_id: GuildId, now: Now)
    requires
        state.wf(),
        !state.guild_notification_muted(guild_id, now.utc),
    ensures
        state.guild_sidebar_unread(guild_id, now) == aggregated(
            state.viewable_channels_for_guild(Some(guild_id)).filter(
                |channel: ChannelView| !is_forum_post(state, channel),
            ).map_values(
                |channel: ChannelView| state.channel_sidebar_unread(channel.id, now),
            ),
        ),
{
    let list = state.viewable_channels_for_guild(Some(guild_id));
    let keep = |channel: ChannelView|
        channel.guild_id == Some(guild_id) && state.can_view_channel(channel);
    assert forall|i: int| 0 <= i < list.len() implies state.channel_is_forum_child_thread(
        (#[trigger] list[i]).id,
    ) == is_forum_post(state, list[i]) by {
        assert(list.contains(list[i]));
        lemma_filter_holds(state.channel_list(), keep, list[i]);
        law_channel_list_is_complete(state, list[i]);
    }
    lemma_filter_same(
        list,
        |channel: ChannelView| !state.channel_is_forum_child_thread(channel.id),
        |channel: ChannelView| !is_forum_post(state, channel),
    );
}

/// What is unread in a guild is what is unread in its visible channels, whatever is muted.
pub proof fn law_guild_unread_adds_its_channels(state: StateView, guild_id: GuildId, now: Now)
    ensures
        state.guild_unread(guild_id, now) == aggregated(
            state.viewable_channels_for_guild(Some(guild_id)).map_values(
                |channel: ChannelView| state.channel_unread(channel.id, now),
            ),
        ),
{
}

/// The private conversations that the inbox shows are counted one by one.
pub proof fn law_private_conversations_are_counted(state: StateView, now: Now)
    requires
        state.wf(),
    ensures
        state.direct_message_unread_count(now) == channel_ids(
            state,
            |channel: ChannelView|
                channel.guild_id is None && !(state.channel_inbox_unread(channel.id, now) is Seen),
        ).len(),
{
    let private = |channel: ChannelView| channel.guild_id == None::<GuildId>;
    let shown = |channel: ChannelView|
        state.channel_inbox_unread(channel.id, now) != ChannelUnreadState::Seen;
    let both = |channel: ChannelView|
        channel.guild_id is None && !(state.channel_inbox_unread(channel.id, now) is Seen);
    lemma_filter_twice(state.channel_list(), private, shown, both);
    lemma_channels_count(state, both);
}

/// The sidebar lists exactly the known channels of a scope that can be seen and that the settings
/// let show.
pub proof fn law_sidebar_lists(
    state: StateView,
    guild_id: Option<GuildId>,
    channel_id: ChannelId,
    now: UtcTime,
)
    requires
        state.wf(),
        state.channels.contains_key(channel_id.value),
    ensures
        ({
            let channel = state.channels[channel_id.value];
            state.sidebar_channels_for_guild(guild_id, now).contains(channel) <==> {
                &&& channel.guild_id == guild_id
                &&& state.can_view_channel(channel)
                &&& state.channel_visible_in_notification_settings(channel_id, now)
            }
        }),
{
    let channel = state.channels[channel_id.value];
    law_channel_list_is_complete(state, channel);
    lemma_filter_holds(
        state.channel_list(),
        |channel: ChannelView| channel.guild_id == guild_id && state.can_view_channel(channel),
        channel,
    );
    lemma_filter_holds(
        state.viewable_channels_for_guild(guild_id),
        |channel: ChannelView| state.channel_visible_in_notification_settings(channel.id, now),
        channel,
    );
}

} // verus!
