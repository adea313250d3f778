//! What decides how a message notifies.
use crate::clock::Now;
use crate::ids::{ChannelId, GuildId, RoleId};
use crate::message::MessageView;
use crate::notification::kind::{
    mentions_user, roles_overlap, MessageNotificationKind, SUPPRESS_NOTIFICATIONS_FLAG,
    USER_MENTION_ON_ALL_MESSAGES,
};
use crate::notification::settings::NotificationLevel;
use crate::state::{FriendStatus, StateView};
use vstd::prelude::*;

verus! {

/// The message is somebody else's, whom the current user neither blocked nor ignores, and it came
/// after the last message of its channel that was read.
pub open spec fn is_fresh(state: StateView, message: MessageView) -> bool {
    &&& state.current_user_id != Some(message.author_id)
    &&& state.relationships.contains_key(message.author_id.value) ==> {
        &&& state.relationships[message.author_id.value].status != FriendStatus::Blocked
        &&& !state.relationships[message.author_id.value].ignored
    }
    &&& state.read_states.contains_key(message.channel_id.value) ==> {
        let acked = state.read_states[message.channel_id.value].last_acked_message_id;
        acked is Some ==> acked->Some_0.value < message.message_id.value
    }
}

/// The message names the current user.
pub open spec fn names_current_user(state: StateView, message: MessageView) -> bool {
    exists|i: int|
        0 <= i < message.mentions.len() && Some((#[trigger] message.mentions[i]).user_id)
            == state.current_user_id
}

/// The message mentions a role that the current user has in the guild.
pub open spec fn mentions_own_role(state: StateView, guild_id: GuildId, message: MessageView) -> bool {
    &&& state.current_user_id is Some
    &&& state.current_user_roles.contains_key(guild_id.value)
    &&& exists|i: int, j: int|
        0 <= i < state.current_user_roles[guild_id.value].len() && 0 <= j
            < message.mention_roles.len() && (
        #[trigger] state.current_user_roles[guild_id.value][i]) == (
        #[trigger] message.mention_roles[j])
}

/// What a guild's settings say of mentions by everyone or by role.
pub open spec fn suppresses_everyone(state: StateView, guild_id: GuildId) -> bool {
    state.notification_settings.contains_key(guild_id.value)
        && state.notification_settings[guild_id.value].suppress_everyone
}

pub open spec fn suppresses_roles(state: StateView, guild_id: GuildId) -> bool {
    state.notification_settings.contains_key(guild_id.value)
        && state.notification_settings[guild_id.value].suppress_roles
}

/// The message mentions the current user in a way that the guild's settings let count.
pub open spec fn mentions_count(state: StateView, guild_id: GuildId, message: MessageView) -> bool {
    ||| names_current_user(state, message)
    ||| state.current_user_id is Some && message.mention_everyone && !suppresses_everyone(
        state,
        guild_id,
    )
    ||| mentions_own_role(state, guild_id, message) && !suppresses_roles(state, guild_id)
}

/// The thread, the channel with what it nests under, or the guild is muted.
pub open spec fn is_muted(state: StateView, guild_id: GuildId, channel_id: ChannelId, now: Now) -> bool {
    ||| state.thread_notification_muted(channel_id, now.utc)
    ||| state.guild_notification_muted(guild_id, now.utc)
    ||| state.notification_settings.contains_key(guild_id.value)
        && state.channel_notification_muted_in_settings(
        state.notification_settings[guild_id.value],
        channel_id,
        now.utc,
    )
}

/// The level of a channel in a guild: of its settings, else of the thread, else mentions only.
pub open spec fn level_in_guild(
    state: StateView,
    guild_id: GuildId,
    channel_id: ChannelId,
) -> NotificationLevel {
    if state.notification_settings.contains_key(guild_id.value) {
        state.channel_notification_level(
            state.notification_settings[guild_id.value],
            channel_id,
        )
    } else if state.thread_notification_level(channel_id) is Some {
        state.thread_notification_level(channel_id)->Some_0
    } else {
        NotificationLevel::OnlyMentions
    }
}

proof fn lemma_mentions(state: StateView, guild_id: GuildId, message: MessageView)
    ensures
        state.message_mentions_current_user(
            guild_id,
            message,
            suppresses_everyone(state, guild_id),
            suppresses_roles(state, guild_id),
        ) == mentions_count(state, guild_id, message),
{
    if let Some(user_id) = state.current_user_id {
        if names_current_user(state, message) {
            let i = choose|i: int|
                0 <= i < message.mentions.len() && Some((#[trigger] message.mentions[i]).user_id)
                    == state.current_user_id;
            assert(message.mentions[i].user_id == user_id);
        }
        if mentions_user(message.mentions, user_id) {
            let i = choose|i: int|
                0 <= i < message.mentions.len() && (#[trigger] message.mentions[i]).user_id
                    == user_id;
            assert(Some(message.mentions[i].user_id) == state.current_user_id);
        }
        if state.current_user_roles.contains_key(guild_id.value) {
            let roles = state.current_user_roles[guild_id.value];
            if roles_overlap(roles, message.mention_roles) {
                let i = choose|i: int|
                    0 <= i < roles.len() && message.mention_roles.contains(#[trigger] roles[i]);
                let j = choose|j: int|
                    0 <= j < message.mention_roles.len() && message.mention_roles[j] == roles[i];
                assert(roles[i] == message.mention_roles[j]);
                assert(mentions_own_role(state, guild_id, message));
            }
            if mentions_own_role(state, guild_id, message) {
                let (i, j) = choose|i: int, j: int|
                    0 <= i < roles.len() && 0 <= j < message.mention_roles.len() && (
                    #[trigger] state.current_user_roles[guild_id.value][i]) == (
                    #[trigger] message.mention_roles[j]);
                assert(message.mention_roles.contains(roles[i]));
            }
        }
    } else {
        assert(!names_current_user(state, message));
    }
}

/// In a guild that suppresses everyone, whether a message mentions everyone makes no difference;
/// where it suppresses roles, neither do the roles that it mentions.
pub proof fn law_suppressed_mentions_make_no_difference(
    state: StateView,
    guild_id: GuildId,
    message: MessageView,
    everyone: bool,
    roles: Seq<RoleId>,
    now: Now,
)
    requires
        message.guild_id == Some(guild_id),
    ensures
        suppresses_everyone(state, guild_id) ==> state.message_notification_kind(message, now)
            == state.message_notification_kind(
            MessageView { mention_everyone: everyone, ..message },
            now,
        ),
        suppresses_roles(state, guild_id) ==> state.message_notification_kind(message, now)
            == state.message_notification_kind(MessageView { mention_roles: roles, ..message }, now),
{
}

/// A fresh message of a guild is a mention exactly where it names the current user, mentions
/// everyone or mentions one of their roles there, as far as the guild's settings do not suppress
/// these. It is audible exactly where the channel may notify, nothing that it is in is muted, it
/// was not sent silently and the level lets anything through.
pub proof fn law_guild_mentions(
    state: StateView,
    guild_id: GuildId,
    message: MessageView,
    now: Now,
)
    requires
        message.guild_id == Some(guild_id),
        is_fresh(state, message),
    ensures
        state.message_notification_kind(message, now) is Mention <==> mentions_count(
            state,
            guild_id,
            message,
        ),
        mentions_count(state, guild_id, message) ==> (state.message_notification_kind(message, now)
            == (MessageNotificationKind::Mention { audible: true }) <==> {
            &&& state.channel_notification_eligible(message.channel_id, now.unix_millis)
            &&& !is_muted(state, guild_id, message.channel_id, now)
            &&& message.flags & 0x1000 == 0
            &&& level_in_guild(state, guild_id, message.channel_id) != NotificationLevel::NoMessages
        }),
{
    lemma_mentions(state, guild_id, message);
    lemma_flag_numbers();
}

/// Constants written with a shift, as numbers.
proof fn lemma_flag_numbers()
    ensures
        SUPPRESS_NOTIFICATIONS_FLAG == 0x1000,
        USER_MENTION_ON_ALL_MESSAGES == 0x20,
{
    assert(1u64 << 12 == 0x1000) by (bit_vector);
    assert(1u64 << 5 == 0x20) by (bit_vector);
}

/// A fresh message of a guild without a mention that counts notifies exactly where the channel
/// notifies for all messages, may notify, and is muted in no way; where the guild has settings,
/// not in voice and stage channels. Where the user counts all messages as mentions, it is one of
/// low importance; else it notifies, unless it was sent silently.
pub proof fn law_guild_messages_without_mention(
    state: StateView,
    guild_id: GuildId,
    message: MessageView,
    now: Now,
)
    requires
        message.guild_id == Some(guild_id),
        is_fresh(state, message),
        !mentions_count(state, guild_id, message),
    ensures
        ({
            let kind = state.message_notification_kind(message, now);
            let channel = state.channel(message.channel_id);
            let has_settings = state.notification_settings.contains_key(guild_id.value);
            let counts_all = has_settings && state.user_notification_flags & 0x20 != 0;
            let spoken = channel is Some && (channel->Some_0.is_voice()
                || channel->Some_0.is_stage());
            let wanted = {
                &&& level_in_guild(state, guild_id, message.channel_id)
                    == NotificationLevel::AllMessages
                &&& state.channel_notification_eligible(message.channel_id, now.unix_millis)
                &&& !is_muted(state, guild_id, message.channel_id, now)
                &&& !(has_settings && spoken)
            };
            &&& kind is LowImportanceMention <==> wanted && counts_all
            &&& kind is Notify <==> wanted && !counts_all && message.flags & 0x1000 == 0
            &&& !(kind is Mention)
        }),
{
    lemma_mentions(state, guild_id, message);
    lemma_flag_numbers();
}

/// Messages that are not fresh do nothing.
pub proof fn law_only_fresh_messages_notify(state: StateView, message: MessageView, now: Now)
    requires
        !is_fresh(state, message),
    ensures
        state.message_notification_kind(message, now) is Nothing,
{
}

/// The private settings mute the conversation.
pub open spec fn is_muted_privately(state: StateView, channel_id: ChannelId, now: Now) -> bool {
    &&& state.private_notification_settings is Some
    &&& {
        let settings = state.private_notification_settings->Some_0;
        ||| settings.muted_at(now.utc)
        ||| state.channel_notification_muted_in_settings(settings, channel_id, now.utc)
    }
}

/// A fresh message of a private conversation is a mention, unless it reports that somebody left,
/// or the conversation is muted and it does not name the current user. It is audible exactly
/// where nothing is muted, it was not sent silently, and the level lets it through: for mentions
/// only where it names the current user.
pub proof fn law_private_messages(state: StateView, message: MessageView, now: Now)
    requires
        message.guild_id is None,
        is_fresh(state, message),
    ensures
        ({
            let kind = state.message_notification_kind(message, now);
            let muted = is_muted_privately(state, message.channel_id, now);
            let level = if state.private_notification_settings is Some {
                state.channel_notification_level(
                    state.private_notification_settings->Some_0,
                    message.channel_id,
                )
            } else {
                NotificationLevel::AllMessages
            };
            let named = names_current_user(state, message);
            &&& kind is Mention || kind is Nothing
            &&& kind is Nothing <==> message.message_kind.code == 2 || (muted && !named)
            &&& kind is Mention ==> (kind == (MessageNotificationKind::Mention { audible: true })
                <==> {
                &&& !muted
                &&& message.flags & 0x1000 == 0
                &&& level == NotificationLevel::AllMessages || (named && level
                    != NotificationLevel::NoMessages)
            })
        }),
{
    lemma_mentions(state, GuildId { value: 0 }, message);
    lemma_flag_numbers();
    if let Some(user_id) = state.current_user_id {
        if names_current_user(state, message) {
            let i = choose|i: int|
                0 <= i < message.mentions.len() && Some((#[trigger] message.mentions[i]).user_id)
                    == state.current_user_id;
            assert(message.mentions[i].user_id == user_id);
        }
        if mentions_user(message.mentions, user_id) {
            let i = choose|i: int|
                0 <= i < message.mentions.len() && (#[trigger] message.mentions[i]).user_id
                    == user_id;
            assert(Some(message.mentions[i].user_id) == state.current_user_id);
        }
    }
}

/// A new message is heard exactly where it notifies or is an audible mention; without a guild of
/// its own it is judged as a message of its channel's guild. No other event is heard.
pub proof fn law_heard_events(state: StateView, message: MessageView, now: Now)
    ensures
        ({
            let guild_id = if message.guild_id is Some {
                message.guild_id
            } else if state.channels.contains_key(message.channel_id.value) {
                state.channels[message.channel_id.value].guild_id
            } else {
                None
            };
            let kind = state.message_notification_kind(MessageView { guild_id, ..message }, now);
            state.event_triggers_notification(Some(message), now) <==> kind
                == MessageNotificationKind::Notify || kind == (MessageNotificationKind::Mention {
                audible: true,
            })
        }),
        !state.event_triggers_notification(None, now),
{
}

/// A known channel may notify exactly where it can be seen and, if it is a thread, is reported as
/// active, joined and still in the tree.
pub proof fn law_eligible_channels(state: StateView, channel_id: ChannelId, now_millis: u64)
    requires
        state.wf(),
        state.channels.contains_key(channel_id.value),
    ensures
        ({
            let channel = state.channels[channel_id.value];
            state.channel_notification_eligible(channel_id, now_millis) <==> {
                &&& state.can_view_channel(channel)
                &&& channel.is_thread() ==> {
                    &&& state.active_threads.contains(channel_id.value)
                    &&& state.thread_members.contains_key(channel_id.value)
                    &&& channel.shows_in_active_channel_tree_at(now_millis)
                }
            }
        }),
{
}

} // verus!
