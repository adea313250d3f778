//! What holds of changes to the known channels.
use crate::channel::{spec_is_thread_kind, ChannelView};
use crate::channel_update::previous_recipient;
use crate::ids::{ChannelId, MessageId, UserId};
use crate::payload::{ChannelInfoView, PresenceStatus, RecipientInfoView};
use crate::recipient::{display_names, find_recipient, RecipientView};
use crate::state::StateView;
use crate::text::comma_joined;
use vstd::prelude::*;

verus! {

/// A partial payload cannot take back what an earlier one said: thread metadata, flags, limits
/// and the request and spam marks that it leaves out stay.
pub proof fn law_partial_payload_keeps_explicit_values(state: StateView, info: ChannelInfoView)
    requires
        state.channel(info.channel_id) is Some,
    ensures
        ({
            let before = state.channel(info.channel_id)->Some_0;
            let after = state.merged_channel(info);
            &&& info.thread_metadata is None ==> after.thread_metadata == before.thread_metadata
            &&& info.flags is None ==> after.flags == before.flags
            &&& info.user_limit is None ==> after.user_limit == before.user_limit
            &&& info.rate_limit_per_user is None ==> after.rate_limit_per_user
                == before.rate_limit_per_user
            &&& info.is_message_request is None ==> after.is_message_request
                == before.is_message_request
            &&& info.is_spam is None ==> after.is_spam == before.is_spam
            &&& info.recipients is None ==> after.recipients == before.recipients
        }),
{
}

/// A payload that leaves the thread metadata and the flags out cannot revive a thread that was
/// archived or taken out of the active tree.
pub proof fn law_partial_payload_cannot_revive_thread(state: StateView, info: ChannelInfoView)
    requires
        state.channel(info.channel_id) is Some,
        !state.channel(info.channel_id)->Some_0.is_active_thread(),
        state.channel(info.channel_id)->Some_0.is_thread(),
        info.thread_metadata is None,
        info.flags is None,
    ensures
        !state.merged_channel(info).is_active_thread(),
{
}

/// A payload that leaves the marks out cannot unlock a request or spam conversation.
pub proof fn law_partial_payload_cannot_unlock_request(state: StateView, info: ChannelInfoView)
    requires
        state.channel(info.channel_id) is Some,
        info.kind == state.channel(info.channel_id)->Some_0.kind,
        info.is_message_request is None,
        info.is_spam is None,
    ensures
        state.merged_channel(info).dm_request_tag() == state.channel(
            info.channel_id,
        )->Some_0.dm_request_tag(),
{
}

/// The latest message of a channel never becomes an earlier one.
pub proof fn law_last_message_never_decreases(state: StateView, info: ChannelInfoView)
    requires
        state.channel(info.channel_id) is Some,
        state.channel(info.channel_id)->Some_0.last_message_id is Some,
    ensures
        state.merged_channel(info).last_message_id is Some,
        state.merged_channel(info).last_message_id->Some_0.value >= state.channel(
            info.channel_id,
        )->Some_0.last_message_id->Some_0.value,
{
}

/// Threads own no overwrites: a payload of a thread leaves what is known, which is nothing for
/// a new thread, and so it stays nothing. Payloads of other channels replace them.
pub proof fn law_threads_own_no_overwrites(state: StateView, info: ChannelInfoView)
    ensures
        spec_is_thread_kind(info.kind) && (state.channel(info.channel_id) is Some ==> state.channel(
            info.channel_id,
        )->Some_0.permission_overwrites.len() == 0) ==> state.merged_channel(
            info,
        ).permission_overwrites.len() == 0,
        spec_is_thread_kind(info.kind) && state.channel(info.channel_id) is None
            ==> state.merged_channel(info).permission_overwrites.len() == 0,
        spec_is_thread_kind(info.kind) && state.channel(info.channel_id) is Some
            ==> state.merged_channel(info).permission_overwrites == state.channel(
            info.channel_id,
        )->Some_0.permission_overwrites,
        !spec_is_thread_kind(info.kind) ==> state.merged_channel(info).permission_overwrites
            == info.permission_overwrites,
{
}

/// Once an account is known as a bot, no payload turns it back into a user.
pub proof fn law_bot_stays_bot(
    state: StateView,
    existing: Option<ChannelView>,
    recipient: RecipientInfoView,
)
    requires
        ({
            ||| previous_recipient(existing, recipient.user_id) is Some && previous_recipient(
                existing,
                recipient.user_id,
            )->Some_0.is_bot
            ||| state.ready_users.contains_key(recipient.user_id.value)
                && state.ready_users[recipient.user_id.value].is_bot
        }),
    ensures
        state.merged_recipient(existing, recipient).is_bot,
{
}

/// Taking over a payload changes one channel and nothing else.
pub proof fn law_upsert_changes_one_channel(
    state: StateView,
    info: ChannelInfoView,
    other: ChannelId,
)
    ensures
        ({
            let after = state.with_channel(info.channel_id, state.merged_channel(info));
            &&& after.channel(info.channel_id) == Some(state.merged_channel(info))
            &&& other != info.channel_id ==> after.channel(other) == state.channel(other)
            &&& after == StateView { channels: after.channels, ..state }
            &&& state.wf() ==> after.wf()
        }),
{
}

/// Knowing a thread adds no sidebar row: whatever a payload says, a thread that was not reported
/// as active, or that the current user did not join, is not in the active tree.
pub proof fn law_payload_adds_no_sidebar_row(
    state: StateView,
    info: ChannelInfoView,
    thread_id: ChannelId,
    now_millis: u64,
)
    requires
        !state.active_threads.contains(thread_id.value) || !state.thread_members.contains_key(
            thread_id.value,
        ),
    ensures
        !state.with_channel(
            info.channel_id,
            state.merged_channel(info),
        ).thread_is_sidebar_active(thread_id, now_millis),
{
}

/// No user occurs twice in a list of recipients.
pub open spec fn distinct_users(recipients: Seq<RecipientInfoView>) -> bool {
    forall|i: int, j: int|
        0 <= i < j < recipients.len() ==> (#[trigger] recipients[i]).user_id
            != (#[trigger] recipients[j]).user_id
}

/// In a list without repeated users each entry is found by its user.
proof fn lemma_find_distinct(recipients: Seq<RecipientView>, i: int)
    requires
        0 <= i < recipients.len(),
        forall|a: int, b: int|
            0 <= a < b < recipients.len() ==> (#[trigger] recipients[a]).user_id
                != (#[trigger] recipients[b]).user_id,
    ensures
        find_recipient(recipients, recipients[i].user_id) == Some(recipients[i]),
    decreases recipients.len(),
{
    if i > 0 {
        let rest = recipients.skip(1);
        assert(rest[i - 1] == recipients[i]);
        assert(recipients[0].user_id != recipients[i].user_id);
        assert forall|a: int, b: int| 0 <= a < b < rest.len() implies (#[trigger] rest[a]).user_id
            != (#[trigger] rest[b]).user_id by {
            assert(rest[a] == recipients[a + 1]);
            assert(rest[b] == recipients[b + 1]);
        }
        lemma_find_distinct(rest, i - 1);
    }
}

/// Taking over the same payload again changes nothing more.
pub proof fn law_upsert_is_idempotent(state: StateView, info: ChannelInfoView)
    requires
        info.recipients is Some ==> distinct_users(info.recipients->Some_0),
    ensures
        ({
            let once = state.with_channel(info.channel_id, state.merged_channel(info));
            once.merged_channel(info) == state.merged_channel(info)
        }),
{
    let before = state.channel(info.channel_id);
    let merged = state.merged_channel(info);
    let once = state.with_channel(info.channel_id, merged);
    let again = once.merged_channel(info);
    assert(once.channel(info.channel_id) == Some(merged));
    if let Some(recipients) = info.recipients {
        assert forall|i: int| 0 <= i < recipients.len() implies #[trigger] once.merged_recipient(
            Some(merged),
            recipients[i],
        ) == state.merged_recipient(before, recipients[i]) by {
            assert forall|a: int, b: int| 0 <= a < b < merged.recipients.len() implies (
            #[trigger] merged.recipients[a]).user_id != (#[trigger] merged.recipients[b]).user_id by {
                assert(merged.recipients[a].user_id == recipients[a].user_id);
                assert(merged.recipients[b].user_id == recipients[b].user_id);
            }
            lemma_find_distinct(merged.recipients, i);
            assert(merged.recipients[i] == state.merged_recipient(before, recipients[i]));
        }
        assert(again.recipients =~= merged.recipients);
    }
    assert(again.recipients == merged.recipients);
    assert(again.name == merged.name);
}

/// Of two recorded messages the later one counts, in whatever order they come.
pub proof fn law_recorded_messages_commute(
    state: StateView,
    channel_id: ChannelId,
    a: MessageId,
    b: MessageId,
)
    ensures
        state.with_message_recorded(channel_id, a).with_message_recorded(channel_id, b)
            == state.with_message_recorded(channel_id, b).with_message_recorded(channel_id, a),
        a.value <= b.value ==> state.with_message_recorded(channel_id, b).with_message_recorded(
            channel_id,
            a,
        ) == state.with_message_recorded(channel_id, b),
{
    let ab = state.with_message_recorded(channel_id, a).with_message_recorded(channel_id, b);
    let ba = state.with_message_recorded(channel_id, b).with_message_recorded(channel_id, a);
    let only_b = state.with_message_recorded(channel_id, b);
    assert(ab.channels =~= ba.channels);
    if a.value <= b.value {
        assert(ba.channels =~= only_b.channels);
    }
}

/// Recording an earlier message than the latest changes nothing.
pub proof fn law_earlier_message_changes_nothing(
    state: StateView,
    channel_id: ChannelId,
    message_id: MessageId,
)
    requires
        state.channel(channel_id) is Some ==> ({
            let latest = state.channel(channel_id)->Some_0.last_message_id;
            latest is Some && message_id.value <= latest->Some_0.value
        }),
    ensures
        state.with_message_recorded(channel_id, message_id) == state,
{
    assert(state.with_message_recorded(channel_id, message_id).channels =~= state.channels);
}

/// The last presence of a user counts.
pub proof fn law_last_presence_counts(
    channel: ChannelView,
    user_id: UserId,
    first: PresenceStatus,
    last: PresenceStatus,
)
    ensures
        channel.with_presence(user_id, first).with_presence(user_id, last)
            == channel.with_presence(user_id, last),
{
    assert(channel.with_presence(user_id, first).with_presence(user_id, last).recipients
        =~= channel.with_presence(user_id, last).recipients);
}

/// A loaded profile changes no guild channel and no conversation without its user.
pub proof fn law_profile_changes_only_its_conversations(
    channel: ChannelView,
    user_id: UserId,
    display_name: Seq<char>,
    username: Option<Seq<char>>,
    avatar_url: Option<Seq<char>>,
)
    requires
        channel.guild_id is Some || !channel.has_recipient(user_id),
    ensures
        channel.with_profile(user_id, display_name, username, avatar_url) == channel,
{
}

/// After a profile was loaded, a one-to-one conversation with its user is called what its
/// recipients are called, unless they are all nameless.
pub proof fn law_conversation_is_named_after_profile(
    channel: ChannelView,
    user_id: UserId,
    display_name: Seq<char>,
    username: Option<Seq<char>>,
    avatar_url: Option<Seq<char>>,
)
    requires
        channel.guild_id is None,
        channel.is_dm(),
        channel.has_recipient(user_id),
    ensures
        ({
            let after = channel.with_profile(user_id, display_name, username, avatar_url);
            let joined = comma_joined(display_names(after.recipients));
            joined.len() > 0 ==> after.name == joined
        }),
{
}

/// A profile without an avatar or a login handle leaves those that are known.
pub proof fn law_profile_keeps_known_details(
    recipient: RecipientView,
    user_id: UserId,
    display_name: Seq<char>,
)
    ensures
        recipient.with_profile(user_id, display_name, None, None).username == recipient.username,
        recipient.with_profile(user_id, display_name, None, None).avatar_url
            == recipient.avatar_url,
{
}

} // verus!
