//! What a channel payload changes, field by field.
use crate::channel::ChannelView;
use crate::channel_update::{counted, later_message};
use crate::ids::{ChannelId, MessageId, UserId};
use crate::payload::{ChannelInfoView, PresenceStatus, RecipientInfoView};
use crate::recipient::{find_recipient, RecipientView};
use crate::state::StateView;
use crate::text::{comma_joined, decimal};
use vstd::prelude::*;

verus! {

/// What a payload says explicitly counts, whatever was known: what always comes with a payload,
/// and what is there of the rest.
pub proof fn law_explicit_values_count(state: StateView, info: ChannelInfoView)
    ensures
        ({
            let after = state.merged_channel(info);
            &&& after.id == info.channel_id
            &&& after.guild_id == info.guild_id
            &&& after.parent_id == info.parent_id
            &&& after.owner_id == info.owner_id
            &&& after.position == info.position
            &&& after.kind == info.kind
            &&& after.message_count == info.message_count
            &&& after.member_count == info.member_count
            &&& after.total_message_sent == info.total_message_sent
            &&& after.available_tags == info.available_tags
            &&& after.applied_tags == info.applied_tags
            &&& info.thread_metadata is Some ==> after.thread_metadata == info.thread_metadata
            &&& info.flags is Some ==> after.flags == info.flags
            &&& info.user_limit is Some ==> after.user_limit == info.user_limit
            &&& info.rate_limit_per_user is Some ==> after.rate_limit_per_user
                == info.rate_limit_per_user
            &&& info.is_message_request is Some ==> after.is_message_request
                == info.is_message_request
            &&& info.is_spam is Some ==> after.is_spam == info.is_spam
        }),
{
}

/// Of a channel that is not known, what a payload leaves out is not known either.
pub proof fn law_new_channel_is_as_described(state: StateView, info: ChannelInfoView)
    requires
        !state.channels.contains_key(info.channel_id.value),
    ensures
        ({
            let after = state.merged_channel(info);
            &&& after.thread_metadata == info.thread_metadata
            &&& after.flags == info.flags
            &&& after.user_limit == info.user_limit
            &&& after.rate_limit_per_user == info.rate_limit_per_user
            &&& after.is_message_request == info.is_message_request
            &&& after.is_spam == info.is_spam
            &&& after.last_message_id == info.last_message_id
            &&& info.recipients is None ==> after.recipients.len() == 0
        }),
{
}

/// The later of two messages is one of them, and neither is later than it.
pub proof fn law_later_message(a: Option<MessageId>, b: Option<MessageId>)
    ensures
        later_message(a, b) == a || later_message(a, b) == b,
        a is Some ==> later_message(a, b) is Some && later_message(a, b)->Some_0.value
            >= a->Some_0.value,
        b is Some ==> later_message(a, b) is Some && later_message(a, b)->Some_0.value
            >= b->Some_0.value,
{
}

/// The latest message after a payload is the later one of what was known and what came.
pub proof fn law_merged_latest_message(state: StateView, info: ChannelInfoView)
    requires
        state.channels.contains_key(info.channel_id.value),
    ensures
        ({
            let before = state.channels[info.channel_id.value].last_message_id;
            let after = state.merged_channel(info).last_message_id;
            &&& after == before || after == info.last_message_id
            &&& before is Some ==> after is Some && after->Some_0.value >= before->Some_0.value
            &&& info.last_message_id is Some ==> after is Some && after->Some_0.value
                >= info.last_message_id->Some_0.value
        }),
{
}

/// The recipients after a payload that lists some are those, in order, one for one; without a
/// list they are those that were known.
pub proof fn law_merged_recipients(state: StateView, info: ChannelInfoView, i: int)
    ensures
        ({
            let after = state.merged_channel(info).recipients;
            &&& info.recipients is None && state.channels.contains_key(info.channel_id.value)
                ==> after == state.channels[info.channel_id.value].recipients
            &&& info.recipients is Some ==> after.len() == info.recipients->Some_0.len()
            &&& info.recipients is Some && 0 <= i < after.len() ==> after[i].user_id
                == info.recipients->Some_0[i].user_id
        }),
{
}

/// What is known of a user from a list of recipients: the first entry that is theirs.
pub proof fn law_first_recipient_counts(
    recipients: Seq<RecipientView>,
    user_id: UserId,
    i: int,
)
    requires
        0 <= i < recipients.len(),
        recipients[i].user_id == user_id,
        forall|j: int| 0 <= j < i ==> (#[trigger] recipients[j]).user_id != user_id,
    ensures
        find_recipient(recipients, user_id) == Some(recipients[i]),
    decreases recipients.len(),
{
    if i > 0 {
        assert(recipients[0].user_id != user_id);
        let rest = recipients.skip(1);
        assert(rest[i - 1] == recipients[i]);
        assert forall|j: int| 0 <= j < i - 1 implies (#[trigger] rest[j]).user_id != user_id by {
            assert(rest[j] == recipients[j + 1]);
        }
        law_first_recipient_counts(rest, user_id, i - 1);
    }
}

/// Nothing is known of a user who is not among the recipients.
pub proof fn law_stranger_is_not_found(recipients: Seq<RecipientView>, user_id: UserId)
    requires
        forall|j: int| 0 <= j < recipients.len() ==> (#[trigger] recipients[j]).user_id != user_id,
    ensures
        find_recipient(recipients, user_id) is None,
    decreases recipients.len(),
{
    if recipients.len() > 0 {
        assert(recipients[0].user_id != user_id);
        let rest = recipients.skip(1);
        assert forall|j: int| 0 <= j < rest.len() implies (#[trigger] rest[j]).user_id
            != user_id by {
            assert(rest[j] == recipients[j + 1]);
        }
        law_stranger_is_not_found(rest, user_id);
    }
}

/// The login handle, the avatar and the presence of a recipient are the payload's where it has
/// them. The handle and the avatar are else those that the session started with, else those known
/// before. The presence is else the one known before, else the one reported of the user. A bot is
/// whoever one of the sources calls one.
pub proof fn law_recipient_details(
    state: StateView,
    existing: Option<ChannelView>,
    info: RecipientInfoView,
)
    ensures
        ({
            let after = state.merged_recipient(existing, info);
            let ready = state.ready_users.contains_key(info.user_id.value);
            let started = state.ready_users[info.user_id.value];
            let before = if existing is Some {
                find_recipient(existing->Some_0.recipients, info.user_id)
            } else {
                None
            };
            &&& after.user_id == info.user_id
            &&& info.username is Some ==> after.username == info.username
            &&& info.username is None && ready && started.username is Some ==> after.username
                == started.username
            &&& info.username is None && (!ready || started.username is None) ==> after.username
                == if before is Some {
                before->Some_0.username
            } else {
                None
            }
            &&& info.avatar_url is Some ==> after.avatar_url == info.avatar_url
            &&& info.avatar_url is None && ready && started.avatar_url is Some ==> after.avatar_url
                == started.avatar_url
            &&& info.avatar_url is None && (!ready || started.avatar_url is None)
                ==> after.avatar_url == if before is Some {
                before->Some_0.avatar_url
            } else {
                None
            }
            &&& info.status is Some ==> after.status == info.status->Some_0
            &&& info.status is None && before is Some ==> after.status == before->Some_0.status
            &&& info.status is None && before is None ==> after.status
                == if state.presences.contains_key(info.user_id.value) {
                state.presences[info.user_id.value]
            } else {
                PresenceStatus::Unknown
            }
            &&& after.is_bot <==> info.is_bot || (ready && started.is_bot) || (before is Some
                && before->Some_0.is_bot)
        }),
{
}

/// A recipient is shown under the nickname that the current user gave them, else under the name
/// of the payload. A payload without any name falls back to the name that the session started
/// with, else to the one known before.
pub proof fn law_recipient_names(
    state: StateView,
    existing: Option<ChannelView>,
    info: RecipientInfoView,
)
    ensures
        ({
            let after = state.merged_recipient(existing, info).display_name;
            let related = state.relationships.contains_key(info.user_id.value);
            let nickname = state.relationships[info.user_id.value].nickname;
            let nicknamed = related && nickname is Some;
            let nameless = info.username is None && info.display_name == "unknown"@;
            let ready = state.ready_users.contains_key(info.user_id.value);
            let before = if existing is Some {
                find_recipient(existing->Some_0.recipients, info.user_id)
            } else {
                None
            };
            &&& nicknamed ==> after == nickname->Some_0
            &&& !nicknamed && !nameless ==> after == info.display_name
            &&& !nicknamed && nameless && ready ==> after
                == state.ready_users[info.user_id.value].display_name
            &&& !nicknamed && nameless && !ready && before is Some ==> after
                == before->Some_0.display_name
            &&& !nicknamed && nameless && !ready && before is None ==> after == "unknown"@
        }),
{
}

/// Somebody in a private conversation is shown under the nickname that the current user gave them,
/// else under the first name that there is.
pub proof fn law_private_display_names(
    state: StateView,
    user_id: UserId,
    display_name: Option<Seq<char>>,
    username: Option<Seq<char>>,
)
    ensures
        ({
            let shown = state.private_user_display_name(user_id, display_name, username);
            let nicknamed = state.relationships.contains_key(user_id.value)
                && state.relationships[user_id.value].nickname is Some;
            &&& nicknamed ==> shown == state.relationships[user_id.value].nickname->Some_0
            &&& !nicknamed && display_name is Some ==> shown == display_name->Some_0
            &&& !nicknamed && display_name is None && username is Some ==> shown
                == username->Some_0
            &&& !nicknamed && display_name is None && username is None ==> shown == "unknown"@
        }),
{
}

/// The name is one that nobody gave: the placeholder, or a list of these people. One-to-one
/// conversations never have another.
pub open spec fn is_automatic_name(
    kind: Seq<char>,
    name: Seq<char>,
    channel_id: ChannelId,
    people: Seq<Seq<char>>,
) -> bool {
    ||| kind == "dm"@
    ||| kind == "Private"@
    ||| name == "dm-"@ + decimal(channel_id.value as nat)
    ||| name == comma_joined(people)
}

/// A private conversation with an automatic name, in the payload or before it, is called after its
/// recipients. Guild channels, conversations without recipients, and those that were given a name
/// are called what the payload calls them.
pub proof fn law_merged_names(state: StateView, info: ChannelInfoView)
    ensures
        ({
            let after = state.merged_channel(info);
            let known = state.channels.contains_key(info.channel_id.value);
            let before = state.channels[info.channel_id.value];
            let listed = if info.recipients is Some {
                info.recipients->Some_0.map_values(
                    |recipient: RecipientInfoView| recipient.display_name,
                )
            } else {
                Seq::empty()
            };
            let automatic = is_automatic_name(info.kind, info.name, info.channel_id, listed) || (
            known && is_automatic_name(
                before.kind,
                before.name,
                before.id,
                before.recipients.map_values(|recipient: RecipientView| recipient.display_name),
            ));
            &&& info.guild_id is Some ==> after.name == info.name
            &&& after.recipients.len() == 0 ==> after.name == info.name
            &&& !automatic ==> after.name == info.name
            &&& automatic && info.guild_id is None && after.recipients.len() > 0 ==> after.name
                == comma_joined(
                after.recipients.map_values(|recipient: RecipientView| recipient.display_name),
            )
        }),
{
}

/// After its recipients changed, a private conversation with an automatic name is called after
/// them, or by its placeholder where they are nameless; others keep their name. Nothing else
/// changes.
pub proof fn law_renamed_conversations(channel: ChannelView, previous_names: Seq<Seq<char>>)
    ensures
        ({
            let after = channel.renamed_after(previous_names);
            let automatic = channel.guild_id is None && is_automatic_name(
                channel.kind,
                channel.name,
                channel.id,
                previous_names,
            );
            let joined = comma_joined(
                channel.recipients.map_values(|recipient: RecipientView| recipient.display_name),
            );
            &&& !automatic ==> after == channel
            &&& automatic ==> after == ChannelView {
                name: if joined.len() > 0 {
                    joined
                } else {
                    "dm-"@ + decimal(channel.id.value as nat)
                },
                ..channel
            }
        }),
{
}

/// One name is listed as it is, and two lists are joined by a comma and a space.
pub proof fn law_names_are_joined_by_commas(a: Seq<Seq<char>>, b: Seq<Seq<char>>)
    ensures
        comma_joined(Seq::empty()).len() == 0,
        a.len() == 1 ==> comma_joined(a) == a[0],
        a.len() > 0 && b.len() > 0 ==> comma_joined(a + b) == comma_joined(a) + seq![',', ' ']
            + comma_joined(b),
    decreases b.len(),
{
    reveal_strlit(", ");
    assert(", "@ =~= seq![',', ' ']);
    if a.len() > 0 && b.len() == 1 {
        assert((a + b).drop_last() =~= a);
        assert((a + b).last() == b[0]);
    } else if a.len() > 0 && b.len() > 1 {
        let rest = b.drop_last();
        law_names_are_joined_by_commas(a, rest);
        assert((a + b).drop_last() =~= a + rest);
        assert((a + b).last() == b.last());
        assert(comma_joined(a + b) =~= comma_joined(a) + seq![',', ' '] + comma_joined(b));
    }
}

/// The number that a run of decimal digits stands for.
pub open spec fn number_of(digits: Seq<char>) -> int
    decreases digits.len(),
{
    if digits.len() == 0 {
        0
    } else {
        number_of(digits.drop_last()) * 10 + (digits.last() as u32 - '0' as u32)
    }
}

/// The digits of a number stand for it, and start with a zero only for zero itself.
pub proof fn law_digits_stand_for_number(n: nat)
    ensures
        number_of(decimal(n)) == n,
        decimal(n).len() > 0,
        forall|i: int| 0 <= i < decimal(n).len() ==> '0' <= #[trigger] decimal(n)[i] <= '9',
        n > 0 ==> decimal(n)[0] != '0',
    decreases n,
{
    if n < 10 {
        assert(decimal(n).drop_last() =~= Seq::empty());
        assert(number_of(Seq::empty()) == 0);
    } else {
        law_digits_stand_for_number(n / 10);
        assert(decimal(n).drop_last() =~= decimal(n / 10));
        assert(decimal(n)[0] == decimal(n / 10)[0]);
    }
}

/// A counter that is known goes up by one, unless it is at its limit.
pub proof fn law_counters_go_up_by_one(count: Option<u64>)
    ensures
        count is None ==> counted(count) is None,
        count is Some && count->Some_0 < 0xffff_ffff_ffff_ffff ==> counted(count) is Some
            && counted(count)->Some_0 == count->Some_0 + 1,
        count == Some(0xffff_ffff_ffff_ffffu64) ==> counted(count) == count,
{
}

/// A new message of a thread counts in both of its counters, and changes nothing else; other
/// channels, and unknown ones, stay as they are.
pub proof fn law_thread_messages_are_counted(
    state: StateView,
    channel_id: ChannelId,
    other: ChannelId,
)
    ensures
        ({
            let after = state.with_thread_message_counted(channel_id);
            let known = state.channels.contains_key(channel_id.value);
            let channel = state.channels[channel_id.value];
            &&& after == StateView { channels: after.channels, ..state }
            &&& other != channel_id ==> after.channel(other) == state.channel(other)
            &&& !known || !channel.is_thread() ==> after == state
            &&& known && channel.is_thread() ==> after.channel(channel_id) == Some(
                (ChannelView {
                    message_count: counted(channel.message_count),
                    total_message_sent: counted(channel.total_message_sent),
                    ..channel
                }),
            )
        }),
{
}

/// The member count of a thread is set, and nothing else changes.
pub proof fn law_thread_members_are_set(
    state: StateView,
    channel_id: ChannelId,
    member_count: u64,
    other: ChannelId,
)
    ensures
        ({
            let after = state.with_thread_member_count(channel_id, member_count);
            let known = state.channels.contains_key(channel_id.value);
            let channel = state.channels[channel_id.value];
            &&& after == StateView { channels: after.channels, ..state }
            &&& other != channel_id ==> after.channel(other) == state.channel(other)
            &&& !known || !channel.is_thread() ==> after == state
            &&& known && channel.is_thread() ==> after.channel(channel_id) == Some(
                (ChannelView { member_count: Some(member_count), ..channel }),
            )
        }),
{
}

/// A recorded message is the channel's latest unless a later one is known, and nothing else
/// changes.
pub proof fn law_messages_are_recorded(
    state: StateView,
    channel_id: ChannelId,
    message_id: MessageId,
    other: ChannelId,
)
    ensures
        ({
            let after = state.with_message_recorded(channel_id, message_id);
            let known = state.channels.contains_key(channel_id.value);
            let channel = state.channels[channel_id.value];
            let later_known = channel.last_message_id is Some
                && channel.last_message_id->Some_0.value > message_id.value;
            &&& after == StateView { channels: after.channels, ..state }
            &&& other != channel_id ==> after.channel(other) == state.channel(other)
            &&& !known || later_known ==> after.channel(channel_id) == state.channel(channel_id)
            &&& known && !later_known ==> after.channel(channel_id) == Some(
                (ChannelView { last_message_id: Some(message_id), ..channel }),
            )
        }),
{
}

/// A loaded profile gives its user's entries the new display name, and the login handle and
/// avatar that it has; it changes nobody else's entry.
pub proof fn law_profiles_reach_their_user(
    recipient: RecipientView,
    user_id: UserId,
    display_name: Seq<char>,
    username: Option<Seq<char>>,
    avatar_url: Option<Seq<char>>,
)
    ensures
        ({
            let after = recipient.with_profile(user_id, display_name, username, avatar_url);
            &&& recipient.user_id != user_id ==> after == recipient
            &&& recipient.user_id == user_id ==> {
                &&& after.display_name == display_name
                &&& username is Some ==> after.username == username
                &&& username is None ==> after.username == recipient.username
                &&& avatar_url is Some ==> after.avatar_url == avatar_url
                &&& avatar_url is None ==> after.avatar_url == recipient.avatar_url
                &&& after.is_bot == recipient.is_bot
                &&& after.status == recipient.status
                &&& after.user_id == user_id
            }
        }),
{
}

/// A loaded profile reaches every entry of a private conversation, one for one, and changes no
/// more of the conversation than its entries and its name.
pub proof fn law_profiles_reach_conversations(
    channel: ChannelView,
    user_id: UserId,
    display_name: Seq<char>,
    username: Option<Seq<char>>,
    avatar_url: Option<Seq<char>>,
    i: int,
)
    requires
        channel.guild_id is None,
    ensures
        ({
            let after = channel.with_profile(user_id, display_name, username, avatar_url);
            &&& after.recipients.len() == channel.recipients.len()
            &&& 0 <= i < channel.recipients.len() ==> after.recipients[i]
                == channel.recipients[i].with_profile(user_id, display_name, username, avatar_url)
            &&& after == ChannelView { recipients: after.recipients, name: after.name, ..channel }
        }),
{
}

/// A presence reaches its user's entries in every channel, and nothing else changes.
pub proof fn law_presences_reach_their_user(
    channel: ChannelView,
    user_id: UserId,
    status: PresenceStatus,
    i: int,
)
    ensures
        ({
            let after = channel.with_presence(user_id, status);
            &&& after == ChannelView { recipients: after.recipients, ..channel }
            &&& after.recipients.len() == channel.recipients.len()
            &&& 0 <= i < channel.recipients.len() && channel.recipients[i].user_id == user_id
                ==> after.recipients[i] == RecipientView { status, ..channel.recipients[i] }
            &&& 0 <= i < channel.recipients.len() && channel.recipients[i].user_id != user_id
                ==> after.recipients[i] == channel.recipients[i]
        }),
{
}

/// A loaded profile and a reported presence reach every known channel, of guilds or not, and make
/// no channel known or unknown; nothing but channels changes.
pub proof fn law_users_are_updated_everywhere(
    state: StateView,
    user_id: UserId,
    display_name: Seq<char>,
    username: Option<Seq<char>>,
    avatar_url: Option<Seq<char>>,
    status: PresenceStatus,
    channel_id: ChannelId,
)
    ensures
        ({
            let loaded = state.with_profile_loaded(user_id, display_name, username, avatar_url);
            let reported = state.with_presence_reported(user_id, status);
            let known = state.channels.contains_key(channel_id.value);
            let channel = state.channels[channel_id.value];
            &&& known ==> loaded.channel(channel_id) == Some(
                channel.with_profile(user_id, display_name, username, avatar_url),
            )
            &&& known ==> reported.channel(channel_id) == Some(
                channel.with_presence(user_id, status),
            )
            &&& !known ==> loaded.channel(channel_id) is None && reported.channel(
                channel_id,
            ) is None
            &&& loaded == StateView { channels: loaded.channels, ..state }
            &&& reported == StateView { channels: reported.channels, ..state }
        }),
{
}

} // verus!
