//! What holds of channels and of the lists of them.
use crate::channel::{ChannelView, ACTIVE_CHANNELS_REMOVED, REQUIRE_TAG, THREAD_PINNED};
use crate::channel_update::later_message;
use crate::clock::{rfc3339_timestamp, Timestamp};
use crate::counting::{channel_ids, lemma_channels_count};
use crate::ids::{ChannelId, GuildId, MessageId};
use crate::ordered::{
    in_order, lemma_filter_divides, lemma_filter_holds, lemma_filter_same, lemma_in_order,
};
use crate::payload::VoiceScope;
use crate::state::StateView;
use vstd::prelude::*;

verus! {

/// A thread is none of the other kinds of channel.
pub proof fn law_thread_is_no_other_kind(channel: ChannelView)
    requires
        channel.is_thread(),
    ensures
        !channel.is_category(),
        !channel.is_forum(),
        !channel.is_voice(),
        !channel.is_stage(),
        !channel.is_dm_or_group_dm(),
        !channel.supports_voice_call(),
{
    lemma_kind_names();
}

/// A private thread is a thread.
pub proof fn law_private_thread_is_thread(channel: ChannelView)
    requires
        channel.is_private_thread(),
    ensures
        channel.is_thread(),
{
}

/// A private conversation is neither a category, a forum, a guild voice channel nor a stage, and
/// it supports a call.
pub proof fn law_private_conversation_is_no_guild_kind(channel: ChannelView)
    requires
        channel.is_dm_or_group_dm(),
    ensures
        !channel.is_thread(),
        !channel.is_category(),
        !channel.is_forum(),
        !channel.is_voice(),
        !channel.is_stage(),
        channel.supports_voice_call(),
{
    lemma_kind_names();
}

/// The sidebar tags only one-to-one conversations, and spam wins over a message request.
pub proof fn law_spam_wins_over_request(channel: ChannelView)
    ensures
        !channel.is_dm() ==> channel.dm_request_tag() is None,
        channel.is_dm() && channel.is_spam == Some(true) ==> channel.dm_request_tag() == Some(
            "spam"@,
        ),
        channel.dm_request_tag() == Some("request"@) ==> channel.is_message_request == Some(true)
            && channel.is_spam != Some(true),
{
    reveal_strlit("spam");
    reveal_strlit("request");
    assert("spam"@.len() != "request"@.len());
}

/// A thread that was archived or taken out of the tree does not show, whatever the time.
pub proof fn law_archived_thread_never_shows(
    channel: ChannelView,
    now_millis: u64,
    archive_change: Option<Timestamp>,
)
    requires
        channel.thread_archived() == Some(true) || channel.removed_from_active_channels(),
    ensures
        !channel.shows_in_active_channel_tree_given(now_millis, archive_change),
{
}

/// A pinned active thread stays in the tree for good.
pub proof fn law_pinned_thread_stays(
    channel: ChannelView,
    now_millis: u64,
    archive_change: Option<Timestamp>,
)
    requires
        channel.is_active_thread(),
        channel.thread_pinned() == Some(true),
    ensures
        channel.shows_in_active_channel_tree_given(now_millis, archive_change),
{
}

/// A thread that shows at some time showed at every earlier time: without new activity it leaves
/// the tree once and for all.
pub proof fn law_thread_leaves_tree_once(
    channel: ChannelView,
    earlier: u64,
    later: u64,
    archive_change: Option<Timestamp>,
)
    requires
        earlier <= later,
        channel.shows_in_active_channel_tree_given(later, archive_change),
    ensures
        channel.shows_in_active_channel_tree_given(earlier, archive_change),
{
}

/// A message that is newer than all activity so far never takes a thread out of the tree.
pub proof fn law_new_message_keeps_thread(
    channel: ChannelView,
    message_id: MessageId,
    now_millis: u64,
    archive_change: Option<Timestamp>,
)
    requires
        message_id.value >= channel.activity_snowflake(),
        channel.shows_in_active_channel_tree_given(now_millis, archive_change),
    ensures
        (ChannelView {
            last_message_id: later_message(channel.last_message_id, Some(message_id)),
            ..channel
        }).shows_in_active_channel_tree_given(now_millis, archive_change),
{
    let before = channel.activity_snowflake();
    let after = message_id.value;
    assert(after >= before ==> (after >> 22) >= (before >> 22)) by (bit_vector);
}

/// An unarchived thread that was not taken out of the tree.
pub open spec fn is_open_thread(channel: ChannelView) -> bool {
    &&& channel.is_thread()
    &&& channel.thread_metadata is Some ==> !channel.thread_metadata->Some_0.archived
    &&& channel.flags is Some ==> channel.flags->Some_0 & 4 == 0
}

/// The flags of a channel as numbers.
proof fn lemma_flag_numbers()
    ensures
        THREAD_PINNED == 2,
        ACTIVE_CHANNELS_REMOVED == 4,
        REQUIRE_TAG == 16,
{
    assert(1u64 << 1 == 2 && 1u64 << 2 == 4 && 1u64 << 4 == 16) by (bit_vector);
}

/// Whether `now_millis` lies in a window of `minutes` minutes after `start`, on a clock that ends
/// at its largest value.
pub open spec fn in_window(now_millis: u64, start: int, minutes: u64) -> bool {
    now_millis < start + minutes * 60_000 && now_millis < 0xffff_ffff_ffff_ffff
}

/// Only open threads show in the tree. A pinned one shows, and so does one without a window.
/// Others show exactly where the window after their latest message, or after they were made
/// without one, or the window after the last change of their archive state, has not ended:
/// recent activity of either kind is enough.
pub proof fn law_recent_activity_keeps_thread(
    channel: ChannelView,
    now_millis: u64,
    archive_change: Option<Timestamp>,
)
    ensures
        ({
            let shows = channel.shows_in_active_channel_tree_given(now_millis, archive_change);
            let pinned = channel.flags is Some && channel.flags->Some_0 & 2 != 0;
            let window = if channel.thread_metadata is Some {
                channel.thread_metadata->Some_0.auto_archive_duration
            } else {
                None
            };
            let newest = if channel.last_message_id is Some {
                channel.last_message_id->Some_0.value
            } else {
                channel.id.value
            };
            let made = newest / 0x40_0000 + 1_420_070_400_000;
            &&& !is_open_thread(channel) ==> !shows
            &&& is_open_thread(channel) && (pinned || window is None) ==> shows
            &&& is_open_thread(channel) && !pinned && window is Some ==> {
                let minutes = window->Some_0;
                &&& in_window(now_millis, made as int, minutes) ==> shows
                &&& archive_change is Some && archive_change->Some_0.millis >= 0 && in_window(
                    now_millis,
                    archive_change->Some_0.millis as int,
                    minutes,
                ) ==> shows
                &&& shows ==> in_window(now_millis, made as int, minutes) || (archive_change is Some
                    && archive_change->Some_0.millis >= 0 && in_window(
                    now_millis,
                    archive_change->Some_0.millis as int,
                    minutes,
                ))
            }
        }),
{
    lemma_flag_numbers();
    let newest = channel.activity_snowflake();
    assert(newest >> 22 == newest / 0x40_0000) by (bit_vector);
}

/// The tree goes by the archive timestamp of the thread's metadata.
pub proof fn law_tree_reads_archive_timestamp(channel: ChannelView, now_millis: u64)
    ensures
        channel.shows_in_active_channel_tree_at(now_millis)
            == channel.shows_in_active_channel_tree_given(
            now_millis,
            if channel.thread_metadata is Some
                && channel.thread_metadata->Some_0.archive_timestamp is Some {
                rfc3339_timestamp(channel.thread_metadata->Some_0.archive_timestamp->Some_0)
            } else {
                None
            },
        ),
{
}

/// What the metadata and the flags of a channel say is what is reported of it, bit by bit.
pub proof fn law_channel_reports_its_flags(channel: ChannelView)
    ensures
        channel.thread_metadata is Some ==> channel.thread_archived() == Some(
            channel.thread_metadata->Some_0.archived,
        ) && channel.thread_locked() == Some(channel.thread_metadata->Some_0.locked),
        channel.thread_metadata is None ==> channel.thread_archived() is None
            && channel.thread_locked() is None,
        channel.flags is Some ==> {
            let flags = channel.flags->Some_0;
            &&& channel.thread_pinned() == Some(flags & 2 != 0)
            &&& channel.removed_from_active_channels() == (flags & 4 != 0)
            &&& channel.requires_forum_tag() == (flags & 16 != 0)
        },
        channel.flags is None ==> channel.thread_pinned() is None
            && !channel.removed_from_active_channels() && !channel.requires_forum_tag(),
{
    lemma_flag_numbers();
    if let Some(flags) = channel.flags {
        assert(flags & 16 == 16 <==> flags & 16 != 0) by (bit_vector);
    }
}

/// A guild channel routes voice by its guild, and any other channel by itself.
pub proof fn law_voice_scope(channel: ChannelView, guild_id: GuildId)
    ensures
        channel.voice_scope() == VoiceScope::Guild(guild_id) <==> channel.guild_id == Some(
            guild_id,
        ),
        channel.voice_scope() == VoiceScope::Private(channel.id) <==> channel.guild_id is None,
{
}

/// A channel is of at most one kind among category, forum, voice and stage.
pub proof fn law_guild_kinds_are_disjoint(channel: ChannelView)
    ensures
        channel.is_category() ==> !channel.is_forum() && !channel.is_voice() && !channel.is_stage()
            && !channel.supports_voice_call(),
        channel.is_forum() ==> !channel.is_voice() && !channel.is_stage()
            && !channel.supports_voice_call(),
        channel.is_voice() ==> !channel.is_stage() && channel.supports_voice_call(),
        channel.is_stage() ==> !channel.supports_voice_call(),
        channel.is_dm() ==> channel.is_dm_or_group_dm(),
{
    lemma_kind_names();
}

/// Every kind goes by two names or more, one short and one as the server writes it, and by no
/// others.
pub proof fn law_names_of_kinds(channel: ChannelView)
    ensures
        channel.is_category() <==> seq!["category"@, "GuildCategory"@].contains(channel.kind),
        channel.is_forum() <==> seq!["forum"@, "media"@, "GuildForum"@].contains(channel.kind),
        channel.is_voice() <==> seq!["voice"@, "GuildVoice"@].contains(channel.kind),
        channel.is_stage() <==> seq!["stage"@, "GuildStageVoice"@].contains(channel.kind),
        channel.is_dm() <==> seq!["dm"@, "Private"@].contains(channel.kind),
        channel.is_dm_or_group_dm() <==> seq!["dm"@, "Private"@, "group-dm"@, "Group"@].contains(
            channel.kind,
        ),
        channel.is_private_thread() <==> seq!["private-thread"@, "GuildPrivateThread"@].contains(
            channel.kind,
        ),
        channel.is_thread() <==> channel.is_private_thread() || seq![
            "thread"@,
            "GuildPublicThread"@,
            "GuildNewsThread"@,
        ].contains(channel.kind),
        channel.supports_voice_call() <==> channel.is_voice() || channel.is_dm_or_group_dm(),
{
    let category = seq!["category"@, "GuildCategory"@];
    let forum = seq!["forum"@, "media"@, "GuildForum"@];
    let voice = seq!["voice"@, "GuildVoice"@];
    let stage = seq!["stage"@, "GuildStageVoice"@];
    let dm = seq!["dm"@, "Private"@];
    let private = seq!["dm"@, "Private"@, "group-dm"@, "Group"@];
    let hidden = seq!["private-thread"@, "GuildPrivateThread"@];
    let thread = seq!["thread"@, "GuildPublicThread"@, "GuildNewsThread"@];
    assert(category[0] == "category"@ && category[1] == "GuildCategory"@);
    assert(forum[0] == "forum"@ && forum[1] == "media"@ && forum[2] == "GuildForum"@);
    assert(voice[0] == "voice"@ && voice[1] == "GuildVoice"@);
    assert(stage[0] == "stage"@ && stage[1] == "GuildStageVoice"@);
    assert(dm[0] == "dm"@ && dm[1] == "Private"@);
    assert(private[0] == "dm"@ && private[1] == "Private"@ && private[2] == "group-dm"@);
    assert(private[3] == "Group"@);
    assert(hidden[0] == "private-thread"@ && hidden[1] == "GuildPrivateThread"@);
    assert(thread[0] == "thread"@ && thread[1] == "GuildPublicThread"@);
    assert(thread[2] == "GuildNewsThread"@);
}

/// What a channel's kind is depends on nothing but the name of the kind.
pub proof fn law_kind_is_by_name(a: ChannelView, b: ChannelView)
    requires
        a.kind == b.kind,
    ensures
        a.is_category() == b.is_category(),
        a.is_thread() == b.is_thread(),
        a.is_private_thread() == b.is_private_thread(),
        a.is_forum() == b.is_forum(),
        a.is_dm() == b.is_dm(),
        a.is_voice() == b.is_voice(),
        a.is_stage() == b.is_stage(),
        a.is_dm_or_group_dm() == b.is_dm_or_group_dm(),
{
}

/// A one-to-one conversation is tagged exactly where it was marked.
pub proof fn law_request_tags(channel: ChannelView)
    ensures
        channel.dm_request_tag() is Some <==> channel.is_dm() && (channel.is_spam == Some(true)
            || channel.is_message_request == Some(true)),
        channel.dm_request_tag() == Some("request"@) <==> channel.is_dm()
            && channel.is_message_request == Some(true) && channel.is_spam != Some(true),
{
    reveal_strlit("spam");
    reveal_strlit("request");
    assert("spam"@.len() != "request"@.len());
}

/// A channel of a guild is hidden exactly where its permissions hide it; a thread with a parent
/// is hidden where the parent is.
pub proof fn law_permissions_hide(state: StateView, channel: ChannelView)
    ensures
        channel.guild_id is None ==> state.can_view_channel(channel),
        channel.guild_id is Some && !channel.is_thread() ==> (state.can_view_channel(channel) <==>
            !state.hidden_channels.contains(channel.id.value)),
        channel.guild_id is Some && channel.is_thread() && channel.parent_id is Some ==> (
        state.can_view_channel(channel) <==> !state.hidden_channels.contains(
            channel.parent_id->Some_0.value,
        )),
        channel.guild_id is Some && channel.is_thread() && channel.parent_id is None ==> (
        state.can_view_channel(channel) <==> !state.hidden_channels.contains(channel.id.value)),
{
}

/// The channels of a scope are counted one by one: top-level ones that can be seen, and those
/// that cannot.
pub proof fn law_visibility_is_counted(state: StateView, guild_id: Option<GuildId>)
    requires
        state.wf(),
    ensures
        state.visible_channels(guild_id).len() == channel_ids(
            state,
            |channel: ChannelView|
                channel.guild_id == guild_id && !channel.is_thread() && state.can_view_channel(
                    channel,
                ),
        ).len(),
        state.hidden_from_view(guild_id).len() == channel_ids(
            state,
            |channel: ChannelView|
                channel.guild_id == guild_id && !channel.is_thread() && !state.can_view_channel(
                    channel,
                ),
        ).len(),
        state.channels_for_guild(guild_id).len() == channel_ids(
            state,
            |channel: ChannelView| channel.guild_id == guild_id,
        ).len(),
        state.viewable_channels_for_guild(guild_id).len() == channel_ids(
            state,
            |channel: ChannelView| channel.guild_id == guild_id && state.can_view_channel(channel),
        ).len(),
{
    lemma_channels_count(
        state,
        |channel: ChannelView|
            channel.guild_id == guild_id && !channel.is_thread() && state.can_view_channel(channel),
    );
    lemma_channels_count(
        state,
        |channel: ChannelView|
            channel.guild_id == guild_id && !channel.is_thread() && !state.can_view_channel(channel),
    );
    lemma_channels_count(state, |channel: ChannelView| channel.guild_id == guild_id);
    lemma_channels_count(
        state,
        |channel: ChannelView| channel.guild_id == guild_id && state.can_view_channel(channel),
    );
}

/// A thread has a sidebar row exactly where it was reported as active, the current user joined
/// it, and it is known and still in the tree.
pub proof fn law_sidebar_threads(state: StateView, channel_id: ChannelId, now_millis: u64)
    ensures
        state.thread_is_sidebar_active(channel_id, now_millis) <==> {
            &&& state.active_threads.contains(channel_id.value)
            &&& state.thread_members.contains_key(channel_id.value)
            &&& state.channels.contains_key(channel_id.value)
            &&& state.channels[channel_id.value].shows_in_active_channel_tree_at(now_millis)
        },
{
}

/// The list of channels holds each known channel, and no other.
pub proof fn law_channel_list_is_complete(state: StateView, channel: ChannelView)
    requires
        state.wf(),
    ensures
        state.channel_list().contains(channel) <==> state.channel(channel.id) == Some(channel),
{
    let keys = in_order(state.channels.dom());
    lemma_in_order(state.channels.dom());
    if state.channel_list().contains(channel) {
        let i = choose|i: int|
            0 <= i < state.channel_list().len() && state.channel_list()[i] == channel;
        assert(state.channels.dom().contains(keys[i]));
        assert(state.channels.contains_key(keys[i]));
    }
    if state.channel(channel.id) == Some(channel) {
        let key = channel.id.value;
        assert(state.channels.dom().contains(key));
        let i = choose|i: int| 0 <= i < keys.len() && keys[i] == key;
        assert(state.channel_list()[i] == channel);
    }
}

/// The lists of a scope hold exactly its known channels, and of these the viewable list exactly
/// those that the current user may see.
pub proof fn law_scope_lists(state: StateView, guild_id: Option<GuildId>, channel: ChannelView)
    requires
        state.wf(),
    ensures
        state.channels_for_guild(guild_id).contains(channel) <==> state.channel(channel.id) == Some(
            channel,
        ) && channel.guild_id == guild_id,
        state.viewable_channels_for_guild(guild_id).contains(channel) <==> state.channels_for_guild(
            guild_id,
        ).contains(channel) && state.can_view_channel(channel),
{
    law_channel_list_is_complete(state, channel);
    lemma_filter_holds(
        state.channel_list(),
        |channel: ChannelView| channel.guild_id == guild_id,
        channel,
    );
    lemma_filter_holds(
        state.channel_list(),
        |channel: ChannelView| channel.guild_id == guild_id && state.can_view_channel(channel),
        channel,
    );
}

/// The lists are in the order of the channel ids.
pub proof fn law_channel_list_is_ordered(state: StateView, i: int, j: int)
    requires
        state.wf(),
        0 <= i < j < state.channel_list().len(),
    ensures
        state.channel_list()[i].id.value < state.channel_list()[j].id.value,
{
    let keys = in_order(state.channels.dom());
    lemma_in_order(state.channels.dom());
    assert(state.channels.dom().contains(keys[i]) && state.channels.dom().contains(keys[j]));
    assert(state.channels.contains_key(keys[i]) && state.channels.contains_key(keys[j]));
}

/// Private conversations are never hidden: all of them are viewable, and the hidden count of
/// their scope is zero.
pub proof fn law_private_conversations_never_hidden(state: StateView)
    ensures
        state.viewable_channels_for_guild(None) == state.channels_for_guild(None),
        state.hidden_from_view(None).len() == 0,
{
    let list = state.channel_list();
    lemma_filter_same(
        list,
        |channel: ChannelView| channel.guild_id == None::<GuildId> && state.can_view_channel(channel),
        |channel: ChannelView| channel.guild_id == None::<GuildId>,
    );
    let hidden = |channel: ChannelView|
        channel.guild_id == None::<GuildId> && !channel.is_thread() && !state.can_view_channel(
            channel,
        );
    list.lemma_all_neg_filter_empty(hidden);
}

/// Every top-level channel of a scope is either counted as visible or as hidden.
pub proof fn law_visibility_counts_add_up(state: StateView, guild_id: Option<GuildId>)
    ensures
        state.visible_channels(guild_id).len() + state.hidden_from_view(guild_id).len()
            == state.channel_list().filter(
            |channel: ChannelView| channel.guild_id == guild_id && !channel.is_thread(),
        ).len(),
{
    lemma_filter_divides(
        state.channel_list(),
        |channel: ChannelView| channel.guild_id == guild_id && !channel.is_thread(),
        |channel: ChannelView|
            channel.guild_id == guild_id && !channel.is_thread() && state.can_view_channel(channel),
        |channel: ChannelView|
            channel.guild_id == guild_id && !channel.is_thread() && !state.can_view_channel(channel),
    );
}

/// A thread is visible exactly where its parent channel is.
pub proof fn law_thread_is_as_visible_as_parent(
    state: StateView,
    thread: ChannelView,
    parent: ChannelView,
)
    requires
        thread.is_thread(),
        !parent.is_thread(),
        thread.parent_id == Some(parent.id),
        thread.guild_id is Some,
        thread.guild_id == parent.guild_id,
    ensures
        state.can_view_channel(thread) == state.can_view_channel(parent),
{
}

/// The lengths of the names of the kinds, and a character that tells those of one length apart.
proof fn lemma_kind_names()
    ensures
        "thread"@.len() == 6,
        "GuildPublicThread"@.len() == 17,
        "GuildPrivateThread"@.len() == 18,
        "GuildNewsThread"@.len() == 15,
        "private-thread"@.len() == 14,
        "category"@.len() == 8,
        "GuildCategory"@.len() == 13,
        "forum"@.len() == 5,
        "media"@.len() == 5,
        "GuildForum"@.len() == 10,
        "dm"@.len() == 2,
        "Private"@.len() == 7,
        "group-dm"@.len() == 8,
        "Group"@.len() == 5,
        "voice"@.len() == 5,
        "GuildVoice"@.len() == 10,
        "stage"@.len() == 5,
        "GuildStageVoice"@.len() == 15,
        "GuildNewsThread"@[5] == 'N',
        "GuildStageVoice"@[5] == 'S',
        "category"@[0] == 'c',
        "group-dm"@[0] == 'g',
        "forum"@[0] == 'f',
        "media"@[0] == 'm',
        "Group"@[0] == 'G',
        "voice"@[0] == 'v',
        "stage"@[0] == 's',
        "GuildForum"@[5] == 'F',
        "GuildVoice"@[5] == 'V',
{
    reveal_strlit("thread");
    reveal_strlit("GuildPublicThread");
    reveal_strlit("GuildPrivateThread");
    reveal_strlit("GuildNewsThread");
    reveal_strlit("private-thread");
    reveal_strlit("category");
    reveal_strlit("GuildCategory");
    reveal_strlit("forum");
    reveal_strlit("media");
    reveal_strlit("GuildForum");
    reveal_strlit("dm");
    reveal_strlit("Private");
    reveal_strlit("group-dm");
    reveal_strlit("Group");
    reveal_strlit("voice");
    reveal_strlit("GuildVoice");
    reveal_strlit("stage");
    reveal_strlit("GuildStageVoice");
}

} // verus!
