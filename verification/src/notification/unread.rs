//! What is unread in a channel, a guild and the private conversations.
use crate::channel::{ChannelState, ChannelView};
use crate::channel_list::channel_views;
use crate::clock::{Now, UtcTime};
use crate::ids::{ChannelId, GuildId, MessageId};
use crate::message::{message_views, MessageView};
use crate::notification::kind::MessageNotificationKind;
use crate::ordered::lemma_filter_step;
use crate::state::{ChannelReadState, DiscordState, StateView};
use vstd::prelude::*;

verus! {

#[derive(Clone, Copy, Debug, PartialEq, Eq, Structural)]
pub enum ChannelUnreadState {
    Seen,
    Unread,
    Mentioned(u32),
    Notified(u32),
}

/// `count`, or the largest 32-bit value where it does not fit.
pub open spec fn capped_count(count: nat) -> u32 {
    if count <= u32::MAX {
        count as u32
    } else {
        u32::MAX
    }
}

pub fn saturating_u32_count(count: usize) -> (capped: u32)
    ensures
        capped == capped_count(count as nat),
{
    if count <= u32::MAX as usize {
        count as u32
    } else {
        u32::MAX
    }
}

/// The mentions in a list of unread states.
pub open spec fn total_mentions(states: Seq<ChannelUnreadState>) -> nat
    decreases states.len(),
{
    if states.len() == 0 {
        0
    } else {
        total_mentions(states.drop_last()) + match states.last() {
            ChannelUnreadState::Mentioned(count) => count as nat,
            _ => 0,
        }
    }
}

/// The notifications in a list of unread states.
pub open spec fn total_notifications(states: Seq<ChannelUnreadState>) -> nat
    decreases states.len(),
{
    if states.len() == 0 {
        0
    } else {
        total_notifications(states.drop_last()) + match states.last() {
            ChannelUnreadState::Notified(count) => count as nat,
            _ => 0,
        }
    }
}

/// Mentions win over notifications, and these over what is merely unread.
pub open spec fn aggregated(states: Seq<ChannelUnreadState>) -> ChannelUnreadState {
    if total_mentions(states) > 0 {
        ChannelUnreadState::Mentioned(capped_count(total_mentions(states)))
    } else if total_notifications(states) > 0 {
        ChannelUnreadState::Notified(capped_count(total_notifications(states)))
    } else if states.contains(ChannelUnreadState::Unread) {
        ChannelUnreadState::Unread
    } else {
        ChannelUnreadState::Seen
    }
}

/// One unread state for several channels.
pub fn aggregate_unread_states(states: &[ChannelUnreadState]) -> (aggregate: ChannelUnreadState)
    ensures
        aggregate == aggregated(states@),
{
    let mut mention_count: u32 = 0;
    let mut notification_count: u32 = 0;
    let mut has_unread = false;
    let mut i: usize = 0;
    while i < states.len()
        invariant
            i <= states.len(),
            mention_count == capped_count(total_mentions(states@.take(i as int))),
            notification_count == capped_count(total_notifications(states@.take(i as int))),
            has_unread == exists|j: int|
                0 <= j < i && #[trigger] states@[j] == ChannelUnreadState::Unread,
        decreases states.len() - i,
    {
        proof {
            assert(states@.take(i + 1).drop_last() =~= states@.take(i as int));
            assert(states@.take(i + 1).last() == states@[i as int]);
        }
        match states[i] {
            ChannelUnreadState::Mentioned(count) => {
                mention_count = mention_count.saturating_add(count);
            },
            ChannelUnreadState::Notified(count) => {
                notification_count = notification_count.saturating_add(count);
            },
            ChannelUnreadState::Unread => {
                has_unread = true;
            },
            ChannelUnreadState::Seen => {},
        }
        i += 1;
    }
    assert(states@.take(i as int) =~= states@);
    if mention_count > 0 {
        ChannelUnreadState::Mentioned(mention_count)
    } else if notification_count > 0 {
        ChannelUnreadState::Notified(notification_count)
    } else if has_unread {
        ChannelUnreadState::Unread
    } else {
        ChannelUnreadState::Seen
    }
}

impl StateView {
    pub open spec fn last_acked(self, channel_id: ChannelId) -> Option<MessageId> {
        match self.read_states.get(channel_id.value) {
            Some(read) => read.last_acked_message_id,
            None => None,
        }
    }

    /// The loaded messages of a channel after the last one that was read.
    pub open spec fn loaded_unread(self, channel_id: ChannelId) -> Seq<MessageView> {
        match self.timelines.get(channel_id.value) {
            Some(messages) => messages.filter(
                |message: MessageView| is_after(message, self.last_acked(channel_id)),
            ),
            None => Seq::empty(),
        }
    }

    /// The loaded unread messages that count as mentions.
    pub open spec fn loaded_mentions(self, channel_id: ChannelId, now: Now) -> nat {
        self.loaded_unread(channel_id).filter(
            |message: MessageView|
                self.message_notification_kind(message, now).spec_counts_as_mention(),
        ).len()
    }

    /// The loaded unread messages that notify without a mention.
    pub open spec fn loaded_notifications(self, channel_id: ChannelId, now: Now) -> nat {
        self.loaded_unread(channel_id).filter(
            |message: MessageView| self.message_notification_kind(message, now) is Notify,
        ).len()
    }

    /// The counts that the server keeps win over the loaded messages, and mentions over other
    /// notifications. Without either, a channel is unread where its latest message was not read.
    pub open spec fn channel_unread(self, channel_id: ChannelId, now: Now) -> ChannelUnreadState {
        let latest = match self.channel(channel_id) {
            Some(channel) => channel.last_message_id,
            None => None,
        };
        let (mentions, notifications) = match self.read_states.get(channel_id.value) {
            Some(read) => (read.mention_count, read.notification_count),
            None => (0, 0),
        };
        match latest {
            None => ChannelUnreadState::Seen,
            Some(latest) => if mentions > 0 {
                ChannelUnreadState::Mentioned(mentions)
            } else if notifications > 0 {
                ChannelUnreadState::Notified(notifications)
            } else if self.loaded_mentions(channel_id, now) > 0 {
                ChannelUnreadState::Mentioned(capped_count(self.loaded_mentions(channel_id, now)))
            } else if self.loaded_notifications(channel_id, now) > 0 {
                ChannelUnreadState::Notified(
                    capped_count(self.loaded_notifications(channel_id, now)),
                )
            } else {
                match self.last_acked(channel_id) {
                    Some(acked) => if acked.value < latest.value {
                        ChannelUnreadState::Unread
                    } else {
                        ChannelUnreadState::Seen
                    },
                    None => ChannelUnreadState::Unread,
                }
            },
        }
    }

    /// What the sidebar does not show as unread.
    pub open spec fn hides_unread(self, channel_id: ChannelId, now: Now) -> bool {
        ||| !self.channel_notification_eligible(channel_id, now.unix_millis)
        ||| !self.channel_visible_in_notification_settings(channel_id, now.utc)
        ||| self.channel_notification_muted(channel_id, now.utc)
    }

    /// The unread state of a channel by itself, as the sidebar shows it.
    pub open spec fn own_sidebar_unread(self, channel_id: ChannelId, now: Now) -> ChannelUnreadState {
        if self.hides_unread(channel_id, now) {
            ChannelUnreadState::Seen
        } else {
            self.channel_unread(channel_id, now)
        }
    }

    /// The posts of a forum that may notify.
    pub open spec fn forum_posts(self, channel_id: ChannelId, now: Now) -> Seq<ChannelView> {
        self.channel_list().filter(
            |channel: ChannelView|
                channel.is_thread() && channel.parent_id == Some(channel_id)
                    && self.channel_notification_eligible(channel.id, now.unix_millis),
        )
    }

    pub open spec fn is_known_forum(self, channel_id: ChannelId) -> bool {
        match self.channel(channel_id) {
            Some(channel) => channel.is_forum(),
            None => false,
        }
    }

    /// The unread state that the sidebar shows. A forum stands for itself and its posts.
    pub open spec fn channel_sidebar_unread(
        self,
        channel_id: ChannelId,
        now: Now,
    ) -> ChannelUnreadState {
        if self.hides_unread(channel_id, now) {
            ChannelUnreadState::Seen
        } else if self.is_known_forum(channel_id) {
            aggregated(
                seq![self.channel_unread(channel_id, now)] + self.forum_posts(
                    channel_id,
                    now,
                ).map_values(|post: ChannelView| self.own_sidebar_unread(post.id, now)),
            )
        } else {
            self.channel_unread(channel_id, now)
        }
    }

    pub open spec fn channel_is_forum_child_thread(self, channel_id: ChannelId) -> bool {
        match self.channel(channel_id) {
            Some(channel) => channel.is_thread() && match channel.parent_id {
                Some(parent_id) => self.is_known_forum(parent_id),
                None => false,
            },
            None => false,
        }
    }

    /// The visible channels of a guild that have a sidebar row of their own.
    pub open spec fn sidebar_rows(self, guild_id: GuildId) -> Seq<ChannelView> {
        self.viewable_channels_for_guild(Some(guild_id)).filter(
            |channel: ChannelView| !self.channel_is_forum_child_thread(channel.id),
        )
    }

    pub open spec fn guild_sidebar_unread(self, guild_id: GuildId, now: Now) -> ChannelUnreadState {
        if self.guild_notification_muted(guild_id, now.utc) {
            ChannelUnreadState::Seen
        } else {
            aggregated(
                self.sidebar_rows(guild_id).map_values(
                    |channel: ChannelView| self.channel_sidebar_unread(channel.id, now),
                ),
            )
        }
    }

    pub open spec fn guild_unread(self, guild_id: GuildId, now: Now) -> ChannelUnreadState {
        aggregated(
            self.viewable_channels_for_guild(Some(guild_id)).map_values(
                |channel: ChannelView| self.channel_unread(channel.id, now),
            ),
        )
    }

    /// The inbox leaves out what the sidebar leaves out, and muted scopes as a whole.
    pub open spec fn channel_inbox_unread(
        self,
        channel_id: ChannelId,
        now: Now,
    ) -> ChannelUnreadState {
        let scope_muted = match self.notification_settings_for_channel(channel_id) {
            Some(settings) => settings.muted_at(now.utc),
            None => false,
        };
        if self.channel(channel_id) is None || scope_muted || self.hides_unread(channel_id, now) {
            ChannelUnreadState::Seen
        } else {
            self.channel_unread(channel_id, now)
        }
    }

    pub open spec fn direct_message_unread_count(self, now: Now) -> nat {
        self.channels_for_guild(None).filter(
            |channel: ChannelView|
                self.channel_inbox_unread(channel.id, now) != ChannelUnreadState::Seen,
        ).len()
    }

    /// The visible channels that the settings let show in the sidebar.
    pub open spec fn sidebar_channels_for_guild(
        self,
        guild_id: Option<GuildId>,
        now: UtcTime,
    ) -> Seq<ChannelView> {
        self.viewable_channels_for_guild(guild_id).filter(
            |channel: ChannelView| self.channel_visible_in_notification_settings(channel.id, now),
        )
    }
}

/// Whether a message came after the last one that was read.
pub open spec fn is_after(message: MessageView, last_acked: Option<MessageId>) -> bool {
    match last_acked {
        Some(acked) => message.message_id.value > acked.value,
        None => true,
    }
}

impl DiscordState {
    fn loaded_unread_notification_counts(&self, channel_id: ChannelId, now: Now) -> (counts: (
        usize,
        usize,
    ))
        ensures
            counts.0 == self@.loaded_mentions(channel_id, now),
            counts.1 == self@.loaded_notifications(channel_id, now),
            counts.0 + counts.1 <= usize::MAX,
    {
        let timeline = match self.message_cache.timelines.get(&channel_id.value) {
            Some(timeline) => timeline,
            None => {
                proof {
                    reveal(Seq::filter);
                }
                return (0, 0);
            },
        };
        let last_acked = match self.notifications.read_states.get(&channel_id.value) {
            Some(read) => read.last_acked_message_id,
            None => None,
        };
        let messages = &timeline.messages;
        let ghost list = message_views(messages@);
        let ghost unread = |message: MessageView| is_after(message, last_acked);
        let ghost mention = |message: MessageView|
            self@.message_notification_kind(message, now).spec_counts_as_mention();
        let ghost notify = |message: MessageView|
            self@.message_notification_kind(message, now) is Notify;
        let mut mentions: usize = 0;
        let mut notifications: usize = 0;
        let mut i: usize = 0;
        proof {
            reveal(Seq::filter);
        }
        while i < messages.len()
            invariant
                i <= messages.len(),
                list == message_views(messages@),
                unread == (|message: MessageView| is_after(message, last_acked)),
                mention == (|message: MessageView|
                    self@.message_notification_kind(message, now).spec_counts_as_mention()),
                notify == (|message: MessageView|
                    self@.message_notification_kind(message, now) is Notify),
                mentions == list.take(i as int).filter(unread).filter(mention).len(),
                notifications == list.take(i as int).filter(unread).filter(notify).len(),
                mentions + notifications <= i,
            decreases messages.len() - i,
        {
            let message = &messages[i];
            let ghost before = list.take(i as int).filter(unread);
            proof {
                lemma_filter_step(list, unread, i as int);
                assert(list[i as int] == message@);
                if unread(message@) {
                    let after = before.push(message@);
                    lemma_filter_step(after, mention, before.len() as int);
                    lemma_filter_step(after, notify, before.len() as int);
                    assert(after.take(before.len() as int) =~= before);
                    assert(after.take(before.len() as int + 1) =~= after);
                }
            }
            let is_unread = match last_acked {
                Some(acked) => message.id.value > acked.value,
                None => true,
            };
            i += 1;
            if !is_unread {
                continue;
            }
            match self.message_state_notification_kind(message, now) {
                MessageNotificationKind::Mention { .. }
                | MessageNotificationKind::LowImportanceMention => {
                    mentions += 1;
                },
                MessageNotificationKind::Notify => {
                    notifications += 1;
                },
                MessageNotificationKind::Nothing => {},
            }
        }
        assert(list.take(i as int) =~= list);
        (mentions, notifications)
    }

    /// What is unread in a channel, for some reading of the clock.
    pub fn channel_unread(&self, channel_id: ChannelId) -> (unread: ChannelUnreadState)
        ensures
            exists|now: Now|
                now.utc.outside_leap_second() && unread == #[trigger] self@.channel_unread(
                    channel_id,
                    now,
                ),
    {
        let now = Now::read();
        self.channel_unread_at(channel_id, now)
    }

    /// What is unread in a channel at `now`.
    pub fn channel_unread_at(&self, channel_id: ChannelId, now: Now) -> (unread: ChannelUnreadState)
        ensures
            unread == self@.channel_unread(channel_id, now),
    {
        let latest = match self.channel(channel_id) {
            Some(channel) => channel.last_message_id,
            None => None,
        };
        let latest = match latest {
            Some(latest) => latest,
            None => return ChannelUnreadState::Seen,
        };
        let read = match self.notifications.read_states.get(&channel_id.value) {
            Some(read) => *read,
            None => ChannelReadState {
                last_acked_message_id: None,
                mention_count: 0,
                notification_count: 0,
            },
        };
        if read.mention_count > 0 {
            return ChannelUnreadState::Mentioned(read.mention_count);
        }
        if read.notification_count > 0 {
            return ChannelUnreadState::Notified(read.notification_count);
        }
        let (loaded_mentions, loaded_notifications) = self.loaded_unread_notification_counts(
            channel_id,
            now,
        );
        if loaded_mentions > 0 {
            return ChannelUnreadState::Mentioned(saturating_u32_count(loaded_mentions));
        }
        if loaded_notifications > 0 {
            return ChannelUnreadState::Notified(saturating_u32_count(loaded_notifications));
        }
        match read.last_acked_message_id {
            Some(acked) => if acked.value < latest.value {
                ChannelUnreadState::Unread
            } else {
                ChannelUnreadState::Seen
            },
            None => ChannelUnreadState::Unread,
        }
    }

    /// How many loaded unread messages notify, for some reading of the clock.
    pub fn channel_unread_message_count(&self, channel_id: ChannelId) -> (count: usize)
        ensures
            exists|now: Now|
                now.utc.outside_leap_second() && count == #[trigger] self@.loaded_mentions(
                    channel_id,
                    now,
                )
                    + self@.loaded_notifications(channel_id, now),
    {
        let now = Now::read();
        self.channel_unread_message_count_at(channel_id, now)
    }

    /// How many loaded unread messages notify at `now`.
    pub fn channel_unread_message_count_at(&self, channel_id: ChannelId, now: Now) -> (count: usize)
        ensures
            count == self@.loaded_mentions(channel_id, now) + self@.loaded_notifications(
                channel_id,
                now,
            ),
    {
        let (mentions, notifications) = self.loaded_unread_notification_counts(channel_id, now);
        mentions.saturating_add(notifications)
    }

    fn hides_unread(&self, channel_id: ChannelId, now: Now) -> (hides: bool)
        ensures
            hides == self@.hides_unread(channel_id, now),
    {
        !self.channel_notification_eligible_at(channel_id, now.unix_millis)
            || !self.channel_visible_in_notification_settings_at(channel_id, now.utc)
            || self.channel_notification_muted_at(channel_id, now.utc)
    }

    fn own_sidebar_unread(&self, channel_id: ChannelId, now: Now) -> (unread: ChannelUnreadState)
        ensures
            unread == self@.own_sidebar_unread(channel_id, now),
    {
        if self.hides_unread(channel_id, now) {
            ChannelUnreadState::Seen
        } else {
            self.channel_unread_at(channel_id, now)
        }
    }

    fn is_known_forum(&self, channel_id: ChannelId) -> (forum: bool)
        ensures
            forum == self@.is_known_forum(channel_id),
    {
        match self.channel(channel_id) {
            Some(channel) => channel.is_forum(),
            None => false,
        }
    }

    /// The unread state that the sidebar shows, for some reading of the clock.
    pub fn channel_sidebar_unread(&self, channel_id: ChannelId) -> (unread: ChannelUnreadState)
        ensures
            exists|now: Now|
                now.utc.outside_leap_second() && unread == #[trigger] self@.channel_sidebar_unread(
                    channel_id,
                    now,
                ),
    {
        let now = Now::read();
        self.channel_sidebar_unread_at(channel_id, now)
    }

    /// The unread state that the sidebar shows at `now`.
    pub fn channel_sidebar_unread_at(&self, channel_id: ChannelId, now: Now) -> (unread:
        ChannelUnreadState)
        ensures
            unread == self@.channel_sidebar_unread(channel_id, now),
    {
        if self.hides_unread(channel_id, now) {
            return ChannelUnreadState::Seen;
        }
        if !self.is_known_forum(channel_id) {
            return self.channel_unread_at(channel_id, now);
        }
        let all = self.channel_list();
        let ghost list = self@.channel_list();
        let ghost post = |channel: ChannelView|
            channel.is_thread() && channel.parent_id == Some(channel_id)
                && self@.channel_notification_eligible(channel.id, now.unix_millis);
        let ghost shown = |post: ChannelView| self@.own_sidebar_unread(post.id, now);
        let mut states: Vec<ChannelUnreadState> = Vec::new();
        states.push(self.channel_unread_at(channel_id, now));
        let ghost own = states@;
        let mut i: usize = 0;
        proof {
            reveal(Seq::filter);
            assert(states@ =~= own + list.take(0).filter(post).map_values(shown));
        }
        while i < all.len()
            invariant
                i <= all.len(),
                list == channel_views(all@),
                post == (|channel: ChannelView|
                    channel.is_thread() && channel.parent_id == Some(channel_id)
                        && self@.channel_notification_eligible(channel.id, now.unix_millis)),
                shown == (|post: ChannelView| self@.own_sidebar_unread(post.id, now)),
                states@ == own + list.take(i as int).filter(post).map_values(shown),
            decreases all.len() - i,
        {
            let channel = all[i];
            proof {
                lemma_filter_step(list, post, i as int);
                assert(list[i as int] == channel@);
            }
            if channel.is_thread() && channel.parent_id == Some(channel_id)
                && self.channel_notification_eligible_at(channel.id, now.unix_millis) {
                let ghost posts = list.take(i as int).filter(post);
                states.push(self.own_sidebar_unread(channel.id, now));
                assert(states@ =~= own + posts.push(channel@).map_values(shown));
            }
            i += 1;
        }
        proof {
            assert(list.take(i as int) =~= list);
            assert(own =~= seq![self@.channel_unread(channel_id, now)]);
        }
        aggregate_unread_states(states.as_slice())
    }

    pub fn channel_is_forum_child_thread(&self, channel_id: ChannelId) -> (child: bool)
        ensures
            child == self@.channel_is_forum_child_thread(channel_id),
    {
        match self.channel(channel_id) {
            Some(channel) => channel.is_thread() && match channel.parent_id {
                Some(parent_id) => self.is_known_forum(parent_id),
                None => false,
            },
            None => false,
        }
    }

    /// The unread state that the sidebar shows for a guild, for some reading of the clock.
    pub fn guild_sidebar_unread(&self, guild_id: GuildId) -> (unread: ChannelUnreadState)
        ensures
            exists|now: Now|
                now.utc.outside_leap_second() && unread == #[trigger] self@.guild_sidebar_unread(
                    guild_id,
                    now,
                ),
    {
        let now = Now::read();
        self.guild_sidebar_unread_at(guild_id, now)
    }

    /// The unread state that the sidebar shows for a guild at `now`.
    pub fn guild_sidebar_unread_at(&self, guild_id: GuildId, now: Now) -> (unread:
        ChannelUnreadState)
        ensures
            unread == self@.guild_sidebar_unread(guild_id, now),
    {
        if self.guild_notification_muted_at(guild_id, now.utc) {
            return ChannelUnreadState::Seen;
        }
        let all = self.viewable_channels_for_guild(Some(guild_id));
        let ghost list = self@.viewable_channels_for_guild(Some(guild_id));
        let ghost row = |channel: ChannelView| !self@.channel_is_forum_child_thread(channel.id);
        let ghost shown = |channel: ChannelView| self@.channel_sidebar_unread(channel.id, now);
        let mut states: Vec<ChannelUnreadState> = Vec::new();
        let mut i: usize = 0;
        proof {
            reveal(Seq::filter);
            assert(states@ =~= list.take(0).filter(row).map_values(shown));
        }
        while i < all.len()
            invariant
                i <= all.len(),
                list == channel_views(all@),
                row == (|channel: ChannelView| !self@.channel_is_forum_child_thread(channel.id)),
                shown == (|channel: ChannelView| self@.channel_sidebar_unread(channel.id, now)),
                states@ == list.take(i as int).filter(row).map_values(shown),
            decreases all.len() - i,
        {
            let channel = all[i];
            proof {
                lemma_filter_step(list, row, i as int);
                assert(list[i as int] == channel@);
            }
            if !self.channel_is_forum_child_thread(channel.id) {
                let ghost rows = list.take(i as int).filter(row);
                states.push(self.channel_sidebar_unread_at(channel.id, now));
                assert(states@ =~= rows.push(channel@).map_values(shown));
            }
            i += 1;
        }
        assert(list.take(i as int) =~= list);
        aggregate_unread_states(states.as_slice())
    }

    /// What is unread in the visible channels of a guild, for some reading of the clock.
    pub fn guild_unread(&self, guild_id: GuildId) -> (unread: ChannelUnreadState)
        ensures
            exists|now: Now|
                now.utc.outside_leap_second() && unread == #[trigger] self@.guild_unread(
                    guild_id,
                    now,
                ),
    {
        let now = Now::read();
        self.guild_unread_at(guild_id, now)
    }

    /// What is unread in the visible channels of a guild at `now`.
    pub fn guild_unread_at(&self, guild_id: GuildId, now: Now) -> (unread: ChannelUnreadState)
        ensures
            unread == self@.guild_unread(guild_id, now),
    {
        let all = self.viewable_channels_for_guild(Some(guild_id));
        let ghost list = self@.viewable_channels_for_guild(Some(guild_id));
        let mut states: Vec<ChannelUnreadState> = Vec::new();
        let mut i: usize = 0;
        while i < all.len()
            invariant
                i <= all.len(),
                list == channel_views(all@),
                states@.len() == i,
                forall|j: int|
                    0 <= j < i ==> #[trigger] states@[j] == self@.channel_unread(list[j].id, now),
            decreases all.len() - i,
        {
            assert(list[i as int] == all@[i as int]@);
            states.push(self.channel_unread_at(all[i].id, now));
            i += 1;
        }
        assert(states@ =~= list.map_values(
            |channel: ChannelView| self@.channel_unread(channel.id, now),
        ));
        aggregate_unread_states(states.as_slice())
    }

    /// What is unread in a channel, as the inbox shows it, for some reading of the clock.
    pub fn channel_inbox_unread(&self, channel_id: ChannelId) -> (unread: ChannelUnreadState)
        ensures
            exists|now: Now|
                now.utc.outside_leap_second() && unread == #[trigger] self@.channel_inbox_unread(
                    channel_id,
                    now,
                ),
    {
        let now = Now::read();
        self.channel_inbox_unread_at(channel_id, now)
    }

    /// What is unread in a channel, as the inbox shows it, at `now`. The inbox also applies the
    /// mute of the whole scope, which is not part of the effective channel mute.
    pub fn channel_inbox_unread_at(&self, channel_id: ChannelId, now: Now) -> (unread:
        ChannelUnreadState)
        ensures
            unread == self@.channel_inbox_unread(channel_id, now),
    {
        if self.channel(channel_id).is_none() {
            return ChannelUnreadState::Seen;
        }
        let scope_muted = match self.notification_settings_for_channel(channel_id) {
            Some(settings) => settings.muted_at(now.utc),
            None => false,
        };
        if scope_muted || self.hides_unread(channel_id, now) {
            ChannelUnreadState::Seen
        } else {
            self.channel_unread_at(channel_id, now)
        }
    }

    /// How many private conversations the inbox shows, for some reading of the clock.
    pub fn direct_message_unread_count(&self) -> (count: usize)
        ensures
            exists|now: Now|
                now.utc.outside_leap_second() && count == #[trigger] self@.direct_message_unread_count(now),
    {
        let now = Now::read();
        self.direct_message_unread_count_at(now)
    }

    /// How many private conversations the inbox shows at `now`.
    pub fn direct_message_unread_count_at(&self, now: Now) -> (count: usize)
        ensures
            count == self@.direct_message_unread_count(now),
    {
        let all = self.channels_for_guild(None);
        let ghost list = self@.channels_for_guild(None);
        let ghost shown = |channel: ChannelView|
            self@.channel_inbox_unread(channel.id, now) != ChannelUnreadState::Seen;
        let mut count: usize = 0;
        let mut i: usize = 0;
        proof {
            reveal(Seq::filter);
        }
        while i < all.len()
            invariant
                i <= all.len(),
                list == channel_views(all@),
                shown == (|channel: ChannelView|
                    self@.channel_inbox_unread(channel.id, now) != ChannelUnreadState::Seen),
                count == list.take(i as int).filter(shown).len(),
                count <= i,
            decreases all.len() - i,
        {
            proof {
                lemma_filter_step(list, shown, i as int);
                assert(list[i as int] == all@[i as int]@);
            }
            if self.channel_inbox_unread_at(all[i].id, now) != ChannelUnreadState::Seen {
                count += 1;
            }
            i += 1;
        }
        assert(list.take(i as int) =~= list);
        count
    }

    /// The channels shown in the main channel sidebar, for some reading of the clock. The
    /// settings can hide muted or unchosen channels there, and nothing else depends on them.
    pub fn sidebar_channels_for_guild(&self, guild_id: Option<GuildId>) -> (channels: Vec<
        &ChannelState,
    >)
        ensures
            exists|now: UtcTime|
                now.outside_leap_second() && channel_views(channels@)
                    == #[trigger] self@.sidebar_channels_for_guild(guild_id, now),
    {
        self.sidebar_channels_for_guild_at(guild_id, UtcTime::read())
    }

    /// The channels shown in the main channel sidebar at `now`.
    pub fn sidebar_channels_for_guild_at(&self, guild_id: Option<GuildId>, now: UtcTime) -> (channels:
        Vec<&ChannelState>)
        ensures
            channel_views(channels@) == self@.sidebar_channels_for_guild(guild_id, now),
    {
        let all = self.viewable_channels_for_guild(guild_id);
        let ghost list = self@.viewable_channels_for_guild(guild_id);
        let ghost keep = |channel: ChannelView|
            self@.channel_visible_in_notification_settings(channel.id, now);
        let mut channels: Vec<&ChannelState> = Vec::new();
        let mut i: usize = 0;
        proof {
            reveal(Seq::filter);
            assert(channel_views(channels@) =~= list.take(0).filter(keep));
        }
        while i < all.len()
            invariant
                i <= all.len(),
                list == channel_views(all@),
                keep == (|channel: ChannelView|
                    self@.channel_visible_in_notification_settings(channel.id, now)),
                channel_views(channels@) == list.take(i as int).filter(keep),
            decreases all.len() - i,
        {
            let channel = all[i];
            proof {
                lemma_filter_step(list, keep, i as int);
                assert(list[i as int] == channel@);
            }
            if self.channel_visible_in_notification_settings_at(channel.id, now) {
                let ghost shorter = channels@;
                channels.push(channel);
                assert(channel_views(channels@) =~= channel_views(shorter).push(channel@));
            }
            i += 1;
        }
        assert(list.take(i as int) =~= list);
        channels
    }
}

} // verus!
