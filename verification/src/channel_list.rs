//! Lists of the known channels.
use crate::channel::{ChannelState, ChannelView};
use crate::clock::read_unix_millis;
use crate::ids::{ChannelId, GuildId};
use crate::ordered::{in_order, keys_in_order, lemma_filter_step, lists_in_order};
use crate::state::{DiscordState, StateView};
use vstd::prelude::*;

verus! {

/// Counts of viewable and of permission-hidden channels for a single scope.
#[derive(Clone, Copy, Debug, PartialEq, Eq, Structural)]
pub struct ChannelVisibilityStats {
    pub visible: usize,
    pub hidden: usize,
}

impl Default for ChannelVisibilityStats {
    fn default() -> (stats: Self)
        ensures
            stats.visible == 0,
            stats.hidden == 0,
    {
        ChannelVisibilityStats { visible: 0, hidden: 0 }
    }
}

/// The views of a list of channels.
pub open spec fn channel_views(channels: Seq<&ChannelState>) -> Seq<ChannelView> {
    channels.map_values(|channel: &ChannelState| channel@)
}

impl StateView {
    /// All channels, in the order of their ids.
    pub open spec fn channel_list(self) -> Seq<ChannelView> {
        in_order(self.channels.dom()).map_values(|key: u64| self.channels[key])
    }

    pub open spec fn channels_for_guild(self, guild_id: Option<GuildId>) -> Seq<ChannelView> {
        self.channel_list().filter(|channel: ChannelView| channel.guild_id == guild_id)
    }

    pub open spec fn viewable_channels_for_guild(self, guild_id: Option<GuildId>) -> Seq<
        ChannelView,
    > {
        self.channel_list().filter(
            |channel: ChannelView| channel.guild_id == guild_id && self.can_view_channel(channel),
        )
    }

    /// The top-level channels of a scope that can be seen.
    pub open spec fn visible_channels(self, guild_id: Option<GuildId>) -> Seq<ChannelView> {
        self.channel_list().filter(
            |channel: ChannelView|
                channel.guild_id == guild_id && !channel.is_thread() && self.can_view_channel(
                    channel,
                ),
        )
    }

    /// The top-level channels of a scope that cannot be seen.
    pub open spec fn hidden_from_view(self, guild_id: Option<GuildId>) -> Seq<ChannelView> {
        self.channel_list().filter(
            |channel: ChannelView|
                channel.guild_id == guild_id && !channel.is_thread() && !self.can_view_channel(
                    channel,
                ),
        )
    }

    pub open spec fn thread_is_sidebar_active(self, channel_id: ChannelId, now_millis: u64) -> bool {
        &&& self.active_threads.contains(channel_id.value)
        &&& self.thread_members.contains_key(channel_id.value)
        &&& match self.channel(channel_id) {
            Some(channel) => channel.shows_in_active_channel_tree_at(now_millis),
            None => false,
        }
    }
}

impl DiscordState {
    /// All channels, in the order of their ids.
    pub fn channel_list(&self) -> (channels: Vec<&ChannelState>)
        ensures
            channel_views(channels@) == self@.channel_list(),
    {
        let keys = keys_in_order(&self.navigation.channels);
        let mut channels: Vec<&ChannelState> = Vec::new();
        let mut i: usize = 0;
        while i < keys.len()
            invariant
                i <= keys.len(),
                lists_in_order(keys@, self.navigation.channels@.dom()),
                channels@.len() == i,
                forall|j: int|
                    0 <= j < i ==> *(#[trigger] channels@[j])
                        == self.navigation.channels@[keys@[j]],
            decreases keys.len() - i,
        {
            if let Some(channel) = self.navigation.channels.get(&keys[i]) {
                channels.push(channel);
            }
            i += 1;
        }
        assert(self@.channels.dom() =~= self.navigation.channels@.dom());
        assert(channel_views(channels@) =~= self@.channel_list());
        channels
    }

    pub fn channels_for_guild(&self, guild_id: Option<GuildId>) -> (channels: Vec<&ChannelState>)
        ensures
            channel_views(channels@) == self@.channels_for_guild(guild_id),
    {
        let all = self.channel_list();
        let ghost list = self@.channel_list();
        let ghost keep = |channel: ChannelView| channel.guild_id == guild_id;
        let mut channels: Vec<&ChannelState> = Vec::new();
        let mut i: usize = 0;
        proof {
            reveal(Seq::filter);
            assert(channel_views(channels@) =~= list.take(0).filter(keep));
        }
        while i < all.len()
            invariant
                i <= all.len(),
                list == channel_views(all@),
                keep == (|channel: ChannelView| channel.guild_id == guild_id),
                channel_views(channels@) == list.take(i as int).filter(keep),
            decreases all.len() - i,
        {
            let channel = all[i];
            proof {
                lemma_filter_step(list, keep, i as int);
                assert(list[i as int] == channel@);
            }
            if channel.guild_id == guild_id {
                let ghost shorter = channels@;
                channels.push(channel);
                assert(channel_views(channels@) =~= channel_views(shorter).push(channel@));
            }
            i += 1;
        }
        assert(list.take(i as int) =~= list);
        channels
    }

    /// The channels of a scope without those that the current user cannot see. Private
    /// conversations always pass.
    pub fn viewable_channels_for_guild(&self, guild_id: Option<GuildId>) -> (channels: Vec<
        &ChannelState,
    >)
        ensures
            channel_views(channels@) == self@.viewable_channels_for_guild(guild_id),
    {
        let all = self.channel_list();
        let ghost list = self@.channel_list();
        let ghost keep = |channel: ChannelView|
            channel.guild_id == guild_id && self@.can_view_channel(channel);
        let mut channels: Vec<&ChannelState> = Vec::new();
        let mut i: usize = 0;
        proof {
            reveal(Seq::filter);
            assert(channel_views(channels@) =~= list.take(0).filter(keep));
        }
        while i < all.len()
            invariant
                i <= all.len(),
                list == channel_views(all@),
                keep == (|channel: ChannelView|
                    channel.guild_id == guild_id && self@.can_view_channel(channel)),
                channel_views(channels@) == list.take(i as int).filter(keep),
            decreases all.len() - i,
        {
            let channel = all[i];
            proof {
                lemma_filter_step(list, keep, i as int);
                assert(list[i as int] == channel@);
            }
            if channel.guild_id == guild_id && self.can_view_channel(channel) {
                let ghost shorter = channels@;
                channels.push(channel);
                assert(channel_views(channels@) =~= channel_views(shorter).push(channel@));
            }
            i += 1;
        }
        assert(list.take(i as int) =~= list);
        channels
    }

    /// How many channels of a scope can be seen and how many are hidden. Private conversations
    /// are never hidden. Threads are left out of both counts, so that they describe access to
    /// top-level channels.
    pub fn channel_visibility_stats(&self, guild_id: Option<GuildId>) -> (stats:
        ChannelVisibilityStats)
        ensures
            stats.visible == self@.visible_channels(guild_id).len(),
            stats.hidden == self@.hidden_from_view(guild_id).len(),
    {
        let all = self.channel_list();
        let ghost list = self@.channel_list();
        let ghost seen = |channel: ChannelView|
            channel.guild_id == guild_id && !channel.is_thread() && self@.can_view_channel(channel);
        let ghost unseen = |channel: ChannelView|
            channel.guild_id == guild_id && !channel.is_thread() && !self@.can_view_channel(
                channel,
            );
        let mut visible: usize = 0;
        let mut hidden: usize = 0;
        let mut i: usize = 0;
        proof {
            reveal(Seq::filter);
        }
        while i < all.len()
            invariant
                i <= all.len(),
                list == channel_views(all@),
                seen == (|channel: ChannelView|
                    channel.guild_id == guild_id && !channel.is_thread() && self@.can_view_channel(
                        channel,
                    )),
                unseen == (|channel: ChannelView|
                    channel.guild_id == guild_id && !channel.is_thread() && !self@.can_view_channel(
                        channel,
                    )),
                visible == list.take(i as int).filter(seen).len(),
                hidden == list.take(i as int).filter(unseen).len(),
                visible + hidden <= i,
            decreases all.len() - i,
        {
            let channel = all[i];
            proof {
                lemma_filter_step(list, seen, i as int);
                lemma_filter_step(list, unseen, i as int);
                assert(list[i as int] == channel@);
            }
            i += 1;
            if channel.guild_id != guild_id || channel.is_thread() {
                continue;
            }
            if self.can_view_channel(channel) {
                visible += 1;
            } else {
                hidden += 1;
            }
        }
        assert(list.take(i as int) =~= list);
        ChannelVisibilityStats { visible, hidden }
    }

    /// Whether a joined thread belongs in the active channel tree.
    ///
    /// The separate indexes are filled from the reports of active threads and of the current
    /// user's memberships. Knowing a thread does not add a sidebar row by itself. The answer is
    /// the one for some reading of the clock.
    pub fn thread_is_sidebar_active(&self, channel_id: ChannelId) -> (active: bool)
        ensures
            exists|now_millis: u64|
                active == self@.thread_is_sidebar_active(channel_id, now_millis),
    {
        self.thread_is_sidebar_active_at(channel_id, read_unix_millis())
    }

    /// Whether a joined thread belongs in the active channel tree at `now_millis`.
    pub fn thread_is_sidebar_active_at(&self, channel_id: ChannelId, now_millis: u64) -> (active:
        bool)
        ensures
            active == self@.thread_is_sidebar_active(channel_id, now_millis),
    {
        self.threads.is_active(channel_id) && self.threads.current_user_member(channel_id).is_some()
            && match self.channel(channel_id) {
            Some(channel) => channel.shows_in_active_channel_tree_at(now_millis),
            None => false,
        }
    }
}

} // verus!
