//! Changes to the known channels.
use crate::channel::{is_thread_kind, spec_is_thread_kind, ChannelState, ChannelView};
use crate::ids::{ChannelId, MessageId, UserId};
use crate::ordered::{keys_in_order, lists_in_order};
use crate::payload::{
    recipient_info_views, ChannelInfo, ChannelInfoView, ChannelRecipientInfo, PresenceStatus,
    RecipientInfoView,
};
use crate::private_name::{
    name_follows_recipients, private_channel_name_follows_recipients,
    refresh_private_channel_name_from_recipients,
};
use crate::recipient::{
    display_names, find_recipient, info_username, joined_recipient_display_names,
    recipient_display_names, recipient_username, recipient_views, recipient_with_id,
    ChannelRecipientState, RecipientView,
};
use crate::state::{channel_map_view, DiscordState, NavigationState, StateView};
use crate::text::{borrowed, comma_joined, owned, same_text, str_view, text_views};
use crate::views::{first_of, ref_view};
use vstd::prelude::*;

verus! {

/// The later of two optional messages.
pub open spec fn later_message(a: Option<MessageId>, b: Option<MessageId>) -> Option<MessageId> {
    match (a, b) {
        (Some(x), Some(y)) => if x.value >= y.value {
            a
        } else {
            b
        },
        (Some(_), None) => a,
        (None, _) => b,
    }
}

fn later_message_id(a: Option<MessageId>, b: Option<MessageId>) -> (later: Option<MessageId>)
    ensures
        later == later_message(a, b),
{
    match (a, b) {
        (Some(x), Some(y)) => if x.value >= y.value {
            a
        } else {
            b
        },
        (Some(_), None) => a,
        (None, _) => b,
    }
}

/// What was known of a user in a channel that may not be known yet.
pub open spec fn previous_recipient(existing: Option<ChannelView>, user_id: UserId) -> Option<
    RecipientView,
> {
    match existing {
        Some(channel) => find_recipient(channel.recipients, user_id),
        None => None,
    }
}

impl StateView {
    /// The name that stands for a recipient without a nickname. A payload without any name
    /// falls back to what is known of the user.
    pub open spec fn fallback_display_name(
        self,
        recipient: RecipientInfoView,
        previous: Option<RecipientView>,
    ) -> Seq<char> {
        if recipient.username is None && recipient.display_name == "unknown"@ {
            match self.ready_users.get(recipient.user_id.value) {
                Some(user) => user.display_name,
                None => match previous {
                    Some(user) => user.display_name,
                    None => recipient.display_name,
                },
            }
        } else {
            recipient.display_name
        }
    }

    /// A recipient of a payload for a channel that was known as `existing`.
    pub open spec fn merged_recipient(
        self,
        existing: Option<ChannelView>,
        recipient: RecipientInfoView,
    ) -> RecipientView {
        let previous = previous_recipient(existing, recipient.user_id);
        let ready_user = self.ready_users.get(recipient.user_id.value);
        let username = first_of(
            first_of(recipient.username, info_username(ready_user)),
            recipient_username(previous),
        );
        RecipientView::from_info(
            recipient,
            previous,
            ready_user,
            self.presences.get(recipient.user_id.value),
            self.private_user_display_name(
                recipient.user_id,
                Some(self.fallback_display_name(recipient, previous)),
                username,
            ),
        )
    }

    /// The recipients of a payload, else those known before.
    pub open spec fn merged_recipients(
        self,
        existing: Option<ChannelView>,
        incoming: Option<Seq<RecipientInfoView>>,
    ) -> Seq<RecipientView> {
        match incoming {
            Some(recipients) => recipients.map_values(
                |recipient: RecipientInfoView| self.merged_recipient(existing, recipient),
            ),
            None => match existing {
                Some(channel) => channel.recipients,
                None => Seq::empty(),
            },
        }
    }

    /// The name of a channel after a payload: a private conversation whose name follows its
    /// recipients, in the payload or before it, lists them.
    pub open spec fn merged_name(self, channel: ChannelInfoView) -> Seq<char> {
        let existing = self.channel(channel.channel_id);
        let recipients = self.merged_recipients(existing, channel.recipients);
        let incoming_names = match channel.recipients {
            Some(recipients) => recipients.map_values(
                |recipient: RecipientInfoView| recipient.display_name,
            ),
            None => Seq::empty(),
        };
        let follows_before = match existing {
            Some(existing) => name_follows_recipients(
                existing.kind,
                existing.name,
                existing.id,
                display_names(existing.recipients),
            ),
            None => false,
        };
        if channel.guild_id is None && recipients.len() > 0 && (name_follows_recipients(
            channel.kind,
            channel.name,
            channel.channel_id,
            incoming_names,
        ) || follows_before) {
            comma_joined(display_names(recipients))
        } else {
            channel.name
        }
    }

    /// The channel that a payload describes, on top of what is known of it. What a partial
    /// payload leaves out keeps its last explicit value.
    pub open spec fn merged_channel(self, channel: ChannelInfoView) -> ChannelView {
        let existing = self.channel(channel.channel_id);
        ChannelView {
            id: channel.channel_id,
            guild_id: channel.guild_id,
            parent_id: channel.parent_id,
            owner_id: channel.owner_id,
            position: channel.position,
            last_message_id: match existing {
                Some(existing) => later_message(existing.last_message_id, channel.last_message_id),
                None => channel.last_message_id,
            },
            name: self.merged_name(channel),
            kind: channel.kind,
            message_count: channel.message_count,
            member_count: channel.member_count,
            user_limit: match existing {
                Some(existing) => first_of(channel.user_limit, existing.user_limit),
                None => channel.user_limit,
            },
            total_message_sent: channel.total_message_sent,
            thread_metadata: match existing {
                Some(existing) => first_of(channel.thread_metadata, existing.thread_metadata),
                None => channel.thread_metadata,
            },
            flags: match existing {
                Some(existing) => first_of(channel.flags, existing.flags),
                None => channel.flags,
            },
            rate_limit_per_user: match existing {
                Some(existing) => first_of(
                    channel.rate_limit_per_user,
                    existing.rate_limit_per_user,
                ),
                None => channel.rate_limit_per_user,
            },
            available_tags: channel.available_tags,
            applied_tags: channel.applied_tags,
            recipients: self.merged_recipients(existing, channel.recipients),
            permission_overwrites: if spec_is_thread_kind(channel.kind) {
                match existing {
                    Some(existing) => existing.permission_overwrites,
                    None => Seq::empty(),
                }
            } else {
                channel.permission_overwrites
            },
            is_message_request: match existing {
                Some(existing) => first_of(channel.is_message_request, existing.is_message_request),
                None => channel.is_message_request,
            },
            is_spam: match existing {
                Some(existing) => first_of(channel.is_spam, existing.is_spam),
                None => channel.is_spam,
            },
        }
    }

    /// The state with one channel replaced.
    pub open spec fn with_channel(self, channel_id: ChannelId, channel: ChannelView) -> StateView {
        StateView { channels: self.channels.insert(channel_id.value, channel), ..self }
    }
}

impl DiscordState {
    fn merged_recipient(
        &self,
        existing: Option<&ChannelState>,
        recipient: &ChannelRecipientInfo,
    ) -> (merged: ChannelRecipientState)
        ensures
            merged@ == self@.merged_recipient(ref_view(existing), recipient@),
    {
        let previous = match existing {
            Some(channel) => recipient_with_id(channel.recipients.as_slice(), recipient.user_id),
            None => None,
        };
        let ready_user = self.session.ready_users.get(&recipient.user_id.value);
        let known_status = match self.presence.user_presences.get(&recipient.user_id.value) {
            Some(status) => Some(*status),
            None => None,
        };
        let fallback_display_name = if recipient.username.is_none() && same_text(
            recipient.display_name.as_str(),
            "unknown",
        ) {
            match ready_user {
                Some(user) => user.display_name.as_str(),
                None => match previous {
                    Some(user) => user.display_name.as_str(),
                    None => recipient.display_name.as_str(),
                },
            }
        } else {
            recipient.display_name.as_str()
        };
        let mut username = borrowed(&recipient.username);
        if username.is_none() {
            if let Some(user) = ready_user {
                username = borrowed(&user.username);
            }
        }
        if username.is_none() {
            if let Some(user) = previous {
                username = borrowed(&user.username);
            }
        }
        let display_name = self.private_user_display_name(
            recipient.user_id,
            Some(fallback_display_name),
            username,
        );
        ChannelRecipientState::from_info(
            recipient,
            previous,
            ready_user,
            known_status,
            display_name,
        )
    }

    fn merged_recipients(
        &self,
        existing: Option<&ChannelState>,
        incoming: &Option<Vec<ChannelRecipientInfo>>,
    ) -> (merged: Vec<ChannelRecipientState>)
        ensures
            recipient_views(merged@) == self@.merged_recipients(
                ref_view(existing),
                match *incoming {
                    Some(recipients) => Some(recipient_info_views(recipients@)),
                    None => None,
                },
            ),
    {
        let mut merged: Vec<ChannelRecipientState> = Vec::new();
        match incoming {
            Some(recipients) => {
                let mut i: usize = 0;
                while i < recipients.len()
                    invariant
                        i <= recipients.len(),
                        merged@.len() == i,
                        forall|j: int|
                            0 <= j < i ==> (#[trigger] merged@[j])@ == self@.merged_recipient(
                                ref_view(existing),
                                recipients@[j]@,
                            ),
                    decreases recipients.len() - i,
                {
                    merged.push(self.merged_recipient(existing, &recipients[i]));
                    i += 1;
                }
                assert(recipient_views(merged@) =~= recipient_info_views(recipients@).map_values(
                    |recipient: RecipientInfoView| self@.merged_recipient(
                        ref_view(existing),
                        recipient,
                    ),
                ));
            },
            None => {
                if let Some(channel) = existing {
                    merged = channel.recipients.clone();
                    assert(recipient_views(merged@) =~= recipient_views(channel.recipients@));
                } else {
                    assert(recipient_views(merged@) =~= Seq::empty());
                }
            },
        }
        merged
    }

    /// Takes over a channel payload. What it leaves out keeps its last explicit value, so that
    /// an unrelated partial update cannot revive an archived thread or unlock a message
    /// request.
    pub fn upsert_channel(&mut self, channel: &ChannelInfo)
        ensures
            final(self)@ == old(self)@.with_channel(
                channel.channel_id,
                old(self)@.merged_channel(channel@),
            ),
            old(self)@.wf() ==> final(self)@.wf(),
    {
        let existing = self.navigation.channels.get(&channel.channel_id.value);
        let recipients = self.merged_recipients(existing, &channel.recipients);
        let incoming_recipient_names = incoming_names(&channel.recipients);
        let existing_name_follows_recipients = match existing {
            Some(existing) => private_channel_name_follows_recipients(
                existing.kind.as_str(),
                existing.name.as_str(),
                existing.id,
                recipient_display_names(existing.recipients.as_slice()).as_slice(),
            ),
            None => false,
        };
        let name = if channel.guild_id.is_none() && recipients.len() > 0 && (
        private_channel_name_follows_recipients(
            channel.kind.as_str(),
            channel.name.as_str(),
            channel.channel_id,
            incoming_recipient_names.as_slice(),
        ) || existing_name_follows_recipients) {
            joined_recipient_display_names(recipients.as_slice())
        } else {
            channel.name.clone()
        };

        // Threads do not own channel-level overwrites: the parent decides. For everything else
        // the newest payload counts, because an update always carries the full list.
        let permission_overwrites = if is_thread_kind(channel.kind.as_str()) {
            match existing {
                Some(existing) => existing.permission_overwrites.clone(),
                None => Vec::new(),
            }
        } else {
            channel.permission_overwrites.clone()
        };
        let mut last_message_id = channel.last_message_id;
        let mut user_limit = channel.user_limit;
        let mut thread_metadata = channel.thread_metadata.clone();
        let mut flags = channel.flags;
        let mut rate_limit_per_user = channel.rate_limit_per_user;
        let mut is_message_request = channel.is_message_request;
        let mut is_spam = channel.is_spam;
        if let Some(existing) = existing {
            last_message_id = later_message_id(existing.last_message_id, last_message_id);
            if user_limit.is_none() {
                user_limit = existing.user_limit;
            }
            if thread_metadata.is_none() {
                thread_metadata = existing.thread_metadata.clone();
            }
            if flags.is_none() {
                flags = existing.flags;
            }
            if rate_limit_per_user.is_none() {
                rate_limit_per_user = existing.rate_limit_per_user;
            }
            if is_message_request.is_none() {
                is_message_request = existing.is_message_request;
            }
            if is_spam.is_none() {
                is_spam = existing.is_spam;
            }
        }
        let state = ChannelState {
            id: channel.channel_id,
            guild_id: channel.guild_id,
            parent_id: channel.parent_id,
            owner_id: channel.owner_id,
            position: channel.position,
            last_message_id,
            name,
            kind: channel.kind.clone(),
            message_count: channel.message_count,
            member_count: channel.member_count,
            user_limit,
            total_message_sent: channel.total_message_sent,
            thread_metadata,
            flags,
            rate_limit_per_user,
            available_tags: channel.available_tags.clone(),
            applied_tags: channel.applied_tags.clone(),
            recipients,
            permission_overwrites,
            is_message_request,
            is_spam,
        };
        proof {
            let ghost expected = self@.merged_channel(channel@);
            assert(state@.available_tags =~= expected.available_tags);
            assert(state@.applied_tags =~= expected.applied_tags);
            assert(state@.permission_overwrites =~= expected.permission_overwrites);
            assert(state@.thread_metadata == expected.thread_metadata);
            assert(state@ == expected);
        }
        self.navigation.channels.insert(channel.channel_id.value, state);
        proof {
            assert(self@.channels =~= old(self)@.channels.insert(
                channel.channel_id.value,
                state@,
            ));
        }
    }
}

/// One more, unless the counter is at its limit.
pub open spec fn counted(count: Option<u64>) -> Option<u64> {
    match count {
        Some(count) => Some(
            if count < u64::MAX {
                (count + 1) as u64
            } else {
                count
            },
        ),
        None => None,
    }
}

fn count_one(count: Option<u64>) -> (more: Option<u64>)
    ensures
        more == counted(count),
{
    match count {
        Some(count) => Some(count.saturating_add(1)),
        None => None,
    }
}

impl RecipientView {
    /// The recipient after their profile was loaded, where they are the given user. A profile
    /// without an avatar leaves a known one.
    pub open spec fn with_profile(
        self,
        user_id: UserId,
        display_name: Seq<char>,
        username: Option<Seq<char>>,
        avatar_url: Option<Seq<char>>,
    ) -> RecipientView {
        if self.user_id == user_id {
            RecipientView {
                display_name,
                username: first_of(username, self.username),
                avatar_url: first_of(avatar_url, self.avatar_url),
                ..self
            }
        } else {
            self
        }
    }

    /// The recipient with a new presence, where they are the given user.
    pub open spec fn with_presence(self, user_id: UserId, status: PresenceStatus) -> RecipientView {
        if self.user_id == user_id {
            RecipientView { status, ..self }
        } else {
            self
        }
    }
}

impl ChannelView {
    /// Whether the user takes part in the conversation.
    pub open spec fn has_recipient(self, user_id: UserId) -> bool {
        exists|i: int|
            0 <= i < self.recipients.len() && (#[trigger] self.recipients[i]).user_id == user_id
    }

    /// The channel after a user's profile was loaded. Only private conversations with that user
    /// change: the user's entry, and the name where it follows the recipients.
    pub open spec fn with_profile(
        self,
        user_id: UserId,
        display_name: Seq<char>,
        username: Option<Seq<char>>,
        avatar_url: Option<Seq<char>>,
    ) -> ChannelView {
        if self.guild_id is Some || !self.has_recipient(user_id) {
            self
        } else {
            let recipients = self.recipients.map_values(
                |recipient: RecipientView| recipient.with_profile(
                    user_id,
                    display_name,
                    username,
                    avatar_url,
                ),
            );
            (ChannelView { recipients, ..self }).renamed_after(display_names(self.recipients))
        }
    }

    /// The channel with a user's new presence.
    pub open spec fn with_presence(self, user_id: UserId, status: PresenceStatus) -> ChannelView {
        ChannelView {
            recipients: self.recipients.map_values(
                |recipient: RecipientView| recipient.with_presence(user_id, status),
            ),
            ..self
        }
    }
}

impl ChannelState {
    fn apply_profile(
        &mut self,
        user_id: UserId,
        display_name: &str,
        username: Option<&str>,
        avatar_url: Option<&str>,
    )
        ensures
            final(self)@ == old(self)@.with_profile(
                user_id,
                display_name@,
                str_view(username),
                str_view(avatar_url),
            ),
    {
        if self.guild_id.is_some() {
            return;
        }
        let previous_names = recipient_display_names(self.recipients.as_slice());
        let ghost before = *self;
        let mut updated = false;
        let mut i: usize = 0;
        while i < self.recipients.len()
            invariant
                i <= self.recipients.len(),
                self.recipients@.len() == before.recipients@.len(),
                *self == (ChannelState { recipients: self.recipients, ..before }),
                forall|j: int|
                    0 <= j < i ==> (#[trigger] self.recipients@[j])@
                        == before.recipients@[j]@.with_profile(
                        user_id,
                        display_name@,
                        str_view(username),
                        str_view(avatar_url),
                    ),
                forall|j: int|
                    i <= j < self.recipients@.len() ==> (#[trigger] self.recipients@[j])
                        == before.recipients@[j],
                updated == exists|j: int|
                    0 <= j < i && (#[trigger] before@.recipients[j]).user_id == user_id,
            decreases self.recipients.len() - i,
        {
            assert(before@.recipients[i as int] == before.recipients@[i as int]@);
            if self.recipients[i].user_id == user_id {
                self.recipients[i].display_name = display_name.to_owned();
                if let Some(username) = username {
                    self.recipients[i].username = Some(username.to_owned());
                }
                if avatar_url.is_some() || self.recipients[i].avatar_url.is_none() {
                    self.recipients[i].avatar_url = owned(avatar_url);
                }
                updated = true;
            }
            i += 1;
        }
        proof {
            assert(updated == before@.has_recipient(user_id));
            let expected = before@.recipients.map_values(
                |recipient: RecipientView| recipient.with_profile(
                    user_id,
                    display_name@,
                    str_view(username),
                    str_view(avatar_url),
                ),
            );
            assert(self@.recipients =~= expected);
            if !updated {
                assert(self@.recipients =~= before@.recipients);
            }
        }
        if updated {
            refresh_private_channel_name_from_recipients(self, previous_names.as_slice());
        }
    }

    fn apply_presence(&mut self, user_id: UserId, status: PresenceStatus)
        ensures
            final(self)@ == old(self)@.with_presence(user_id, status),
    {
        let ghost before = *self;
        let mut i: usize = 0;
        while i < self.recipients.len()
            invariant
                i <= self.recipients.len(),
                self.recipients@.len() == before.recipients@.len(),
                *self == (ChannelState { recipients: self.recipients, ..before }),
                forall|j: int|
                    0 <= j < i ==> (#[trigger] self.recipients@[j])@
                        == before.recipients@[j]@.with_presence(user_id, status),
                forall|j: int|
                    i <= j < self.recipients@.len() ==> (#[trigger] self.recipients@[j])
                        == before.recipients@[j],
            decreases self.recipients.len() - i,
        {
            if self.recipients[i].user_id == user_id {
                self.recipients[i].status = status;
            }
            i += 1;
        }
        assert(self@.recipients =~= before@.with_presence(user_id, status).recipients);
    }
}

impl StateView {
    /// The state after a user's profile was loaded.
    pub open spec fn with_profile_loaded(
        self,
        user_id: UserId,
        display_name: Seq<char>,
        username: Option<Seq<char>>,
        avatar_url: Option<Seq<char>>,
    ) -> StateView {
        StateView {
            channels: self.channels.map_values(
                |channel: ChannelView| channel.with_profile(
                    user_id,
                    display_name,
                    username,
                    avatar_url,
                ),
            ),
            ..self
        }
    }

    /// The state after a user's presence was reported.
    pub open spec fn with_presence_reported(
        self,
        user_id: UserId,
        status: PresenceStatus,
    ) -> StateView {
        StateView {
            channels: self.channels.map_values(
                |channel: ChannelView| channel.with_presence(user_id, status),
            ),
            ..self
        }
    }

    pub open spec fn with_thread_member_count(
        self,
        channel_id: ChannelId,
        member_count: u64,
    ) -> StateView {
        match self.channel(channel_id) {
            Some(channel) => if channel.is_thread() {
                self.with_channel(
                    channel_id,
                    ChannelView { member_count: Some(member_count), ..channel },
                )
            } else {
                self
            },
            None => self,
        }
    }

    pub open spec fn with_message_recorded(
        self,
        channel_id: ChannelId,
        message_id: MessageId,
    ) -> StateView {
        match self.channel(channel_id) {
            Some(channel) => self.with_channel(
                channel_id,
                ChannelView {
                    last_message_id: later_message(channel.last_message_id, Some(message_id)),
                    ..channel
                },
            ),
            None => self,
        }
    }

    pub open spec fn with_thread_message_counted(self, channel_id: ChannelId) -> StateView {
        match self.channel(channel_id) {
            Some(channel) => if channel.is_thread() {
                self.with_channel(
                    channel_id,
                    ChannelView {
                        message_count: counted(channel.message_count),
                        total_message_sent: counted(channel.total_message_sent),
                        ..channel
                    },
                )
            } else {
                self
            },
            None => self,
        }
    }
}

impl DiscordState {
    /// Sets the member count of a thread. Other channels, and unknown ones, stay as they are.
    pub fn set_thread_member_count(&mut self, channel_id: ChannelId, member_count: u64)
        ensures
            final(self)@ == old(self)@.with_thread_member_count(channel_id, member_count),
            old(self)@.wf() ==> final(self)@.wf(),
    {
        if let Some(mut channel) = self.navigation.channels.remove(&channel_id.value) {
            if channel.is_thread() {
                channel.member_count = Some(member_count);
            }
            self.navigation.channels.insert(channel_id.value, channel);
        }
        assert(self@.channels =~= old(self)@.with_thread_member_count(
            channel_id,
            member_count,
        ).channels);
    }

    /// Takes over a loaded profile into the private conversations with its user.
    pub fn refresh_dm_channel_info_from_profile(
        &mut self,
        user_id: UserId,
        display_name: &str,
        username: Option<&str>,
        avatar_url: Option<&str>,
    )
        ensures
            final(self)@ == old(self)@.with_profile_loaded(
                user_id,
                display_name@,
                str_view(username),
                str_view(avatar_url),
            ),
            old(self)@.wf() ==> final(self)@.wf(),
    {
        let keys = keys_in_order(&self.navigation.channels);
        let ghost before = self.navigation.channels@;
        let ghost change = |channel: ChannelView|
            channel.with_profile(user_id, display_name@, str_view(username), str_view(avatar_url));
        let mut i: usize = 0;
        while i < keys.len()
            invariant
                i <= keys.len(),
                lists_in_order(keys@, before.dom()),
                changed_up_to(self.navigation.channels@, before, keys@, i as int, change),
                *self == (DiscordState {
                    navigation: NavigationState {
                        channels: self.navigation.channels,
                        ..old(self).navigation
                    },
                    ..*old(self)
                }),
                change == (|channel: ChannelView|
                    channel.with_profile(
                        user_id,
                        display_name@,
                        str_view(username),
                        str_view(avatar_url),
                    )),
            decreases keys.len() - i,
        {
            if let Some(mut channel) = self.navigation.channels.remove(&keys[i]) {
                channel.apply_profile(user_id, display_name, username, avatar_url);
                self.navigation.channels.insert(keys[i], channel);
            }
            i += 1;
        }
        proof {
            lemma_changed_all(self.navigation.channels@, before, keys@, change);
        }
    }

    /// Takes over a user's presence into every conversation that they are in.
    pub fn update_channel_recipient_presence(&mut self, user_id: UserId, status: PresenceStatus)
        ensures
            final(self)@ == old(self)@.with_presence_reported(user_id, status),
            old(self)@.wf() ==> final(self)@.wf(),
    {
        let keys = keys_in_order(&self.navigation.channels);
        let ghost before = self.navigation.channels@;
        let ghost change = |channel: ChannelView| channel.with_presence(user_id, status);
        let mut i: usize = 0;
        while i < keys.len()
            invariant
                i <= keys.len(),
                lists_in_order(keys@, before.dom()),
                changed_up_to(self.navigation.channels@, before, keys@, i as int, change),
                *self == (DiscordState {
                    navigation: NavigationState {
                        channels: self.navigation.channels,
                        ..old(self).navigation
                    },
                    ..*old(self)
                }),
                change == (|channel: ChannelView| channel.with_presence(user_id, status)),
            decreases keys.len() - i,
        {
            if let Some(mut channel) = self.navigation.channels.remove(&keys[i]) {
                channel.apply_presence(user_id, status);
                self.navigation.channels.insert(keys[i], channel);
            }
            i += 1;
        }
        proof {
            lemma_changed_all(self.navigation.channels@, before, keys@, change);
        }
    }

    /// Notes that a channel has the message. An earlier message than the latest changes nothing.
    pub fn record_channel_message_id(&mut self, channel_id: ChannelId, message_id: MessageId)
        ensures
            final(self)@ == old(self)@.with_message_recorded(channel_id, message_id),
            old(self)@.wf() ==> final(self)@.wf(),
    {
        if let Some(mut channel) = self.navigation.channels.remove(&channel_id.value) {
            channel.last_message_id = later_message_id(channel.last_message_id, Some(message_id));
            self.navigation.channels.insert(channel_id.value, channel);
        }
        assert(self@.channels =~= old(self)@.with_message_recorded(
            channel_id,
            message_id,
        ).channels);
    }

    /// Counts a new message of a thread in the counters that are known.
    pub fn increment_thread_message_counts(&mut self, channel_id: ChannelId)
        ensures
            final(self)@ == old(self)@.with_thread_message_counted(channel_id),
            old(self)@.wf() ==> final(self)@.wf(),
    {
        if let Some(mut channel) = self.navigation.channels.remove(&channel_id.value) {
            if channel.is_thread() {
                channel.message_count = count_one(channel.message_count);
                channel.total_message_sent = count_one(channel.total_message_sent);
            }
            self.navigation.channels.insert(channel_id.value, channel);
        }
        assert(self@.channels =~= old(self)@.with_thread_message_counted(channel_id).channels);
    }
}

/// The channels under the first `n` keys have been changed, the others not.
spec fn changed_up_to(
    channels: Map<u64, ChannelState>,
    before: Map<u64, ChannelState>,
    keys: Seq<u64>,
    n: int,
    change: spec_fn(ChannelView) -> ChannelView,
) -> bool {
    &&& channels.dom() == before.dom()
    &&& forall|j: int| 0 <= j < n ==> channels[#[trigger] keys[j]]@ == change(before[keys[j]]@)
    &&& forall|j: int| n <= j < keys.len() ==> channels[#[trigger] keys[j]] == before[keys[j]]
}

/// Changing the channels under every key changes all of them.
proof fn lemma_changed_all(
    channels: Map<u64, ChannelState>,
    before: Map<u64, ChannelState>,
    keys: Seq<u64>,
    change: spec_fn(ChannelView) -> ChannelView,
)
    requires
        lists_in_order(keys, before.dom()),
        changed_up_to(channels, before, keys, keys.len() as int, change),
    ensures
        channel_map_view(channels) == channel_map_view(before).map_values(change),
{
    assert forall|key: u64| #[trigger] before.contains_key(key) implies channels[key]@ == change(
        before[key]@,
    ) by {
        assert(keys.contains(key));
        let j = choose|j: int| 0 <= j < keys.len() && keys[j] == key;
        assert(channels[keys[j]]@ == change(before[keys[j]]@));
    }
    assert(channel_map_view(channels) =~= channel_map_view(before).map_values(change));
}

/// The names that a payload gives for its recipients.
fn incoming_names(recipients: &Option<Vec<ChannelRecipientInfo>>) -> (names: Vec<String>)
    ensures
        text_views(names@) == match *recipients {
            Some(recipients) => recipient_info_views(recipients@).map_values(
                |recipient: RecipientInfoView| recipient.display_name,
            ),
            None => Seq::empty(),
        },
{
    let mut names: Vec<String> = Vec::new();
    if let Some(recipients) = recipients {
        let mut i: usize = 0;
        while i < recipients.len()
            invariant
                i <= recipients.len(),
                names@.len() == i,
                forall|j: int| 0 <= j < i ==> (#[trigger] names@[j])@ == recipients@[j].display_name@,
            decreases recipients.len() - i,
        {
            names.push(recipients[i].display_name.clone());
            i += 1;
        }
        assert(text_views(names@) =~= recipient_info_views(recipients@).map_values(
            |recipient: RecipientInfoView| recipient.display_name,
        ));
    } else {
        assert(text_views(names@) =~= Seq::empty());
    }
    names
}

} // verus!
