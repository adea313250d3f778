use discord_core::channel::ChannelState;
use discord_core::clock::{Now, UtcTime};
use discord_core::event::AppEvent;
use discord_core::ids::{ChannelId, GuildId, MessageId, RoleId, UserId};
use discord_core::message::{MentionInfo, MessageInfo, MessageKind, MessageState};
use discord_core::notification::kind::MessageNotificationKind;
use discord_core::notification::mute::{mute_holds, notification_setting_muted, MuteEnd};
use discord_core::notification::settings::{
    ChannelNotificationOverrideInfo, GuildNotificationSettingsInfo, NotificationLevel,
};
use discord_core::notification::unread::{
    aggregate_unread_states, saturating_u32_count, ChannelUnreadState,
};
use discord_core::payload::{ChannelInfo, ThreadMetadataInfo};
use discord_core::state::{
    ChannelReadState, DiscordState, FriendStatus, MessageTimeline, RelationshipState,
    ThreadMemberState,
};

fn channel_info(channel_id: ChannelId, kind: &str) -> ChannelInfo {
    ChannelInfo {
        guild_id: None,
        channel_id,
        parent_id: None,
        owner_id: None,
        position: None,
        last_message_id: None,
        name: "channel".to_owned(),
        kind: kind.to_owned(),
        message_count: None,
        member_count: None,
        user_limit: None,
        total_message_sent: None,
        thread_metadata: None,
        flags: None,
        rate_limit_per_user: None,
        available_tags: Vec::new(),
        applied_tags: Vec::new(),
        recipients: None,
        permission_overwrites: Vec::new(),
        is_message_request: None,
        is_spam: None,
    }
}

fn guild_channel(guild_id: GuildId, channel_id: ChannelId, kind: &str) -> ChannelInfo {
    ChannelInfo { guild_id: Some(guild_id), ..channel_info(channel_id, kind) }
}

fn child_channel(
    guild_id: GuildId,
    channel_id: ChannelId,
    parent_id: ChannelId,
    kind: &str,
) -> ChannelInfo {
    ChannelInfo { parent_id: Some(parent_id), ..guild_channel(guild_id, channel_id, kind) }
}

fn notification_settings(
    guild_id: Option<GuildId>,
    level: NotificationLevel,
) -> GuildNotificationSettingsInfo {
    GuildNotificationSettingsInfo {
        guild_id,
        message_notifications: Some(level),
        muted: false,
        mute_end_time: None,
        selected_time_window: None,
        suppress_everyone: false,
        suppress_roles: false,
        flags: 0,
        hide_muted_channels: false,
        mobile_push: true,
        mute_scheduled_events: false,
        notify_highlights: 0,
        version: 0,
        channel_overrides: Vec::new(),
    }
}

fn channel_override(channel_id: ChannelId) -> ChannelNotificationOverrideInfo {
    ChannelNotificationOverrideInfo {
        channel_id,
        message_notifications: None,
        muted: false,
        mute_end_time: None,
        selected_time_window: None,
        collapsed: false,
        flags: 0,
    }
}

fn message(
    guild_id: Option<GuildId>,
    channel_id: ChannelId,
    message_id: u64,
    author_id: UserId,
    mentions: Vec<MentionInfo>,
) -> MessageInfo {
    MessageInfo {
        guild_id,
        channel_id,
        message_id: MessageId::new(message_id),
        author_id,
        mentions,
        mention_everyone: false,
        mention_roles: Vec::new(),
        flags: 0,
        message_kind: MessageKind::new(0),
    }
}

/// Files a message as the latest of its channel.
fn load(state: &mut DiscordState, message: MessageInfo) {
    let channel_id = message.channel_id;
    state.record_channel_message_id(channel_id, message.message_id);
    state
        .message_cache
        .timelines
        .entry(channel_id.get())
        .or_insert_with(|| MessageTimeline { messages: Vec::new() })
        .messages
        .push(MessageState {
            id: message.message_id,
            guild_id: message.guild_id,
            channel_id,
            author_id: message.author_id,
            mentions: message.mentions,
            mention_everyone: message.mention_everyone,
            mention_roles: message.mention_roles,
            flags: message.flags,
            message_kind: message.message_kind,
        });
}

fn signed_in(current_user_id: UserId) -> DiscordState {
    let mut state = DiscordState::default();
    state.session.current_user_id = Some(current_user_id);
    state
}

fn ids(channels: Vec<&ChannelState>) -> Vec<ChannelId> {
    channels.into_iter().map(|channel| channel.id).collect()
}

#[test]
fn all_message_notification_settings_show_numeric_badge() {
    let guild_id = GuildId::new(1);
    let channel_id = ChannelId::new(2);
    let mut state = signed_in(UserId::new(10));
    state.upsert_channel(&guild_channel(guild_id, channel_id, "GuildText"));
    state.upsert_notification_settings(&notification_settings(
        Some(guild_id),
        NotificationLevel::AllMessages,
    ));

    load(&mut state, message(Some(guild_id), channel_id, 30, UserId::new(20), Vec::new()));

    assert_eq!(state.channel_unread(channel_id), ChannelUnreadState::Notified(1));
    assert_eq!(state.guild_unread(guild_id), ChannelUnreadState::Notified(1));
}

#[test]
fn notification_flags_drive_low_priority_mentions_and_sidebar_visibility() {
    let guild_id = GuildId::new(1);
    let opted_in_channel_id = ChannelId::new(2);
    let hidden_channel_id = ChannelId::new(3);
    let mut settings = notification_settings(Some(guild_id), NotificationLevel::NoMessages);
    settings.flags = 1 << 14;
    settings.hide_muted_channels = true;
    settings.channel_overrides.push(ChannelNotificationOverrideInfo {
        flags: (1 << 10) | (1 << 12),
        ..channel_override(opted_in_channel_id)
    });
    settings.channel_overrides.push(ChannelNotificationOverrideInfo {
        muted: true,
        ..channel_override(hidden_channel_id)
    });

    let mut state = signed_in(UserId::new(10));
    state.upsert_channel(&guild_channel(guild_id, opted_in_channel_id, "GuildText"));
    state.upsert_channel(&guild_channel(guild_id, hidden_channel_id, "GuildText"));
    state.upsert_notification_settings(&settings);
    state.notifications.user_notification_flags = 1 << 5;

    let event = AppEvent::MessageCreate {
        message: message(Some(guild_id), opted_in_channel_id, 30, UserId::new(20), Vec::new()),
    };
    assert!(
        !state.message_event_triggers_notification(&event),
        "low-priority all-message mentions should not play a notification"
    );
    load(
        &mut state,
        message(Some(guild_id), opted_in_channel_id, 30, UserId::new(20), Vec::new()),
    );

    assert_eq!(
        state.channel_sidebar_unread(opted_in_channel_id),
        ChannelUnreadState::Mentioned(1)
    );
    assert_eq!(
        ids(state.sidebar_channels_for_guild(Some(guild_id))),
        vec![opted_in_channel_id]
    );
    assert_eq!(
        ids(state.viewable_channels_for_guild(Some(guild_id))),
        vec![opted_in_channel_id, hidden_channel_id],
        "notification hiding must not change permission-based visibility"
    );
}

#[test]
fn sidebar_keeps_voice_channels_visible_despite_opt_in_and_hide_muted() {
    let guild_id = GuildId::new(1);
    let voice_channel_id = ChannelId::new(2);
    let hidden_text_id = ChannelId::new(3);
    let mut settings = notification_settings(Some(guild_id), NotificationLevel::NoMessages);
    settings.flags = 1 << 14;
    settings.hide_muted_channels = true;
    settings.channel_overrides.push(ChannelNotificationOverrideInfo {
        muted: true,
        ..channel_override(voice_channel_id)
    });
    settings.channel_overrides.push(ChannelNotificationOverrideInfo {
        muted: true,
        ..channel_override(hidden_text_id)
    });

    let mut state = signed_in(UserId::new(10));
    state.upsert_channel(&guild_channel(guild_id, voice_channel_id, "GuildVoice"));
    state.upsert_channel(&guild_channel(guild_id, hidden_text_id, "GuildText"));
    state.upsert_notification_settings(&settings);

    assert_eq!(
        ids(state.sidebar_channels_for_guild(Some(guild_id))),
        vec![voice_channel_id],
        "muted voice channels stay visible like the Discord client"
    );
}

#[test]
fn loaded_guild_messages_use_notification_numeric_badge() {
    let guild_id = GuildId::new(1);
    let channel_id = ChannelId::new(2);
    let mut state = signed_in(UserId::new(10));
    state.upsert_channel(&guild_channel(guild_id, channel_id, "GuildText"));
    state.notifications.read_states.insert(
        channel_id.get(),
        ChannelReadState {
            last_acked_message_id: Some(MessageId::new(29)),
            mention_count: 0,
            notification_count: 0,
        },
    );
    state.upsert_notification_settings(&notification_settings(
        Some(guild_id),
        NotificationLevel::AllMessages,
    ));
    load(&mut state, message(Some(guild_id), channel_id, 30, UserId::new(20), Vec::new()));

    assert_eq!(state.channel_unread(channel_id), ChannelUnreadState::Notified(1));
    assert_eq!(state.guild_unread(guild_id), ChannelUnreadState::Notified(1));
}

#[test]
fn muted_channel_does_not_add_numeric_notification_badge() {
    let guild_id = GuildId::new(1);
    let channel_id = ChannelId::new(2);
    let mut settings = notification_settings(Some(guild_id), NotificationLevel::AllMessages);
    settings.channel_overrides.push(ChannelNotificationOverrideInfo {
        message_notifications: Some(NotificationLevel::AllMessages),
        muted: true,
        ..channel_override(channel_id)
    });

    let mut state = signed_in(UserId::new(10));
    state.upsert_channel(&guild_channel(guild_id, channel_id, "GuildText"));
    state.upsert_notification_settings(&settings);
    load(&mut state, message(Some(guild_id), channel_id, 30, UserId::new(20), Vec::new()));

    assert_eq!(state.channel_unread_message_count(channel_id), 0);
    assert_eq!(state.channel_unread(channel_id), ChannelUnreadState::Unread);
    assert_eq!(state.channel_sidebar_unread(channel_id), ChannelUnreadState::Seen);
    assert_eq!(state.guild_sidebar_unread(guild_id), ChannelUnreadState::Seen);
}

#[test]
fn thread_notification_settings_walk_the_full_channel_ancestry() {
    let guild_id = GuildId::new(1);
    let category_id = ChannelId::new(2);
    let channel_id = ChannelId::new(3);
    let thread_id = ChannelId::new(4);
    let mut settings = notification_settings(Some(guild_id), NotificationLevel::AllMessages);
    settings.flags = 1 << 14;
    settings.channel_overrides.push(ChannelNotificationOverrideInfo {
        muted: true,
        flags: 1 << 12,
        ..channel_override(category_id)
    });
    let mut state = DiscordState::default();
    state.upsert_channel(&guild_channel(guild_id, category_id, "category"));
    state.upsert_channel(&child_channel(guild_id, channel_id, category_id, "GuildText"));
    state.upsert_channel(&child_channel(guild_id, thread_id, channel_id, "thread"));
    state.threads.active.insert(thread_id.get());
    state.threads.current_user_members.insert(
        thread_id.get(),
        ThreadMemberState { flags: None, muted: Some(false), mute_end_time: None },
    );
    state.upsert_notification_settings(&settings);

    assert!(state.channel_notification_muted(thread_id));
    assert!(state.channel_visible_in_notification_settings(thread_id));
}

#[test]
fn thread_notification_policy_uses_membership_activity_permissions_mute_and_level() {
    struct Case {
        name: &'static str,
        joined: bool,
        archived: bool,
        can_view: bool,
        muted: bool,
        flags: Option<u64>,
        mentions_current_user: bool,
        audible: bool,
        unread_count: usize,
        inbox: ChannelUnreadState,
    }

    let guild_id = GuildId::new(1);
    let parent_id = ChannelId::new(2);
    let thread_id = ChannelId::new(3);
    let current_user_id = UserId::new(10);
    let author_id = UserId::new(20);

    for case in [
        Case {
            name: "joined active thread inherits all messages",
            joined: true,
            archived: false,
            can_view: true,
            muted: false,
            flags: None,
            mentions_current_user: false,
            audible: true,
            unread_count: 1,
            inbox: ChannelUnreadState::Notified(1),
        },
        Case {
            name: "unjoined thread",
            joined: false,
            archived: false,
            can_view: true,
            muted: false,
            flags: Some(2),
            mentions_current_user: true,
            audible: false,
            unread_count: 1,
            inbox: ChannelUnreadState::Seen,
        },
        Case {
            name: "archived thread",
            joined: true,
            archived: true,
            can_view: true,
            muted: false,
            flags: Some(2),
            mentions_current_user: true,
            audible: false,
            unread_count: 1,
            inbox: ChannelUnreadState::Seen,
        },
        Case {
            name: "hidden thread",
            joined: true,
            archived: false,
            can_view: false,
            muted: false,
            flags: Some(2),
            mentions_current_user: true,
            audible: false,
            unread_count: 1,
            inbox: ChannelUnreadState::Seen,
        },
        Case {
            name: "muted thread member",
            joined: true,
            archived: false,
            can_view: true,
            muted: true,
            flags: Some(2),
            mentions_current_user: true,
            audible: false,
            unread_count: 1,
            inbox: ChannelUnreadState::Seen,
        },
        Case {
            name: "all messages thread flag",
            joined: true,
            archived: false,
            can_view: true,
            muted: false,
            flags: Some(2),
            mentions_current_user: false,
            audible: true,
            unread_count: 1,
            inbox: ChannelUnreadState::Notified(1),
        },
        Case {
            name: "mentions-only thread flag without mention",
            joined: true,
            archived: false,
            can_view: true,
            muted: false,
            flags: Some(4),
            mentions_current_user: false,
            audible: false,
            unread_count: 0,
            inbox: ChannelUnreadState::Unread,
        },
        Case {
            name: "mentions-only thread flag with mention",
            joined: true,
            archived: false,
            can_view: true,
            muted: false,
            flags: Some(4),
            mentions_current_user: true,
            audible: true,
            unread_count: 1,
            inbox: ChannelUnreadState::Mentioned(1),
        },
        Case {
            name: "no-messages thread flag",
            joined: true,
            archived: false,
            can_view: true,
            muted: false,
            flags: Some(8),
            mentions_current_user: true,
            audible: false,
            unread_count: 1,
            inbox: ChannelUnreadState::Mentioned(1),
        },
    ] {
        let mut thread = child_channel(guild_id, thread_id, parent_id, "GuildPublicThread");
        thread.thread_metadata = Some(ThreadMetadataInfo {
            archived: case.archived,
            locked: false,
            auto_archive_duration: None,
            archive_timestamp: None,
        });
        let mut state = signed_in(current_user_id);
        state.upsert_channel(&guild_channel(guild_id, parent_id, "forum"));
        state.upsert_channel(&thread);
        state.threads.active.insert(thread_id.get());
        if case.joined {
            state.threads.current_user_members.insert(
                thread_id.get(),
                ThreadMemberState {
                    flags: case.flags,
                    muted: Some(case.muted),
                    mute_end_time: None,
                },
            );
        }
        if !case.can_view {
            state.navigation.hidden_channels.insert(parent_id.get());
        }
        state.upsert_notification_settings(&notification_settings(
            Some(guild_id),
            NotificationLevel::AllMessages,
        ));

        let mentions = if case.mentions_current_user {
            vec![MentionInfo { user_id: current_user_id }]
        } else {
            Vec::new()
        };
        let event = AppEvent::MessageCreate {
            message: message(Some(guild_id), thread_id, 30, author_id, mentions.clone()),
        };
        assert_eq!(
            state.message_event_triggers_notification(&event),
            case.audible,
            "{}",
            case.name
        );
        load(&mut state, message(Some(guild_id), thread_id, 30, author_id, mentions));
        assert_eq!(
            state.channel_unread_message_count(thread_id),
            case.unread_count,
            "{}",
            case.name
        );
        assert_eq!(state.channel_inbox_unread(thread_id), case.inbox, "{}", case.name);
        assert_eq!(state.channel_sidebar_unread(thread_id), case.inbox, "{}", case.name);
    }
}

#[test]
fn only_mentions_settings_use_resolved_mentions() {
    let guild_id = GuildId::new(1);
    let channel_id = ChannelId::new(2);
    let current_user_id = UserId::new(10);
    let author_id = UserId::new(20);
    let role_id = RoleId::new(40);
    let suppress_notifications = 1 << 12;
    let unread_for = |content: &str,
                      mentions: Vec<MentionInfo>,
                      mention_everyone: bool,
                      mention_roles: Vec<RoleId>,
                      flags: u64| {
        assert!(!content.is_empty());
        let mut state = signed_in(current_user_id);
        state.upsert_channel(&guild_channel(guild_id, channel_id, "GuildText"));
        state.session.current_user_roles.insert(guild_id.get(), vec![role_id]);
        state.upsert_notification_settings(&notification_settings(
            Some(guild_id),
            NotificationLevel::OnlyMentions,
        ));
        load(
            &mut state,
            MessageInfo {
                mention_everyone,
                mention_roles,
                flags,
                ..message(Some(guild_id), channel_id, 30, author_id, mentions)
            },
        );
        (state.channel_unread(channel_id), state.channel_unread_message_count(channel_id))
    };

    assert_eq!(
        unread_for(
            "hello @me",
            vec![MentionInfo { user_id: current_user_id }],
            false,
            Vec::new(),
            0,
        ),
        (ChannelUnreadState::Mentioned(1), 1)
    );
    assert_eq!(
        unread_for("@everyone", Vec::new(), false, Vec::new(), 0),
        (ChannelUnreadState::Unread, 0)
    );
    assert_eq!(
        unread_for("@everyone", Vec::new(), true, Vec::new(), 0),
        (ChannelUnreadState::Mentioned(1), 1)
    );
    assert_eq!(
        unread_for("<@&40>", Vec::new(), false, Vec::new(), 0),
        (ChannelUnreadState::Unread, 0)
    );
    assert_eq!(
        unread_for("<@&40>", Vec::new(), false, vec![role_id], 0),
        (ChannelUnreadState::Mentioned(1), 1)
    );
    assert_eq!(
        unread_for("@everyone", Vec::new(), true, Vec::new(), suppress_notifications),
        (ChannelUnreadState::Mentioned(1), 1)
    );
}

#[test]
fn private_notification_settings_control_unread_surfaces() {
    let channel_id = ChannelId::new(2);
    let current_user_id = UserId::new(10);
    let author_id = UserId::new(20);

    for (
        name,
        scope_muted,
        override_info,
        mentions_current_user,
        triggers_notification,
        unread_count,
        unread,
        sidebar_unread,
        inbox_unread,
        direct_message_unread,
    ) in [
        (
            "all messages",
            false,
            None,
            false,
            true,
            1,
            ChannelUnreadState::Mentioned(1),
            ChannelUnreadState::Mentioned(1),
            ChannelUnreadState::Mentioned(1),
            1,
        ),
        (
            "no-messages level",
            false,
            Some(ChannelNotificationOverrideInfo {
                message_notifications: Some(NotificationLevel::NoMessages),
                ..channel_override(channel_id)
            }),
            false,
            false,
            1,
            ChannelUnreadState::Mentioned(1),
            ChannelUnreadState::Mentioned(1),
            ChannelUnreadState::Mentioned(1),
            1,
        ),
        (
            "muted channel",
            false,
            Some(ChannelNotificationOverrideInfo {
                message_notifications: Some(NotificationLevel::AllMessages),
                muted: true,
                ..channel_override(channel_id)
            }),
            false,
            false,
            0,
            ChannelUnreadState::Unread,
            ChannelUnreadState::Seen,
            ChannelUnreadState::Seen,
            0,
        ),
        (
            "muted channel with a direct mention",
            false,
            Some(ChannelNotificationOverrideInfo {
                message_notifications: Some(NotificationLevel::AllMessages),
                muted: true,
                ..channel_override(channel_id)
            }),
            true,
            false,
            1,
            ChannelUnreadState::Mentioned(1),
            ChannelUnreadState::Seen,
            ChannelUnreadState::Seen,
            0,
        ),
        (
            "muted private scope",
            true,
            None,
            false,
            false,
            0,
            ChannelUnreadState::Unread,
            ChannelUnreadState::Unread,
            ChannelUnreadState::Seen,
            0,
        ),
        (
            "muted private scope with a direct mention",
            true,
            None,
            true,
            false,
            1,
            ChannelUnreadState::Mentioned(1),
            ChannelUnreadState::Mentioned(1),
            ChannelUnreadState::Seen,
            0,
        ),
    ] {
        let mut state = signed_in(current_user_id);
        let mut settings = notification_settings(None, NotificationLevel::AllMessages);
        settings.muted = scope_muted;
        settings.channel_overrides.extend(override_info);
        state.upsert_channel(&channel_info(channel_id, "dm"));
        state.upsert_notification_settings(&settings);

        let mentions = if mentions_current_user {
            vec![MentionInfo { user_id: current_user_id }]
        } else {
            Vec::new()
        };
        let event = AppEvent::MessageCreate {
            message: message(None, channel_id, 30, author_id, mentions.clone()),
        };
        assert_eq!(
            state.message_event_triggers_notification(&event),
            triggers_notification,
            "{}",
            name
        );
        load(&mut state, message(None, channel_id, 30, author_id, mentions));

        assert_eq!(state.channel_unread_message_count(channel_id), unread_count, "{}", name);
        assert_eq!(state.channel_unread(channel_id), unread, "{}", name);
        assert_eq!(state.channel_sidebar_unread(channel_id), sidebar_unread, "{}", name);
        assert_eq!(state.channel_inbox_unread(channel_id), inbox_unread, "{}", name);
        assert_eq!(state.direct_message_unread_count(), direct_message_unread, "{}", name);
    }
}

#[test]
fn mute_duration_metadata_round_trips_through_notification_state() {
    let guild_id = GuildId::new(1);
    let channel_id = ChannelId::new(2);
    let mut settings = notification_settings(Some(guild_id), NotificationLevel::OnlyMentions);
    settings.muted = true;
    settings.mute_end_time = Some("2099-01-01T00:00:00.000Z".to_owned());
    settings.selected_time_window = Some(3600);
    settings.channel_overrides.push(ChannelNotificationOverrideInfo {
        muted: true,
        mute_end_time: Some("2099-01-02T00:00:00.000Z".to_owned()),
        selected_time_window: Some(900),
        ..channel_override(channel_id)
    });

    let mut state = DiscordState::default();
    state.upsert_notification_settings(&settings);

    let cached = state.guild_notification_settings_info(Some(guild_id));
    assert_eq!(cached.mute_end_time.as_deref(), Some("2099-01-01T00:00:00.000Z"));
    assert_eq!(cached.selected_time_window, Some(3600));
    assert_eq!(cached.channel_overrides.len(), 1);
    assert_eq!(
        cached.channel_overrides[0].mute_end_time.as_deref(),
        Some("2099-01-02T00:00:00.000Z")
    );
    assert_eq!(cached.channel_overrides[0].selected_time_window, Some(900));
    assert_eq!(cached, settings);
}

#[test]
fn explicit_channel_override_beats_a_muted_parent_category() {
    struct Case {
        name: &'static str,
        channel_override: bool,
        muted: bool,
        unread_count: usize,
        unread: ChannelUnreadState,
        sidebar: ChannelUnreadState,
        guild_sidebar: ChannelUnreadState,
    }

    let guild_id = GuildId::new(1);
    let category_id = ChannelId::new(2);
    let channel_id = ChannelId::new(3);
    let author_id = UserId::new(20);

    for case in [
        Case {
            name: "muted category only",
            channel_override: false,
            muted: true,
            unread_count: 0,
            unread: ChannelUnreadState::Unread,
            sidebar: ChannelUnreadState::Seen,
            guild_sidebar: ChannelUnreadState::Seen,
        },
        Case {
            name: "channel override under a muted category",
            channel_override: true,
            muted: false,
            unread_count: 1,
            unread: ChannelUnreadState::Notified(1),
            sidebar: ChannelUnreadState::Notified(1),
            guild_sidebar: ChannelUnreadState::Notified(1),
        },
    ] {
        let mut settings = notification_settings(Some(guild_id), NotificationLevel::AllMessages);
        settings.channel_overrides.push(ChannelNotificationOverrideInfo {
            message_notifications: Some(NotificationLevel::AllMessages),
            muted: true,
            ..channel_override(category_id)
        });
        if case.channel_override {
            settings.channel_overrides.push(ChannelNotificationOverrideInfo {
                message_notifications: Some(NotificationLevel::AllMessages),
                ..channel_override(channel_id)
            });
        }

        let mut state = signed_in(UserId::new(10));
        state.upsert_channel(&guild_channel(guild_id, category_id, "category"));
        state.upsert_channel(&ChannelInfo {
            last_message_id: Some(MessageId::new(30)),
            ..child_channel(guild_id, channel_id, category_id, "GuildText")
        });
        state.upsert_notification_settings(&settings);
        load(&mut state, message(Some(guild_id), channel_id, 30, author_id, Vec::new()));

        assert_eq!(state.channel_notification_muted(channel_id), case.muted, "{}", case.name);
        assert_eq!(
            state.channel_unread_message_count(channel_id),
            case.unread_count,
            "{}",
            case.name
        );
        assert_eq!(state.channel_unread(channel_id), case.unread, "{}", case.name);
        assert_eq!(state.channel_sidebar_unread(channel_id), case.sidebar, "{}", case.name);
        assert_eq!(state.guild_sidebar_unread(guild_id), case.guild_sidebar, "{}", case.name);
    }
}

const NOON: UtcTime = UtcTime { secs: 1_704_110_400, nanos: 0 };

#[test]
fn mute_holds_until_its_end() {
    let before = UtcTime { secs: NOON.secs - 1, nanos: 999_999_999 };
    let after = UtcTime { secs: NOON.secs, nanos: 1 };
    assert!(mute_holds(true, MuteEnd::At(NOON), before));
    assert!(!mute_holds(true, MuteEnd::At(NOON), NOON));
    assert!(!mute_holds(true, MuteEnd::At(NOON), after));
    assert!(mute_holds(true, MuteEnd::Never, after));
    assert!(mute_holds(true, MuteEnd::Unreadable, after));
    assert!(!mute_holds(false, MuteEnd::Never, before));
}

#[test]
fn mute_end_times_are_read_from_their_text() {
    let noon = Some("2024-01-01T12:00:00Z");
    let shifted = Some("2024-01-01T13:00:00.000000001+01:00");
    let before = UtcTime { secs: NOON.secs - 1, nanos: 0 };
    assert!(notification_setting_muted(true, noon, before));
    assert!(!notification_setting_muted(true, noon, NOON));
    assert!(notification_setting_muted(true, shifted, NOON));
    assert!(notification_setting_muted(true, Some("tomorrow"), NOON));
    assert!(notification_setting_muted(true, None, NOON));
    assert!(!notification_setting_muted(false, None, NOON));
}

#[test]
fn unread_states_aggregate_by_weight() {
    let states = [
        ChannelUnreadState::Unread,
        ChannelUnreadState::Notified(2),
        ChannelUnreadState::Seen,
        ChannelUnreadState::Notified(3),
    ];
    assert_eq!(aggregate_unread_states(&[]), ChannelUnreadState::Seen);
    assert_eq!(aggregate_unread_states(&states[..1]), ChannelUnreadState::Unread);
    assert_eq!(aggregate_unread_states(&states), ChannelUnreadState::Notified(5));
    assert_eq!(
        aggregate_unread_states(&[
            ChannelUnreadState::Notified(9),
            ChannelUnreadState::Mentioned(u32::MAX),
            ChannelUnreadState::Mentioned(2),
        ]),
        ChannelUnreadState::Mentioned(u32::MAX)
    );
    assert_eq!(saturating_u32_count(7), 7);
    assert_eq!(saturating_u32_count(usize::MAX), u32::MAX);
}

#[test]
fn forum_stands_for_itself_and_its_joined_posts() {
    let guild_id = GuildId::new(1);
    let forum_id = ChannelId::new(2);
    let joined_id = ChannelId::new(3);
    let other_id = ChannelId::new(4);
    let mut state = signed_in(UserId::new(10));
    state.upsert_channel(&guild_channel(guild_id, forum_id, "GuildForum"));
    for post_id in [joined_id, other_id] {
        state.upsert_channel(&child_channel(guild_id, post_id, forum_id, "GuildPublicThread"));
        state.threads.active.insert(post_id.get());
        load(&mut state, message(Some(guild_id), post_id, 30, UserId::new(20), Vec::new()));
    }
    state.threads.current_user_members.insert(
        joined_id.get(),
        ThreadMemberState { flags: None, muted: None, mute_end_time: None },
    );
    state.upsert_notification_settings(&notification_settings(
        Some(guild_id),
        NotificationLevel::AllMessages,
    ));

    assert_eq!(state.channel_unread(forum_id), ChannelUnreadState::Seen);
    assert_eq!(state.channel_sidebar_unread(joined_id), ChannelUnreadState::Notified(1));
    assert_eq!(state.channel_sidebar_unread(other_id), ChannelUnreadState::Seen);
    assert_eq!(state.channel_sidebar_unread(forum_id), ChannelUnreadState::Notified(1));
    assert!(state.channel_is_forum_child_thread(joined_id));
    assert!(!state.channel_is_forum_child_thread(forum_id));
    assert_eq!(state.guild_sidebar_unread(guild_id), ChannelUnreadState::Notified(1));
}

#[test]
fn server_counts_win_over_loaded_messages() {
    let guild_id = GuildId::new(1);
    let channel_id = ChannelId::new(2);
    let mut state = signed_in(UserId::new(10));
    state.upsert_channel(&guild_channel(guild_id, channel_id, "GuildText"));
    assert_eq!(state.channel_unread(channel_id), ChannelUnreadState::Seen);
    load(&mut state, message(Some(guild_id), channel_id, 30, UserId::new(20), Vec::new()));
    assert_eq!(state.channel_unread(channel_id), ChannelUnreadState::Unread);

    let mut read = ChannelReadState {
        last_acked_message_id: None,
        mention_count: 4,
        notification_count: 7,
    };
    state.notifications.read_states.insert(channel_id.get(), read);
    assert_eq!(state.channel_unread(channel_id), ChannelUnreadState::Mentioned(4));
    read.mention_count = 0;
    state.notifications.read_states.insert(channel_id.get(), read);
    assert_eq!(state.channel_unread(channel_id), ChannelUnreadState::Notified(7));
    read.notification_count = 0;
    read.last_acked_message_id = Some(MessageId::new(30));
    state.notifications.read_states.insert(channel_id.get(), read);
    assert_eq!(state.channel_unread(channel_id), ChannelUnreadState::Seen);
}

#[test]
fn settled_messages_never_notify() {
    let channel_id = ChannelId::new(2);
    let author_id = UserId::new(20);
    let now = Now { utc: NOON, unix_millis: 0 };
    let kind = |state: &mut DiscordState, author_id: UserId| {
        load(state, message(None, channel_id, 30, author_id, Vec::new()));
        let timeline = state.message_cache.timelines.remove(&channel_id.get()).unwrap();
        state.message_state_notification_kind(&timeline.messages[0], now)
    };

    let mut state = signed_in(UserId::new(10));
    assert_eq!(
        kind(&mut state, author_id),
        MessageNotificationKind::Mention { audible: true }
    );
    assert_eq!(kind(&mut state, UserId::new(10)), MessageNotificationKind::Nothing);
    for (status, ignored) in [(FriendStatus::Blocked, false), (FriendStatus::Friend, true)] {
        let mut state = signed_in(UserId::new(10));
        state.profiles.relationships.insert(
            author_id.get(),
            RelationshipState { status, ignored, nickname: None },
        );
        assert_eq!(kind(&mut state, author_id), MessageNotificationKind::Nothing);
    }
    let mut state = signed_in(UserId::new(10));
    state.notifications.read_states.insert(
        channel_id.get(),
        ChannelReadState {
            last_acked_message_id: Some(MessageId::new(30)),
            mention_count: 0,
            notification_count: 0,
        },
    );
    assert_eq!(kind(&mut state, author_id), MessageNotificationKind::Nothing);
}

#[test]
fn leaving_a_group_is_not_a_mention() {
    let channel_id = ChannelId::new(2);
    let state = signed_in(UserId::new(10));
    let mut left = message(None, channel_id, 30, UserId::new(20), Vec::new());
    left.message_kind = MessageKind::new(2);
    assert!(left.message_kind.is_recipient_remove());
    assert!(!state.message_event_triggers_notification(&AppEvent::MessageCreate { message: left }));
    assert!(!state.message_event_triggers_notification(&AppEvent::GatewayError {
        message: "closed".to_owned()
    }));
}

#[test]
fn settings_report_defaults_and_the_last_override() {
    let guild_id = GuildId::new(1);
    let mut state = DiscordState::default();
    let info = state.guild_notification_settings_info(Some(guild_id));
    assert_eq!(info.guild_id, Some(guild_id));
    assert_eq!(info.message_notifications, None);
    assert!(info.mobile_push);
    assert!(info.channel_overrides.is_empty());

    let mut settings = notification_settings(Some(guild_id), NotificationLevel::AllMessages);
    for (channel_id, flags) in [(9, 1), (3, 2), (9, 4)] {
        settings.channel_overrides.push(ChannelNotificationOverrideInfo {
            flags,
            ..channel_override(ChannelId::new(channel_id))
        });
    }
    state.upsert_notification_settings(&settings);
    let overrides: Vec<(u64, u64)> = state
        .guild_notification_settings_info(Some(guild_id))
        .channel_overrides
        .iter()
        .map(|info| (info.channel_id.get(), info.flags))
        .collect();
    assert_eq!(overrides, vec![(3, 2), (9, 4)]);
    let reported = state.guild_notification_settings_info(Some(guild_id));
    state.upsert_notification_settings(&reported);
    assert_eq!(state.guild_notification_settings_info(Some(guild_id)), reported);
    assert_eq!(state.guild_notification_settings_info(None).message_notifications, None);
}

#[test]
fn levels_come_from_the_most_specific_setting() {
    let guild_id = GuildId::new(1);
    let category_id = ChannelId::new(2);
    let channel_id = ChannelId::new(3);
    let level = |scope: u64, parent: Option<(u64, Option<NotificationLevel>)>, own: u64| {
        let mut settings =
            notification_settings(Some(guild_id), NotificationLevel::ParentDefault);
        settings.flags = scope;
        if let Some((flags, message_notifications)) = parent {
            settings.channel_overrides.push(ChannelNotificationOverrideInfo {
                flags,
                message_notifications,
                ..channel_override(category_id)
            });
        }
        settings.channel_overrides.push(ChannelNotificationOverrideInfo {
            flags: own,
            ..channel_override(channel_id)
        });
        let mut state = DiscordState::default();
        state.upsert_channel(&child_channel(guild_id, channel_id, category_id, "GuildText"));
        state.upsert_notification_settings(&settings);
        let kept = state.notification_settings_for_channel(channel_id).unwrap();
        assert_eq!(kept.clone(), *kept);
        state.channel_notification_level(kept, channel_id)
    };

    assert_eq!(level(0, None, 0), NotificationLevel::OnlyMentions);
    assert_eq!(level(1 << 11, None, 0), NotificationLevel::AllMessages);
    assert_eq!(level(1 << 12, None, 0), NotificationLevel::OnlyMentions);
    assert_eq!(
        level(1 << 11, Some((0, Some(NotificationLevel::NoMessages))), 0),
        NotificationLevel::NoMessages
    );
    assert_eq!(
        level(1 << 11, Some((1 << 9, Some(NotificationLevel::NoMessages))), 0),
        NotificationLevel::OnlyMentions
    );
    assert_eq!(
        level(1 << 12, Some((1 << 9, None)), 1 << 10),
        NotificationLevel::AllMessages
    );
}

#[test]
fn unknown_channels_may_notify() {
    let state = signed_in(UserId::new(10));
    let guild_id = GuildId::new(1);
    let channel_id = ChannelId::new(2);
    assert!(state.channel_notification_eligible(channel_id));
    let mention = vec![MentionInfo { user_id: UserId::new(10) }];
    let event = AppEvent::MessageCreate {
        message: message(Some(guild_id), channel_id, 30, UserId::new(20), mention),
    };
    assert!(state.message_event_triggers_notification(&event));
    let event = AppEvent::MessageCreate {
        message: message(Some(guild_id), channel_id, 30, UserId::new(20), Vec::new()),
    };
    assert!(!state.message_event_triggers_notification(&event));
}

#[test]
fn suppressed_messages_are_silent() {
    let channel_id = ChannelId::new(2);
    let mut state = signed_in(UserId::new(10));
    state.upsert_channel(&channel_info(channel_id, "dm"));
    let mut quiet = message(None, channel_id, 30, UserId::new(20), Vec::new());
    quiet.flags = 1 << 12;
    assert!(!state.message_event_triggers_notification(&AppEvent::MessageCreate { message: quiet }));
    let loud = message(None, channel_id, 30, UserId::new(20), Vec::new());
    assert!(state.message_event_triggers_notification(&AppEvent::MessageCreate { message: loud }));
}

#[test]
fn muted_guilds_are_silent_and_seen() {
    let guild_id = GuildId::new(1);
    let channel_id = ChannelId::new(2);
    let mut state = signed_in(UserId::new(10));
    state.upsert_channel(&guild_channel(guild_id, channel_id, "GuildText"));
    let mut settings = notification_settings(Some(guild_id), NotificationLevel::AllMessages);
    settings.muted = true;
    settings.mute_end_time = Some("2001-01-01T00:00:00Z".to_owned());
    state.upsert_notification_settings(&settings);
    load(&mut state, message(Some(guild_id), channel_id, 30, UserId::new(20), Vec::new()));
    assert!(!state.guild_notification_muted(guild_id));
    assert_eq!(state.guild_sidebar_unread(guild_id), ChannelUnreadState::Notified(1));

    settings.mute_end_time = None;
    state.upsert_notification_settings(&settings);
    assert!(state.guild_notification_muted(guild_id));
    assert!(!state.channel_notification_muted(channel_id));
    assert!(!state.thread_notification_muted(channel_id));
    assert_eq!(state.guild_sidebar_unread(guild_id), ChannelUnreadState::Seen);
    assert_eq!(state.channel_inbox_unread(channel_id), ChannelUnreadState::Seen);
    assert_eq!(state.channel_unread(channel_id), ChannelUnreadState::Unread);
}

#[test]
fn voice_channels_do_not_notify_for_all_messages() {
    let guild_id = GuildId::new(1);
    let channel_id = ChannelId::new(2);
    let mut state = signed_in(UserId::new(10));
    state.upsert_channel(&guild_channel(guild_id, channel_id, "GuildStageVoice"));
    state.upsert_notification_settings(&notification_settings(
        Some(guild_id),
        NotificationLevel::AllMessages,
    ));
    let event = AppEvent::MessageCreate {
        message: message(None, channel_id, 30, UserId::new(20), Vec::new()),
    };
    assert!(!state.channel_supports_all_message_mentions(channel_id));
    assert!(!state.message_event_triggers_notification(&event));
    state.upsert_channel(&guild_channel(guild_id, channel_id, "GuildText"));
    assert!(state.message_event_triggers_notification(&event));
}
