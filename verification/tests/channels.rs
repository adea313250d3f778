use discord_core::channel::{is_private_thread_kind, is_thread_kind, ChannelState};
use discord_core::channel_list::ChannelVisibilityStats;
use discord_core::clock::{elapsed_millis, Now, Timestamp, UtcTime};
use discord_core::ids::{ChannelId, GuildId, MessageId, UserId};
use discord_core::payload::{
    ChannelInfo, ChannelRecipientInfo, PermissionOverwriteInfo, PermissionOverwriteKind,
    PresenceStatus, ThreadMetadataInfo, VoiceScope,
};
use discord_core::recipient::{joined_recipient_display_names, ChannelRecipientState};
use discord_core::state::{DiscordState, FriendStatus, RelationshipState, ThreadMemberState};

fn channel_info(channel_id: u64, kind: &str) -> ChannelInfo {
    ChannelInfo {
        guild_id: None,
        channel_id: ChannelId::new(channel_id),
        parent_id: None,
        owner_id: None,
        position: None,
        last_message_id: None,
        name: "channel".to_owned(),
        kind: kind.to_owned(),
        message_count: None,
        member_count: None,
        user_limit: None,
        total_message_sent: None,
        thread_metadata: None,
        flags: None,
        rate_limit_per_user: None,
        available_tags: Vec::new(),
        applied_tags: Vec::new(),
        recipients: None,
        permission_overwrites: Vec::new(),
        is_message_request: None,
        is_spam: None,
    }
}

fn recipient(user_id: u64, display_name: &str) -> ChannelRecipientInfo {
    ChannelRecipientInfo {
        user_id: UserId::new(user_id),
        display_name: display_name.to_owned(),
        username: Some(display_name.to_lowercase()),
        is_bot: false,
        avatar_url: None,
        status: None,
    }
}

fn known(info: ChannelInfo) -> DiscordState {
    let mut state = DiscordState::default();
    state.upsert_channel(&info);
    state
}

fn channel(state: &DiscordState, channel_id: u64) -> &ChannelState {
    state.channel(ChannelId::new(channel_id)).expect("channel should be known")
}

#[test]
fn classifies_all_thread_channel_kinds() {
    for kind in [
        "thread",
        "GuildPublicThread",
        "GuildPrivateThread",
        "GuildNewsThread",
        "private-thread",
    ] {
        assert!(is_thread_kind(kind), "{} should be a thread kind", kind);
    }

    for kind in ["dm", "Private", "voice", "GuildVoice", "forum", "GuildForum"] {
        assert!(!is_thread_kind(kind), "{} should not be a thread kind", kind);
    }
}

#[test]
fn classifies_private_thread_channel_kinds() {
    assert!(is_private_thread_kind("GuildPrivateThread"));
    assert!(is_private_thread_kind("private-thread"));
    assert!(!is_private_thread_kind("GuildPublicThread"));
}

#[test]
fn kinds_are_told_by_their_names() {
    let of = |kind: &str| known(channel_info(1, kind));
    for kind in ["category", "GuildCategory"] {
        assert!(channel(&of(kind), 1).is_category());
    }
    for kind in ["forum", "media", "GuildForum"] {
        assert!(channel(&of(kind), 1).is_forum());
    }
    for kind in ["voice", "GuildVoice"] {
        assert!(channel(&of(kind), 1).is_voice());
        assert!(channel(&of(kind), 1).supports_voice_call());
    }
    for kind in ["stage", "GuildStageVoice"] {
        assert!(channel(&of(kind), 1).is_stage());
        assert!(!channel(&of(kind), 1).supports_voice_call());
    }
    for (kind, dm) in [("dm", true), ("Private", true), ("group-dm", false), ("Group", false)] {
        assert_eq!(channel(&of(kind), 1).is_dm(), dm);
        assert!(channel(&of(kind), 1).is_dm_or_group_dm());
        assert!(channel(&of(kind), 1).supports_voice_call());
    }
    assert!(channel(&of("private-thread"), 1).is_private_thread());
}

#[test]
fn spam_wins_over_message_request() {
    let tag = |kind: &str, is_spam, is_message_request| {
        let state = known(ChannelInfo { is_spam, is_message_request, ..channel_info(1, kind) });
        channel(&state, 1).dm_request_tag()
    };
    assert_eq!(tag("dm", Some(true), Some(true)), Some("spam"));
    assert_eq!(tag("dm", Some(false), Some(true)), Some("request"));
    assert_eq!(tag("dm", None, None), None);
    assert_eq!(tag("group-dm", Some(true), Some(true)), None);
}

#[test]
fn voice_scope_is_the_guild_or_the_conversation() {
    let guild_id = GuildId::new(7);
    let state = known(ChannelInfo { guild_id: Some(guild_id), ..channel_info(1, "voice") });
    assert_eq!(channel(&state, 1).voice_scope(), VoiceScope::Guild(guild_id));
    let state = known(channel_info(1, "dm"));
    assert_eq!(channel(&state, 1).voice_scope(), VoiceScope::Private(ChannelId::new(1)));
}

#[test]
fn flags_are_read_by_their_bits() {
    let of = |flags| known(ChannelInfo { flags, ..channel_info(1, "thread") });
    assert_eq!(channel(&of(Some(2)), 1).thread_pinned(), Some(true));
    assert_eq!(channel(&of(Some(4)), 1).thread_pinned(), Some(false));
    assert_eq!(channel(&of(None), 1).thread_pinned(), None);
    assert!(channel(&of(Some(4)), 1).removed_from_active_channels());
    assert!(!channel(&of(Some(2)), 1).removed_from_active_channels());
    assert!(channel(&of(Some(16)), 1).requires_forum_tag());
    assert!(!channel(&of(Some(15)), 1).requires_forum_tag());
}

const EPOCH: u64 = 1_420_070_400_000;

fn thread(last_message: Option<u64>, archive_timestamp: Option<&str>) -> ChannelInfo {
    ChannelInfo {
        last_message_id: last_message.map(MessageId::new),
        thread_metadata: Some(ThreadMetadataInfo {
            archived: false,
            locked: true,
            auto_archive_duration: Some(60),
            archive_timestamp: archive_timestamp.map(str::to_owned),
        }),
        ..channel_info(5 << 22, "thread")
    }
}

#[test]
fn threads_leave_the_tree_after_their_window() {
    let hour = 3_600_000;
    let id = 5 << 22;
    let state = known(thread(None, None));
    assert!(channel(&state, id).shows_in_active_channel_tree_at(EPOCH + 5 + hour - 1));
    assert!(!channel(&state, id).shows_in_active_channel_tree_at(EPOCH + 5 + hour));
    assert!(!channel(&state, id).shows_in_active_channel_tree());

    let state = known(thread(Some(9 << 22), None));
    assert!(channel(&state, id).shows_in_active_channel_tree_at(EPOCH + 9 + hour - 1));
    assert!(!channel(&state, id).shows_in_active_channel_tree_at(EPOCH + 9 + hour));
    assert_eq!(channel(&state, id).thread_locked(), Some(true));
    assert_eq!(channel(&state, id).thread_archived(), Some(false));

    let state = known(ChannelInfo { flags: Some(2), ..thread(None, None) });
    assert!(channel(&state, id).shows_in_active_channel_tree_at(u64::MAX));
    assert!(channel(&state, id).shows_in_active_channel_tree());
    let state = known(ChannelInfo { flags: Some(6), ..thread(None, None) });
    assert!(!channel(&state, id).shows_in_active_channel_tree_at(0));
}

#[test]
fn archive_changes_count_as_activity() {
    let hour = 3_600_000;
    let id = 5 << 22;
    let changed = 1_704_110_400_000;
    let state = known(thread(None, Some("2024-01-01T12:00:00Z")));
    assert!(channel(&state, id).shows_in_active_channel_tree_at(changed + hour - 1));
    assert!(!channel(&state, id).shows_in_active_channel_tree_at(changed + hour));
    let state = known(thread(None, Some("not a time")));
    assert!(!channel(&state, id).shows_in_active_channel_tree_at(changed));

    let change = |millis| {
        Some(Timestamp { utc: UtcTime { secs: 0, nanos: 0 }, millis })
    };
    let long = channel(&state, id);
    assert!(long.shows_in_active_channel_tree_given(u64::MAX - 1, change(i64::MAX)) == false);
    assert!(long.shows_in_active_channel_tree_given(EPOCH, change(-1)));
    assert!(!long.shows_in_active_channel_tree_given(EPOCH + 5 + hour, change(-1)));
}

#[test]
fn elapsed_time_is_counted_in_whole_milliseconds() {
    assert_eq!(elapsed_millis(None), 0);
    assert_eq!(elapsed_millis(Some((2, 345_999_999))), 2_345);
    assert_eq!(elapsed_millis(Some((u64::MAX, 0))), u64::MAX);
    let now = Now::read();
    assert!(now.unix_millis > 1_700_000_000_000);
    assert!(now.utc.nanos < 1_000_000_000);
    assert!(now.utc.is_after(UtcTime { secs: 1_700_000_000, nanos: 0 }));
}

#[test]
fn joined_active_threads_are_in_the_sidebar() {
    let id = ChannelId::new(5 << 22);
    let mut state = known(ChannelInfo { flags: Some(2), ..thread(None, None) });
    assert!(!state.thread_is_sidebar_active(id));
    state.threads.active.insert(id.get());
    assert!(!state.thread_is_sidebar_active(id));
    state.threads.current_user_members.insert(
        id.get(),
        ThreadMemberState { flags: None, muted: None, mute_end_time: None },
    );
    assert!(state.thread_is_sidebar_active(id));
}

#[test]
fn permissions_hide_guild_channels_and_their_threads() {
    let guild_id = Some(GuildId::new(7));
    let mut state = DiscordState::default();
    state.upsert_channel(&ChannelInfo { guild_id, ..channel_info(3, "GuildText") });
    state.upsert_channel(&ChannelInfo { guild_id, ..channel_info(1, "GuildText") });
    state.upsert_channel(&ChannelInfo {
        guild_id,
        parent_id: Some(ChannelId::new(3)),
        ..channel_info(2, "thread")
    });
    state.upsert_channel(&channel_info(9, "dm"));
    state.navigation.hidden_channels.insert(3);
    state.navigation.hidden_channels.insert(9);

    let ids = |channels: Vec<&ChannelState>| -> Vec<u64> {
        channels.into_iter().map(|channel| channel.id.get()).collect()
    };
    assert_eq!(ids(state.channels_for_guild(guild_id)), vec![1, 2, 3]);
    assert_eq!(ids(state.viewable_channels_for_guild(guild_id)), vec![1]);
    assert_eq!(ids(state.viewable_channels_for_guild(None)), vec![9]);
    assert_eq!(
        state.channel_visibility_stats(guild_id),
        ChannelVisibilityStats { visible: 1, hidden: 1 }
    );
    assert_eq!(
        state.channel_visibility_stats(None),
        ChannelVisibilityStats { visible: 1, hidden: 0 }
    );
    assert_eq!(
        ChannelVisibilityStats::default(),
        ChannelVisibilityStats { visible: 0, hidden: 0 }
    );
    assert_eq!(state.channel_guild_id(ChannelId::new(2)), guild_id);
}

#[test]
fn partial_payloads_keep_explicit_values() {
    let mut state = known(ChannelInfo {
        last_message_id: Some(MessageId::new(50)),
        flags: Some(4),
        user_limit: Some(8),
        rate_limit_per_user: Some(30),
        is_spam: Some(true),
        is_message_request: Some(false),
        thread_metadata: Some(ThreadMetadataInfo {
            archived: true,
            locked: false,
            auto_archive_duration: None,
            archive_timestamp: None,
        }),
        ..channel_info(1, "thread")
    });
    state.upsert_channel(&ChannelInfo {
        last_message_id: Some(MessageId::new(40)),
        ..channel_info(1, "thread")
    });
    let kept = channel(&state, 1);
    assert_eq!(kept.last_message_id, Some(MessageId::new(50)));
    assert_eq!(kept.flags, Some(4));
    assert_eq!(kept.user_limit, Some(8));
    assert_eq!(kept.rate_limit_per_user, Some(30));
    assert_eq!(kept.is_spam, Some(true));
    assert_eq!(kept.is_message_request, Some(false));
    assert_eq!(kept.thread_archived(), Some(true));
    assert!(!kept.is_active_thread());
}

#[test]
fn threads_own_no_overwrites() {
    let overwrite = PermissionOverwriteInfo {
        id: 1,
        kind: PermissionOverwriteKind::Role,
        allow: 0,
        deny: 1024,
    };
    let of = |kind: &str| {
        let state = known(ChannelInfo {
            permission_overwrites: vec![overwrite],
            ..channel_info(1, kind)
        });
        channel(&state, 1).permission_overwrites.len()
    };
    assert_eq!(of("GuildPublicThread"), 0);
    assert_eq!(of("GuildText"), 1);
}

#[test]
fn conversations_are_named_after_their_recipients() {
    let mut state = known(ChannelInfo {
        name: "dm-1".to_owned(),
        recipients: Some(vec![recipient(20, "Ada"), recipient(30, "Bob")]),
        ..channel_info(1, "group-dm")
    });
    assert_eq!(channel(&state, 1).name, "Ada, Bob");
    assert_eq!(joined_recipient_display_names(&channel(&state, 1).recipients), "Ada, Bob");

    state.refresh_dm_channel_info_from_profile(
        UserId::new(30),
        "Robert",
        None,
        Some("https://cdn.example.com/30.png"),
    );
    let renamed = channel(&state, 1);
    assert_eq!(renamed.name, "Ada, Robert");
    assert_eq!(renamed.recipients[1].username.as_deref(), Some("bob"));
    assert_eq!(
        renamed.recipients[1].avatar_url.as_deref(),
        Some("https://cdn.example.com/30.png")
    );

    let mut state = known(ChannelInfo {
        name: "Book club".to_owned(),
        recipients: Some(vec![recipient(20, "Ada")]),
        ..channel_info(2, "group-dm")
    });
    assert_eq!(channel(&state, 2).name, "Book club");
    state.refresh_dm_channel_info_from_profile(UserId::new(20), "Augusta", None, None);
    assert_eq!(channel(&state, 2).name, "Book club");
    assert_eq!(channel(&state, 2).recipients[0].display_name, "Augusta");

    let mut state = known(ChannelInfo {
        recipients: Some(vec![recipient(20, "Ada")]),
        ..channel_info(1234567890, "dm")
    });
    state.refresh_dm_channel_info_from_profile(UserId::new(20), "", None, None);
    assert_eq!(channel(&state, 1234567890).name, "dm-1234567890");
}

#[test]
fn recipients_are_completed_from_what_is_known() {
    let nameless = ChannelRecipientInfo {
        username: None,
        ..recipient(20, "unknown")
    };
    let mut state = DiscordState::default();
    state.session.ready_users.insert(
        20,
        ChannelRecipientInfo { is_bot: true, ..recipient(20, "Ada") },
    );
    state.presence.user_presences.insert(20, PresenceStatus::Idle);
    state.upsert_channel(&ChannelInfo {
        recipients: Some(vec![nameless]),
        ..channel_info(1, "dm")
    });
    let ada = &channel(&state, 1).recipients[0];
    assert_eq!(ada.display_name, "Ada");
    assert_eq!(ada.username.as_deref(), Some("ada"));
    assert!(ada.is_bot);
    assert_eq!(ada.status, PresenceStatus::Idle);

    state.session.ready_users.clear();
    state.profiles.relationships.insert(
        20,
        RelationshipState {
            status: FriendStatus::Friend,
            ignored: false,
            nickname: Some("Countess".to_owned()),
        },
    );
    state.upsert_channel(&ChannelInfo {
        recipients: Some(vec![recipient(20, "Ada")]),
        ..channel_info(1, "dm")
    });
    let ada = &channel(&state, 1).recipients[0];
    assert_eq!(ada.display_name, "Countess");
    assert!(ada.is_bot, "a bot stays a bot");
    assert_eq!(ada.status, PresenceStatus::Idle);
    assert_eq!(channel(&state, 1).name, "Countess");
    assert_eq!(
        state.private_user_display_name(UserId::new(77), None, None),
        "unknown"
    );
}

#[test]
fn presence_reaches_every_conversation() {
    let mut state = known(ChannelInfo {
        recipients: Some(vec![recipient(20, "Ada"), recipient(30, "Bob")]),
        ..channel_info(1, "group-dm")
    });
    state.update_channel_recipient_presence(UserId::new(30), PresenceStatus::Online);
    let statuses: Vec<PresenceStatus> = channel(&state, 1)
        .recipients
        .iter()
        .map(|recipient: &ChannelRecipientState| recipient.status)
        .collect();
    assert_eq!(statuses, vec![PresenceStatus::Unknown, PresenceStatus::Online]);
}

#[test]
fn thread_counters_saturate_and_skip_other_channels() {
    let mut state = known(ChannelInfo {
        message_count: Some(u64::MAX),
        total_message_sent: Some(3),
        ..channel_info(1, "thread")
    });
    state.upsert_channel(&ChannelInfo { message_count: Some(3), ..channel_info(2, "GuildText") });
    for channel_id in [1, 2, 3] {
        state.increment_thread_message_counts(ChannelId::new(channel_id));
        state.set_thread_member_count(ChannelId::new(channel_id), 12);
    }
    assert_eq!(channel(&state, 1).message_count, Some(u64::MAX));
    assert_eq!(channel(&state, 1).total_message_sent, Some(4));
    assert_eq!(channel(&state, 1).member_count, Some(12));
    assert_eq!(channel(&state, 2).message_count, Some(3));
    assert_eq!(channel(&state, 2).member_count, None);
}

#[test]
fn the_latest_message_counts() {
    let mut state = known(channel_info(1, "GuildText"));
    for message_id in [30, 50, 40] {
        state.record_channel_message_id(ChannelId::new(1), MessageId::new(message_id));
    }
    assert_eq!(channel(&state, 1).last_message_id, Some(MessageId::new(50)));
}

#[test]
fn repeating_a_payload_changes_nothing() {
    let info = || ChannelInfo {
        name: "dm-1".to_owned(),
        recipients: Some(vec![recipient(20, "Ada"), recipient(30, "unknown")]),
        ..channel_info(1, "group-dm")
    };
    let once = known(info());
    let mut twice = known(info());
    twice.upsert_channel(&info());
    assert_eq!(channel(&once, 1), channel(&twice, 1));
    assert_eq!(channel(&once, 1).clone(), *channel(&twice, 1));
}
