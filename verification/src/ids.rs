//! Snowflake identifiers, one type per kind of object.
use vstd::prelude::*;

verus! {

/// Identifies a guild.
#[derive(Clone, Copy, Debug, PartialEq, Eq, PartialOrd, Ord, Hash, Structural)]
pub struct GuildId {
    pub value: u64,
}

impl GuildId {
    pub fn new(value: u64) -> (id: Self)
        ensures
            id.value == value,
    {
        GuildId { value }
    }

    pub fn get(self) -> (value: u64)
        ensures
            value == self.value,
    {
        self.value
    }
}

/// Identifies a channel, thread or private conversation.
#[derive(Clone, Copy, Debug, PartialEq, Eq, PartialOrd, Ord, Hash, Structural)]
pub struct ChannelId {
    pub value: u64,
}

impl ChannelId {
    pub fn new(value: u64) -> (id: Self)
        ensures
            id.value == value,
    {
        ChannelId { value }
    }

    pub fn get(self) -> (value: u64)
        ensures
            value == self.value,
    {
        self.value
    }
}

/// Identifies a user account.
#[derive(Clone, Copy, Debug, PartialEq, Eq, PartialOrd, Ord, Hash, Structural)]
pub struct UserId {
    pub value: u64,
}

impl UserId {
    pub fn new(value: u64) -> (id: Self)
        ensures
            id.value == value,
    {
        UserId { value }
    }

    pub fn get(self) -> (value: u64)
        ensures
            value == self.value,
    {
        self.value
    }
}

/// Identifies a message.
#[derive(Clone, Copy, Debug, PartialEq, Eq, PartialOrd, Ord, Hash, Structural)]
pub struct MessageId {
    pub value: u64,
}

impl MessageId {
    pub fn new(value: u64) -> (id: Self)
        ensures
            id.value == value,
    {
        MessageId { value }
    }

    pub fn get(self) -> (value: u64)
        ensures
            value == self.value,
    {
        self.value
    }
}

/// Identifies a guild role.
#[derive(Clone, Copy, Debug, PartialEq, Eq, PartialOrd, Ord, Hash, Structural)]
pub struct RoleId {
    pub value: u64,
}

impl RoleId {
    pub fn new(value: u64) -> (id: Self)
        ensures
            id.value == value,
    {
        RoleId { value }
    }

    pub fn get(self) -> (value: u64)
        ensures
            value == self.value,
    {
        self.value
    }
}

/// Identifies a forum tag.
#[derive(Clone, Copy, Debug, PartialEq, Eq, PartialOrd, Ord, Hash, Structural)]
pub struct ForumTagId {
    pub value: u64,
}

impl ForumTagId {
    pub fn new(value: u64) -> (id: Self)
        ensures
            id.value == value,
    {
        ForumTagId { value }
    }

    pub fn get(self) -> (value: u64)
        ensures
            value == self.value,
    {
        self.value
    }
}

} // verus!
