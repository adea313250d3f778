//! Notification settings and the decisions that rest on them.
pub mod kind;
pub mod kind_laws;
pub mod laws;
pub mod level;
pub mod mute;
pub mod mute_laws;
pub mod scope;
pub mod settings;
pub mod unread;
pub mod unread_laws;
