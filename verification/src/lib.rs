pub mod channel;
pub mod channel_laws;
pub mod channel_list;
pub mod channel_update;
pub mod clock;
pub mod counting;
pub mod event;
pub mod ids;
pub mod merge_laws;
pub mod message;
pub mod notification;
pub mod ordered;
pub mod payload;
pub mod private_name;
pub mod recipient;
pub mod state;
pub mod text;
pub mod update_laws;
pub mod views;
pub mod voice;
