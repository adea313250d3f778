//! Voice connections: sessions, speaking activity, media packets and child tasks.
pub mod aead;
pub mod bytes;
pub mod call_laws;
pub mod crypt;
pub mod dave;
pub mod gateway;
pub mod media;
pub mod outbound;
pub mod pacing;
pub mod packet_laws;
pub mod receive_laws;
pub mod rtp;
pub mod send_laws;
pub mod session;
pub mod speaking;
pub mod tasks;
pub mod time;
