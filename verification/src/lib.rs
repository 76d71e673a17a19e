//! Typed model of the session-negotiation and presence payloads of a
//! real-time gateway, with the decoding rules that keep it tolerant of
//! values the service may add later.

pub mod activity;
pub mod buttons;
pub mod discriminator;
pub mod error;
pub mod flags;
pub mod ids;
pub mod keyed;
pub mod kind;
pub mod presence;
pub mod ready;
pub mod records;
pub mod stream_url;
pub mod user;
pub mod wire;
