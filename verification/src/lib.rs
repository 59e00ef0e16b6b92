//! Client protocol layer for a live-streaming chat feed: a resumable binary
//! frame codec, a typed message taxonomy over JSON payloads, and the packet
//! types a session delivers.

pub mod api;
pub mod chat;
pub mod ext;
pub mod msg;
pub mod value;
pub mod wire;
