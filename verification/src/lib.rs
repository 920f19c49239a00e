//! Verified core of a chat-to-notification bridge: the wire-frame codec for a
//! team-chat server's event stream, the notification-decision logic, and the
//! connection state machines (keepalive, session restart, credential watchdog).

pub mod api;
pub mod codec;
pub mod dispatch;
pub mod events;
pub mod json;
pub mod json_parse;
pub mod keepalive;
pub mod supervisor;
pub mod text;
pub mod websocket;
