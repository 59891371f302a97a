//! The core of a UI-free remote desktop client that scripts drive over a
//! WebSocket or a pipe: what each command asks of the remote session, what it
//! is answered, and what is put on the wire.

pub mod action;
pub mod args;
pub mod command;
pub mod dispatch;
pub mod event;
pub mod frame;
pub mod handler;
pub mod identity;
pub mod json;
pub mod keyboard;
pub mod laws;
pub mod mouse;
pub mod pipe;
pub mod reply;
pub mod scancode;
pub mod session;
pub mod text;
pub mod video;
pub mod websocket;
