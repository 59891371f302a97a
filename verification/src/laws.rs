//! What the operations promise, stated of what goes into a call and what comes
//! out of it.
//!
//! `call_ensures(f, arguments, result)` says that a call of `f` with these
//! arguments may give this result. A law that assumes it holds of every call.

pub mod arguments;
pub mod commands;
pub mod frames;
pub mod identities;
pub mod inputs;
pub mod keys;
pub mod modes;
pub mod outcomes;
pub mod replies;
pub mod sessions;
pub mod settings;
