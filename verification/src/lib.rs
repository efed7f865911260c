//! Screen/state-transition shell of a desktop chat client.
//!
//! The coordinator owns exactly one active screen (search, boot, or
//! conversation) plus process-wide system information, routes incoming
//! messages to the active screen, and realizes screen-to-screen
//! transitions. Rendering and the host event loop live outside the
//! library; they drive the coordinator through plain messages and carry
//! out the effects it returns.

pub mod chat;
pub mod laws;
pub mod screen;
