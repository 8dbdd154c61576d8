//! Core of a chat-relay bot: command routing, a bounded per-channel
//! conversation history, and construction of completion-API requests.
//!
//! The surrounding process listens on a messaging gateway and talks to a
//! language-model completion service; everything it decides — which command
//! an inbound message fired, which turns to send to the completion API, what
//! to reply, and how the channel's history changes — is computed here.

pub mod dispatch;
pub mod history;
pub mod router;
