//! Core logic of a multi-stream chat client: chat messages and their
//! sources, the command palette, the chat window state machine, and the
//! Twitch request/response handling, each with its contract.

pub mod clock;
pub mod message;
pub mod text;
pub mod json;
pub mod emotes;
pub mod config;
pub mod palette;
pub mod chat;
pub mod stream;
pub mod csv_stream;
pub mod twitch;
pub mod oauth;
pub mod laws;
