//! Event dispatch and command registry of a chat-platform bot, together with the
//! domain values the bot links to platform accounts.

pub mod bot;
pub mod commands;
pub mod context;
pub mod data;
pub mod embark_id_sync;
pub mod event_handler;
pub mod handler;
pub mod leaderboard;
pub mod platform;
pub mod text;
