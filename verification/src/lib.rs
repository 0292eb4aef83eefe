//! Session and subscription lifecycle for live-stream alerts.
//!
//! The crate holds the decisions of an alert bot: how inbound event frames
//! are decoded, how the session state machine moves, which upstream
//! subscriptions a reconciliation pass asks for, which channels are known
//! to be live, and what text each recipient receives. Every network call,
//! sleep and database query is left to the caller, who performs the action a
//! step returns and hands back what happened.

pub mod commands;
pub mod config;
pub mod error;
pub mod json;
pub mod state;
pub mod text;
pub mod twitch;
