//! Scheduled group activities: rosters, the per-guild store that owns them,
//! and the one-shot cancellation signal that gates their timed start.

pub mod client;
pub mod command;
pub mod config;
pub mod handler;
pub mod text;
pub mod util;
