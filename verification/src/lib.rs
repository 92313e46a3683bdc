//! Keeps a chat presence in step with a calendar.
//!
//! The library decides, for one moment in time, which calendar event is in
//! progress, which status that event maps to, whether the status has to be
//! pushed, and how long to wait before deciding again. Reading files, talking
//! to the network and sleeping are left to the caller.

pub mod calendar;
pub mod commands;
pub mod config;
pub mod connection;
pub mod files;
pub mod first;
pub mod matching;
pub mod source;
pub mod status;
pub mod text;
pub mod time;
pub mod upload;
pub mod util;
