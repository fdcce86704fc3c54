//! Verified core of a Telegram bot that downloads videos and audio from links
//! and sends them back: per-user session state, message and command decisions,
//! download job state machines, yt-dlp argument building and outcome handling,
//! configuration parsing and background-service command handling.

pub mod types;
pub mod text;
pub mod helpers;
pub mod config;
pub mod session;
pub mod download;
pub mod args;
pub mod jobs;
pub mod length;
pub mod handlers;
pub mod service;
