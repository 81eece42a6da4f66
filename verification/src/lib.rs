//! Verified core of a chat-channel moderation sweep.
//!
//! The library classifies messages (keep media and allow-listed links,
//! delete old plain text, skip the rest), accumulates per-channel purge
//! counters, and parses the numeric configuration values. Everything here
//! is plain data and decisions; the network client that fetches, deletes
//! and reports lives outside the library and drives it event by event.

pub mod text;
pub mod message;
pub mod purge;
pub mod config;
