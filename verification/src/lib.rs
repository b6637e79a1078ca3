//! Relays text as a preformatted Slack message.
//!
//! The library holds the decisions of the tool: how captured text becomes
//! message content, how the stored credential is written and read back as
//! TOML, and in which order a command runs its steps. Reading files and
//! standard input and talking to Slack are left to the caller, which hands
//! the outcomes in as plain values.

pub mod config;
pub mod error;
pub mod flow;
pub mod message;
pub mod nesting;
